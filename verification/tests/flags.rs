use launch_services::{LSAcceptanceFlags, LSLaunchFlags, LSRolesMask};

#[test]
fn roles_named_values_are_bit_exact() {
    assert_eq!(LSRolesMask::none().bits(), 0x00000001);
    assert_eq!(LSRolesMask::viewer().bits(), 0x00000002);
    assert_eq!(LSRolesMask::editor().bits(), 0x00000004);
    assert_eq!(LSRolesMask::shell().bits(), 0x00000008);
    assert_eq!(LSRolesMask::all().bits(), u32::MAX);
}

#[test]
fn roles_all_is_not_the_union_of_named_roles() {
    let named = LSRolesMask::none()
        .union(LSRolesMask::viewer())
        .union(LSRolesMask::editor())
        .union(LSRolesMask::shell());
    assert_eq!(named.bits(), 0x0000000f);
    assert_ne!(named, LSRolesMask::all());
}

#[test]
fn roles_round_trip_every_subset_of_named_roles() {
    let viewer = LSRolesMask::viewer();
    let editor = LSRolesMask::editor();
    let shell = LSRolesMask::shell();
    let subsets = [
        LSRolesMask::from_bits(0),
        viewer,
        editor,
        shell,
        viewer.union(editor),
        viewer.union(shell),
        editor.union(shell),
        viewer.union(editor).union(shell),
    ];
    for m in subsets {
        let rebuilt = LSRolesMask::from_bits(m.bits());
        assert_eq!(rebuilt, m);
        assert_eq!(rebuilt.bits(), m.bits());
    }
}

#[test]
fn roles_union_and_membership() {
    let ve = LSRolesMask::viewer().union(LSRolesMask::editor());
    assert_eq!(ve.bits(), 0x00000006);
    assert!(ve.contains(LSRolesMask::viewer()));
    assert!(ve.contains(LSRolesMask::editor()));
    assert!(!ve.contains(LSRolesMask::shell()));
    assert!(!ve.contains(LSRolesMask::all()));
    assert!(LSRolesMask::all().contains(ve));
}

#[test]
fn roles_unrecognized_bits_are_forwarded_as_is() {
    let odd = LSRolesMask::from_bits(0xdead_beef);
    assert_eq!(odd.bits(), 0xdead_beef);
    assert_eq!(LSRolesMask::from_bits(odd.bits()), odd);
}

#[test]
fn acceptance_named_values_are_bit_exact() {
    assert_eq!(LSAcceptanceFlags::defaults().bits(), 0x00000001);
    assert_eq!(LSAcceptanceFlags::allow_login_ui().bits(), 0x00000002);
}

#[test]
fn acceptance_round_trip_and_union() {
    let both = LSAcceptanceFlags::defaults().union(LSAcceptanceFlags::allow_login_ui());
    assert_eq!(both.bits(), 0x00000003);
    assert_eq!(LSAcceptanceFlags::from_bits(both.bits()), both);
    assert!(both.contains(LSAcceptanceFlags::allow_login_ui()));
}

#[test]
fn launch_named_values_are_bit_exact() {
    assert_eq!(LSLaunchFlags::defaults().bits(), 0x00000001);
    assert_eq!(LSLaunchFlags::print().bits(), 0x00000002);
    assert_eq!(LSLaunchFlags::display_errors().bits(), 0x00000040);
    assert_eq!(LSLaunchFlags::dont_add_to_recents().bits(), 0x00000100);
    assert_eq!(LSLaunchFlags::dont_switch().bits(), 0x00000200);
    assert_eq!(LSLaunchFlags::asynchronous().bits(), 0x00010000);
    assert_eq!(LSLaunchFlags::new_instance().bits(), 0x00080000);
    assert_eq!(LSLaunchFlags::hide_on_launch().bits(), 0x00100000);
    assert_eq!(LSLaunchFlags::hide_others().bits(), 0x00200000);
}

#[test]
fn launch_round_trip_and_union() {
    let f = LSLaunchFlags::defaults().union(LSLaunchFlags::asynchronous());
    assert_eq!(f.bits(), 0x00010001);
    assert_eq!(LSLaunchFlags::from_bits(f.bits()), f);
    assert!(f.contains(LSLaunchFlags::asynchronous()));
    assert!(!f.contains(LSLaunchFlags::hide_on_launch()));
}
