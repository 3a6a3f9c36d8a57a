use launch_services::{
    created_or_error, optional_created, status_bool, status_created, status_unit, BorrowedRef,
    OwnedRef,
};

#[test]
fn adopt_then_release_hands_back_the_same_address() {
    let owned = OwnedRef::adopt(0xabc0);
    assert_eq!(owned.into_raw(), 0xabc0);
}

#[test]
fn borrowing_leaves_the_owner_intact() {
    let owned = OwnedRef::adopt(0xcafe);
    let view: BorrowedRef = owned.as_borrowed();
    assert_eq!(view.addr, 0xcafe);
    // The owner still carries its one release obligation after the borrow.
    assert_eq!(owned.into_raw(), 0xcafe);
}

#[test]
fn get_rule_view_carries_the_address() {
    let view = BorrowedRef::borrow(0xbeef);
    let copy = view;
    assert_eq!(view.addr, 0xbeef);
    assert_eq!(copy.addr, 0xbeef);
}

#[test]
fn created_or_error_success_adopts_the_created_handle() {
    match created_or_error(0x7000, 0) {
        Ok(o) => assert_eq!(o.into_raw(), 0x7000),
        Err(_) => panic!("a non-null created handle is a success"),
    }
}

#[test]
fn created_or_error_null_result_adopts_the_error_object() {
    match created_or_error(0, 0x8000) {
        Ok(_) => panic!("a null created handle is a failure"),
        Err(e) => assert_eq!(e.into_raw(), 0x8000),
    }
}

#[test]
fn optional_created_null_is_absence_not_failure() {
    assert!(optional_created(0).is_none());
}

#[test]
fn optional_created_adopts_a_non_null_handle() {
    let r = optional_created(0x9000);
    assert_eq!(r.map(|o| o.into_raw()), Some(0x9000));
}

#[test]
fn status_unit_zero_is_success() {
    assert_eq!(status_unit(0), Ok(()));
}

#[test]
fn status_unit_nonzero_is_surfaced_verbatim() {
    assert_eq!(status_unit(-10814), Err(-10814));
    assert_eq!(status_unit(1), Err(1));
}

#[test]
fn status_bool_zero_pairs_the_boolean_with_success() {
    assert_eq!(status_bool(0, true), Ok(true));
    assert_eq!(status_bool(0, false), Ok(false));
}

#[test]
fn status_bool_nonzero_carries_the_code_and_drops_the_boolean() {
    assert_eq!(status_bool(-10810, true), Err(-10810));
    assert_eq!(status_bool(-10810, false), Err(-10810));
}

#[test]
fn status_created_zero_adopts_the_out_handle() {
    match status_created(0, 0xa000) {
        Ok(o) => assert_eq!(o.into_raw(), 0xa000),
        Err(_) => panic!("a zero status is a success"),
    }
}

#[test]
fn status_created_nonzero_carries_the_code() {
    match status_created(-36, 0) {
        Ok(_) => panic!("a nonzero status is a failure"),
        Err(code) => assert_eq!(code, -36),
    }
}
