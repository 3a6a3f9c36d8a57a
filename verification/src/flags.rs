//! Option bitsets exchanged with the boundary service.
//!
//! Each type is a set over a fixed 32-bit unsigned domain. The numeric
//! values are bit-exact with the platform's published constants; no
//! validation is performed, an unrecognized bit pattern is carried as-is,
//! because the boundary service is the sole authority on whether a
//! combination is meaningful.

use vstd::prelude::*;

verus! {

/// The raw 32-bit option value that crosses the boundary.
pub type OptionBits = u32;

/// Application-role capability flags: which role (viewer, editor, shell) a
/// resolution query or handler assignment speaks of.
///
/// `none` and `all` are sentinel combinations fixed by the platform: `none`
/// is published as the value 1 (not an empty mask), and `all` is every bit
/// set (not the union of the named roles). Both literal values are kept
/// as the platform defines them.
#[derive(Clone, Copy, Debug, PartialEq, Eq, Structural)]
pub struct LSRolesMask {
    /// The raw 32-bit value.
    pub bits: OptionBits,
}

impl LSRolesMask {
    /// The mask carrying a given raw value: reconstruction is lossless and
    /// unvalidated.
    pub open spec fn from_bits_spec(bits: OptionBits) -> LSRolesMask {
        LSRolesMask { bits: bits }
    }

    /// Rebuilds a mask from its raw 32-bit value, bit for bit.
    pub fn from_bits(bits: OptionBits) -> (r: LSRolesMask)
        ensures
            r == LSRolesMask::from_bits_spec(bits),
    {
        LSRolesMask { bits: bits }
    }

    /// The raw 32-bit value, as handed to the boundary.
    pub fn bits(&self) -> (r: OptionBits)
        ensures
            r == self.bits,
    {
        self.bits
    }

    /// The platform's "no role" sentinel, published as the value 1.
    pub fn none() -> (r: LSRolesMask)
        ensures
            r.bits == 0x00000001u32,
    {
        LSRolesMask { bits: 0x00000001 }
    }

    /// The viewer role.
    pub fn viewer() -> (r: LSRolesMask)
        ensures
            r.bits == 0x00000002u32,
    {
        LSRolesMask { bits: 0x00000002 }
    }

    /// The editor role.
    pub fn editor() -> (r: LSRolesMask)
        ensures
            r.bits == 0x00000004u32,
    {
        LSRolesMask { bits: 0x00000004 }
    }

    /// The shell role.
    pub fn shell() -> (r: LSRolesMask)
        ensures
            r.bits == 0x00000008u32,
    {
        LSRolesMask { bits: 0x00000008 }
    }

    /// The platform's "every role" sentinel: all 32 bits set, deliberately
    /// not the union of the named roles.
    pub fn all() -> (r: LSRolesMask)
        ensures
            r.bits == 0xffffffffu32,
    {
        LSRolesMask { bits: 0xffffffff }
    }

    /// Set union: bitwise or of the raw values.
    pub fn union(self, other: LSRolesMask) -> (r: LSRolesMask)
        ensures
            r.bits == self.bits | other.bits,
    {
        LSRolesMask { bits: self.bits | other.bits }
    }

    /// Membership test: true exactly when every bit of `other` is set in
    /// `self`.
    pub fn contains(self, other: LSRolesMask) -> (r: bool)
        ensures
            r == (self.bits & other.bits == other.bits),
    {
        self.bits & other.bits == other.bits
    }
}

/// Law: converting a role mask to its raw value and back yields an equal
/// mask, for every mask (in particular for every combination of the named
/// roles).
pub proof fn lemma_roles_mask_round_trip(m: LSRolesMask)
    ensures
        LSRolesMask::from_bits_spec(m.bits) == m,
{
}

/// Flags governing whether a URL-acceptance check may prompt an interactive
/// login.
#[derive(Clone, Copy, Debug, PartialEq, Eq, Structural)]
pub struct LSAcceptanceFlags {
    /// The raw 32-bit value.
    pub bits: OptionBits,
}

impl LSAcceptanceFlags {
    /// The set carrying a given raw value: reconstruction is lossless and
    /// unvalidated.
    pub open spec fn from_bits_spec(bits: OptionBits) -> LSAcceptanceFlags {
        LSAcceptanceFlags { bits: bits }
    }

    /// Rebuilds a flag set from its raw 32-bit value, bit for bit.
    pub fn from_bits(bits: OptionBits) -> (r: LSAcceptanceFlags)
        ensures
            r == LSAcceptanceFlags::from_bits_spec(bits),
    {
        LSAcceptanceFlags { bits: bits }
    }

    /// The raw 32-bit value, as handed to the boundary.
    pub fn bits(&self) -> (r: OptionBits)
        ensures
            r == self.bits,
    {
        self.bits
    }

    /// The default acceptance behavior.
    pub fn defaults() -> (r: LSAcceptanceFlags)
        ensures
            r.bits == 0x00000001u32,
    {
        LSAcceptanceFlags { bits: 0x00000001 }
    }

    /// Permits the check to bring up an interactive login interface.
    pub fn allow_login_ui() -> (r: LSAcceptanceFlags)
        ensures
            r.bits == 0x00000002u32,
    {
        LSAcceptanceFlags { bits: 0x00000002 }
    }

    /// Set union: bitwise or of the raw values.
    pub fn union(self, other: LSAcceptanceFlags) -> (r: LSAcceptanceFlags)
        ensures
            r.bits == self.bits | other.bits,
    {
        LSAcceptanceFlags { bits: self.bits | other.bits }
    }

    /// Membership test: true exactly when every bit of `other` is set in
    /// `self`.
    pub fn contains(self, other: LSAcceptanceFlags) -> (r: bool)
        ensures
            r == (self.bits & other.bits == other.bits),
    {
        self.bits & other.bits == other.bits
    }
}

/// Law: converting an acceptance flag set to its raw value and back yields
/// an equal set.
pub proof fn lemma_acceptance_flags_round_trip(f: LSAcceptanceFlags)
    ensures
        LSAcceptanceFlags::from_bits_spec(f.bits) == f,
{
}

/// Flags controlling launch behavior. They combine freely; policy conflicts,
/// if any, are resolved by the boundary service, not by this layer.
#[derive(Clone, Copy, Debug, PartialEq, Eq, Structural)]
pub struct LSLaunchFlags {
    /// The raw 32-bit value.
    pub bits: OptionBits,
}

impl LSLaunchFlags {
    /// The set carrying a given raw value: reconstruction is lossless and
    /// unvalidated.
    pub open spec fn from_bits_spec(bits: OptionBits) -> LSLaunchFlags {
        LSLaunchFlags { bits: bits }
    }

    /// Rebuilds a flag set from its raw 32-bit value, bit for bit.
    pub fn from_bits(bits: OptionBits) -> (r: LSLaunchFlags)
        ensures
            r == LSLaunchFlags::from_bits_spec(bits),
    {
        LSLaunchFlags { bits: bits }
    }

    /// The raw 32-bit value, as handed to the boundary.
    pub fn bits(&self) -> (r: OptionBits)
        ensures
            r == self.bits,
    {
        self.bits
    }

    /// Default launch behavior.
    pub fn defaults() -> (r: LSLaunchFlags)
        ensures
            r.bits == 0x00000001u32,
    {
        LSLaunchFlags { bits: 0x00000001 }
    }

    /// Launch the application in print mode.
    pub fn print() -> (r: LSLaunchFlags)
        ensures
            r.bits == 0x00000002u32,
    {
        LSLaunchFlags { bits: 0x00000002 }
    }

    /// Let the service display launch errors itself.
    pub fn display_errors() -> (r: LSLaunchFlags)
        ensures
            r.bits == 0x00000040u32,
    {
        LSLaunchFlags { bits: 0x00000040 }
    }

    /// Keep the launched items out of the recent-items list.
    pub fn dont_add_to_recents() -> (r: LSLaunchFlags)
        ensures
            r.bits == 0x00000100u32,
    {
        LSLaunchFlags { bits: 0x00000100 }
    }

    /// Do not bring the launched application to the foreground.
    pub fn dont_switch() -> (r: LSLaunchFlags)
        ensures
            r.bits == 0x00000200u32,
    {
        LSLaunchFlags { bits: 0x00000200 }
    }

    /// Launch asynchronously.
    pub fn asynchronous() -> (r: LSLaunchFlags)
        ensures
            r.bits == 0x00010000u32,
    {
        LSLaunchFlags { bits: 0x00010000 }
    }

    /// Force a new instance of the application.
    pub fn new_instance() -> (r: LSLaunchFlags)
        ensures
            r.bits == 0x00080000u32,
    {
        LSLaunchFlags { bits: 0x00080000 }
    }

    /// Hide the launched application.
    pub fn hide_on_launch() -> (r: LSLaunchFlags)
        ensures
            r.bits == 0x00100000u32,
    {
        LSLaunchFlags { bits: 0x00100000 }
    }

    /// Hide every application other than the launched one.
    pub fn hide_others() -> (r: LSLaunchFlags)
        ensures
            r.bits == 0x00200000u32,
    {
        LSLaunchFlags { bits: 0x00200000 }
    }

    /// Set union: bitwise or of the raw values.
    pub fn union(self, other: LSLaunchFlags) -> (r: LSLaunchFlags)
        ensures
            r.bits == self.bits | other.bits,
    {
        LSLaunchFlags { bits: self.bits | other.bits }
    }

    /// Membership test: true exactly when every bit of `other` is set in
    /// `self`.
    pub fn contains(self, other: LSLaunchFlags) -> (r: bool)
        ensures
            r == (self.bits & other.bits == other.bits),
    {
        self.bits & other.bits == other.bits
    }
}

/// Law: converting a launch flag set to its raw value and back yields an
/// equal set.
pub proof fn lemma_launch_flags_round_trip(f: LSLaunchFlags)
    ensures
        LSLaunchFlags::from_bits_spec(f.bits) == f,
{
}

} // verus!
