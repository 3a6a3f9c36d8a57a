//! A typed, ownership-safe layer over an operating-system application
//! resolution service.
//!
//! The service is reached through a C ABI whose objects follow a
//! "create vs. get" reference-counting convention and whose option sets are
//! raw 32-bit masks. This crate holds the part of that layer that can be
//! reasoned about as plain data: the option bitsets, the rule that
//! distinguishes an owned handle (to be released exactly once) from a
//! borrowed one (never released), the marshaling of a launch request into a
//! flat record of raw addresses, and the translation of the service's two
//! error-reporting conventions into uniform result values.

mod flags;
mod handle;
mod launch;
mod outcome;

pub use flags::LSAcceptanceFlags;
pub use flags::LSLaunchFlags;
pub use flags::LSRolesMask;
pub use flags::OptionBits;
pub use flags::lemma_acceptance_flags_round_trip;
pub use flags::lemma_launch_flags_round_trip;
pub use flags::lemma_roles_mask_round_trip;
pub use handle::BorrowedRef;
pub use handle::OwnedRef;
pub use launch::LSLaunchURLSpec;
pub use launch::PrimitiveLSLaunchURLSpec;
pub use launch::lemma_empty_spec_marshals_null;
pub use launch::lemma_marshal_preserves_fields;
pub use launch::marshaled;
pub use outcome::OSStatus;
pub use outcome::created_or_error;
pub use outcome::created_outcome;
pub use outcome::lemma_create_rule_single_owner;
pub use outcome::optional_created;
pub use outcome::status_bool;
pub use outcome::status_created;
pub use outcome::status_unit;
