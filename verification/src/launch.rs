//! The launch URL specification and its marshaling into a flat foreign
//! record.
//!
//! A caller builds an [`LSLaunchURLSpec`]: an optional target application
//! handle, an optional handle to an ordered collection of item URLs, an
//! opaque pass-through word, a set of launch flags, and an opaque
//! asynchronous-completion token. Immediately before the launch call the
//! specification is marshaled into a [`PrimitiveLSLaunchURLSpec`], a flat
//! record of raw addresses and scalars. Marshaling borrows the handles the
//! specification owns — it adopts nothing — so the record must be consumed
//! within the one call and discarded before the owning specification is.

use vstd::prelude::*;

use crate::flags::LSLaunchFlags;
use crate::handle::OwnedRef;

verus! {

/// A caller-built launch request: which application to launch, with which
/// target items, under which flags.
///
/// The two opaque words (`pass_thru_params`, `async_ref_con`) are not
/// interpreted by this layer; they are forwarded to the boundary verbatim,
/// with zero standing for the null pointer.
#[derive(Debug)]
pub struct LSLaunchURLSpec {
    /// The application to launch, as an owned handle to its URL, or `None`
    /// to let the service resolve one.
    pub app: Option<OwnedRef>,
    /// The items to open, as an owned handle to an ordered collection of
    /// URLs, or `None` for none.
    pub urls: Option<OwnedRef>,
    /// Opaque pass-through word, forwarded uninterpreted; zero is null.
    pub pass_thru_params: usize,
    /// The launch flags.
    pub flags: LSLaunchFlags,
    /// Opaque asynchronous-completion token, forwarded uninterpreted; zero
    /// is null.
    pub async_ref_con: usize,
}

/// The flat record handed to the launch entry point: raw addresses and
/// scalar fields only, in the boundary's own shape.
#[derive(Clone, Copy, Debug, PartialEq, Eq, Structural)]
pub struct PrimitiveLSLaunchURLSpec {
    /// Raw address of the target application's URL; zero when absent.
    pub app_url: usize,
    /// Raw address of the item-URL collection; zero when absent.
    pub item_urls: usize,
    /// The pass-through word, verbatim.
    pub pass_thru_params: usize,
    /// The launch flags' raw 32-bit value.
    pub launch_flags: u32,
    /// The asynchronous-completion token, verbatim.
    pub async_ref_con: usize,
}

/// What marshaling a specification yields: each optional handle becomes its
/// raw address or zero, the flags become their raw value, and the two
/// opaque words pass through unchanged.
pub open spec fn marshaled(s: LSLaunchURLSpec) -> PrimitiveLSLaunchURLSpec {
    PrimitiveLSLaunchURLSpec {
        app_url: match s.app {
            Some(o) => o.addr,
            None => 0,
        },
        item_urls: match s.urls {
            Some(o) => o.addr,
            None => 0,
        },
        pass_thru_params: s.pass_thru_params,
        launch_flags: s.flags.bits,
        async_ref_con: s.async_ref_con,
    }
}

impl LSLaunchURLSpec {
    /// Well-formedness: whatever handles the specification owns are
    /// non-null.
    pub open spec fn wf(self) -> bool {
        &&& (self.app matches Some(o) ==> o.wf())
        &&& (self.urls matches Some(o) ==> o.wf())
    }

    /// Marshals the specification into the flat foreign record.
    ///
    /// This borrows the owned handles — the specification keeps every
    /// release obligation it had — so the record's raw addresses are valid
    /// only while `self` is alive, and the record must not outlive the one
    /// call it is built for.
    pub fn to_primitive(&self) -> (r: PrimitiveLSLaunchURLSpec)
        ensures
            r == marshaled(*self),
    {
        let app_url: usize = match &self.app {
            Some(o) => o.as_borrowed().addr,
            None => 0,
        };
        let item_urls: usize = match &self.urls {
            Some(o) => o.as_borrowed().addr,
            None => 0,
        };
        PrimitiveLSLaunchURLSpec {
            app_url: app_url,
            item_urls: item_urls,
            pass_thru_params: self.pass_thru_params,
            launch_flags: self.flags.bits(),
            async_ref_con: self.async_ref_con,
        }
    }
}

impl Default for LSLaunchURLSpec {
    /// The empty specification: no application, no items, default flags,
    /// null pass-through word and completion token.
    fn default() -> (r: LSLaunchURLSpec)
        ensures
            r.app is None,
            r.urls is None,
            r.pass_thru_params == 0,
            r.flags.bits == 0x00000001u32,
            r.async_ref_con == 0,
            r.wf(),
    {
        LSLaunchURLSpec {
            app: None,
            urls: None,
            pass_thru_params: 0,
            flags: LSLaunchFlags::defaults(),
            async_ref_con: 0,
        }
    }
}

/// Law: an empty specification — no application, no items, default flags,
/// null pass-through word and completion token — marshals to a record whose
/// two handle fields are null and whose flags field is the numeric value of
/// the default launch flag.
pub proof fn lemma_empty_spec_marshals_null(s: LSLaunchURLSpec)
    requires
        s.app is None,
        s.urls is None,
        s.pass_thru_params == 0,
        s.flags.bits == 0x00000001u32,
        s.async_ref_con == 0,
    ensures
        marshaled(s).app_url == 0,
        marshaled(s).item_urls == 0,
        marshaled(s).pass_thru_params == 0,
        marshaled(s).launch_flags == 0x00000001u32,
        marshaled(s).async_ref_con == 0,
{
}

/// Law: marshaling preserves the exact addresses of whatever handles the
/// specification owns, the exact raw value of its flags, and the two opaque
/// words, for every specification.
pub proof fn lemma_marshal_preserves_fields(s: LSLaunchURLSpec)
    ensures
        s.app matches Some(o) ==> marshaled(s).app_url == o.addr,
        s.app is None ==> marshaled(s).app_url == 0,
        s.urls matches Some(o) ==> marshaled(s).item_urls == o.addr,
        s.urls is None ==> marshaled(s).item_urls == 0,
        marshaled(s).pass_thru_params == s.pass_thru_params,
        marshaled(s).launch_flags == s.flags.bits,
        marshaled(s).async_ref_con == s.async_ref_con,
{
}

} // verus!
