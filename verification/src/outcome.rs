//! Classification of foreign-call outcomes into uniform result values.
//!
//! Every boundary operation signals failure in exactly one of two ways,
//! never both. Under the error-object channel the call returns a result
//! handle and fills an out-parameter with an owned error object when — and
//! only when — the result is null. Under the status-code channel the call
//! returns a scalar code, zero for success and a nonzero platform-defined
//! code otherwise; this layer never interprets a nonzero code, it only
//! distinguishes zero from nonzero and surfaces the code verbatim.
//!
//! A third, benign convention also occurs: some lookups return a null
//! handle with no error at all to mean "no result". That null is surfaced
//! as absence, never as a failure.
//!
//! Each function here takes the raw values a foreign call produced and
//! returns the one outcome the call's documented convention dictates,
//! adopting exactly the handles the create rule makes the caller own.

use vstd::prelude::*;

use crate::handle::OwnedRef;

verus! {

/// The boundary's scalar status code: zero is success, any nonzero value is
/// an opaque platform-defined failure code.
pub type OSStatus = i32;

/// The outcome the error-object channel dictates for a create-rule call
/// that returned `created` and wrote `error` to its error out-parameter:
/// the created handle on success, the error handle otherwise.
pub open spec fn created_outcome(created: usize, error: usize) -> Result<usize, usize> {
    if created != 0 {
        Ok(created)
    } else {
        Err(error)
    }
}

/// Law: under the error-object channel, every admissible pair of raw
/// results yields exactly one owned, non-null handle — the created object
/// on the success path, the error object on the failure path — so exactly
/// one release falls due, on either path, and never on a null handle.
pub proof fn lemma_create_rule_single_owner(created: usize, error: usize)
    requires
        created == 0 ==> error != 0,
    ensures
        created_outcome(created, error) is Ok <==> created != 0,
        created_outcome(created, error) matches Ok(a) ==> a == created && a != 0,
        created_outcome(created, error) matches Err(a) ==> a == error && a != 0,
{
}

/// Classifies a create-rule call that reports failure through an error
/// out-parameter (the error-object channel): a non-null result is adopted
/// as the success value, a null result means the error object was written
/// and is adopted as the failure value.
///
/// The channel's convention — null result exactly when an error was
/// written — is fixed per foreign function and known at the call site, so
/// a null result with a null error is a programming defect, ruled out
/// here rather than classified.
pub fn created_or_error(created: usize, error: usize) -> (r: Result<OwnedRef, OwnedRef>)
    requires
        created == 0 ==> error != 0,
    ensures
        (match r {
            Ok(o) => created_outcome(created, error) == Ok::<usize, usize>(o.addr) && o.wf(),
            Err(e) => created_outcome(created, error) == Err::<usize, usize>(e.addr) && e.wf(),
        }),
{
    if created == 0 {
        Err(OwnedRef::adopt(error))
    } else {
        Ok(OwnedRef::adopt(created))
    }
}

/// Classifies a create-rule call whose documented convention returns null
/// without an error to mean "no result": a null handle is absence, never a
/// failure; a non-null handle is adopted.
pub fn optional_created(created: usize) -> (r: Option<OwnedRef>)
    ensures
        r is None <==> created == 0,
        r matches Some(o) ==> o.addr == created && o.wf(),
{
    if created == 0 {
        None
    } else {
        Some(OwnedRef::adopt(created))
    }
}

/// Classifies a status-code call with no other output: a zero code is
/// success, a nonzero code is surfaced verbatim as the failure value.
pub fn status_unit(status: OSStatus) -> (r: Result<(), OSStatus>)
    ensures
        r is Ok <==> status == 0,
        r matches Err(e) ==> e == status,
{
    if status == 0 {
        Ok(())
    } else {
        Err(status)
    }
}

/// Classifies a status-code call whose success output is a boolean out
/// value: on a zero code the boolean is returned as read, on a nonzero
/// code the failure carries the code verbatim and the boolean plays no
/// part in the outcome.
pub fn status_bool(status: OSStatus, accepts: bool) -> (r: Result<bool, OSStatus>)
    ensures
        status == 0 ==> r == Ok::<bool, OSStatus>(accepts),
        status != 0 ==> r == Err::<bool, OSStatus>(status),
{
    if status == 0 {
        Ok(accepts)
    } else {
        Err(status)
    }
}

/// Classifies a status-code call whose success output is a create-rule
/// handle written to an out-parameter: on a zero code the handle is
/// adopted, on a nonzero code the failure carries the code verbatim.
///
/// The convention guarantees the out-parameter was written on success, so
/// a zero code beside a null handle is a programming defect, ruled out
/// here rather than classified.
pub fn status_created(status: OSStatus, created: usize) -> (r: Result<OwnedRef, OSStatus>)
    requires
        status == 0 ==> created != 0,
    ensures
        status == 0 ==> (r matches Ok(o) && o.addr == created && o.wf()),
        status != 0 ==> r == Err::<OwnedRef, OSStatus>(status),
{
    if status == 0 {
        Ok(OwnedRef::adopt(created))
    } else {
        Err(status)
    }
}

} // verus!
