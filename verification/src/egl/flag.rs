//! The lock around the one piece of state that a surface changes after it
//! was made.

use vstd::prelude::*;

verus! {

/// `Mutex` of lock_api, which parking_lot's `Mutex` is made of.
#[verifier::external_type_specification]
#[verifier::external_body]
#[verifier::reject_recursive_types(R)]
#[verifier::reject_recursive_types(T)]
pub struct ExMutex<R, T: ?Sized>(parking_lot::lock_api::Mutex<R, T>);

/// `RawMutex` of parking_lot, the lock inside its `Mutex`.
#[verifier::external_type_specification]
#[verifier::external_body]
pub struct ExRawMutex(parking_lot::RawMutex);

/// Calls `Mutex::new` of parking_lot.  Nothing is claimed of the result: a
/// mutex can be changed through any shared reference to it.
#[verifier::external_body]
pub(crate) fn flag_new(value: bool) -> parking_lot::Mutex<bool> {
    parking_lot::Mutex::new(value)
}

/// Calls `Mutex::lock` of parking_lot and reads the value under the lock.
/// Nothing is claimed of the result: another thread may have written it.
#[verifier::external_body]
pub(crate) fn flag_get(flag: &parking_lot::Mutex<bool>) -> bool {
    *flag.lock()
}

/// Calls `Mutex::lock` of parking_lot and writes the value under the lock.
#[verifier::external_body]
pub(crate) fn flag_set(flag: &parking_lot::Mutex<bool>, value: bool) {
    *flag.lock() = value;
}

} // verus!
