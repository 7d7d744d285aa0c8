//! State shared between the owner of a client and the task that runs its
//! handler: each piece behind its own lock.
use vstd::prelude::*;
use std::sync::{Arc, Mutex};

verus! {

/// std's lock, carried as an opaque value.
#[verifier::external_type_specification]
#[verifier::external_body]
#[verifier::reject_recursive_types(T)]
pub struct ExMutex<T: ?Sized>(Mutex<T>);

/// Relies on std::sync::Mutex::new: makes an unlocked mutex holding `t`; it
/// does not fail.
pub assume_specification<T>[ Mutex::<T>::new ](t: T) -> Mutex<T>;

/// A shared handle on a lock holding `t`.
pub fn armu<T>(t: T) -> (r: Arc<Mutex<T>>) {
    Arc::new(Mutex::new(t))
}

} // verus!
