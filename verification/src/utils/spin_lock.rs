//! The invariant shared by the spin locks that guard plain containers.
use vstd::prelude::*;
use vstd::rwlock::RwLockPredicate;

verus! {

/// The invariant of a lock whose content may be any value.
pub struct AnyValue;

impl<T> RwLockPredicate<T> for AnyValue {
    open spec fn inv(self, value: T) -> bool {
        true
    }
}

} // verus!
