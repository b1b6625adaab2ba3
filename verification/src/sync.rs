//! A value behind a lock.
use parking_lot::Mutex;
use vstd::prelude::*;

verus! {

#[verifier::external_type_specification]
#[verifier::external_body]
#[verifier::reject_recursive_types(R)]
#[verifier::reject_recursive_types(T)]
pub struct ExMutex<R, T: ?Sized>(parking_lot::lock_api::Mutex<R, T>);

#[verifier::external_type_specification]
#[verifier::external_body]
pub struct ExRawMutex(parking_lot::RawMutex);

/// `parking_lot::Mutex::new`. Nothing is claimed of the lock: what it guards can
/// change behind a shared reference, so it is no part of the lock's value.
#[verifier::external_body]
pub(crate) fn new_lock<T>(value: T) -> (lock: Mutex<T>) {
    Mutex::new(value)
}

/// That `lock` is what [`new_lock`] made around `value`.
pub(crate) open spec fn made_around<T>(lock: Mutex<T>, value: T) -> bool {
    call_ensures(new_lock::<T>, (value,), lock)
}

/// `parking_lot::Mutex::lock`: waits for the lock, lends what it guards to `action`
/// together with `argument`, and gives the lock back. The claim is that the result is
/// one that `action` returns for some value of the guarded type. Which value that is,
/// is open: other threads may have changed it at any time before. The call does not
/// return where `action` asks for the same lock again.
#[verifier::external_body]
pub(crate) fn with_lock<T, A, R, F: FnOnce(&mut T, A) -> R>(
    lock: &Mutex<T>,
    action: F,
    argument: A,
) -> (result: R)
    requires
        forall|value: &mut T| #[trigger] call_requires(action, (value, argument)),
    ensures
        exists|value: &mut T| #[trigger] call_ensures(action, (value, argument), result),
{
    action(&mut lock.lock(), argument)
}

/// That `result` is what [`with_lock`] gave for `action` and `argument` on `lock`.
pub(crate) open spec fn gave<T, A, R, F: FnOnce(&mut T, A) -> R>(
    lock: Mutex<T>,
    action: F,
    argument: A,
    result: R,
) -> bool {
    call_ensures(with_lock::<T, A, R, F>, (&lock, action, argument), result)
}

/// What [`with_lock`] gave is what `action` returns for some value of the guarded type.
pub(crate) proof fn lemma_gave<T, A, R, F: FnOnce(&mut T, A) -> R>(
    lock: &Mutex<T>,
    action: F,
    argument: A,
    result: R,
)
    requires
        gave(*lock, action, argument, result),
    ensures
        exists|value: &mut T| #[trigger] call_ensures(action, (value, argument), result),
{
}

} // verus!
