//! Closing values: turning what a unit of work has collected into what is written.
use crate::private::Sealed;
use crate::value::{FlagConstructor, ForceFlag, WithDimensions};
use std::borrow::Cow;
use std::sync::{Arc, Mutex, MutexGuard, OnceLock};
use std::time::{Duration, SystemTime};
use vstd::prelude::*;

verus! {

/// Closes a value: stops timers, collects fanned-in data, and so on.
///
/// If possible, implement this trait both for `MyValue` and for `&MyValue`: the latter allows use
/// through smart pointers, such as `Arc<MyValue>`.
pub trait CloseValue: Sized {
    /// What closing produces.
    type Closed;

    /// Whether closing this value may produce `closed`. There may be several possibilities: what
    /// a timer has measured, say, is not fixed beforehand.
    open spec fn closes_to(self, closed: Self::Closed) -> bool {
        true
    }

    /// Closes the value.
    fn close(self) -> (closed: Self::Closed)
        ensures
            self.closes_to(closed),
    ;
}

/// Closes a value without taking ownership.
///
/// This is for implementations of [`CloseValue`] for smart pointers. It is implemented for every
/// `T` for which `&T` can be closed, and for nothing else.
pub trait CloseValueRef: Sealed {
    /// What closing produces.
    type Closed;

    /// Whether closing this value by reference may produce `closed`.
    spec fn ref_closes_to(&self, closed: Self::Closed) -> bool;

    /// Closes the value.
    fn close_ref(&self) -> (closed: Self::Closed)
        ensures
            self.ref_closes_to(closed),
    ;
}

impl<C, T> CloseValueRef for T where for <'a>&'a T: CloseValue<Closed = C> {
    type Closed = C;

    open spec fn ref_closes_to(&self, closed: C) -> bool {
        self.closes_to(closed)
    }

    fn close_ref(&self) -> C {
        <&T>::close(self)
    }
}

impl CloseValue for bool {
    type Closed = bool;

    open spec fn closes_to(self, closed: bool) -> bool {
        closed == self
    }

    fn close(self) -> bool {
        self
    }
}

impl<'a> CloseValue for &'a bool {
    type Closed = bool;

    open spec fn closes_to(self, closed: bool) -> bool {
        closed == *self
    }

    fn close(self) -> bool {
        *self
    }
}

impl CloseValue for u8 {
    type Closed = u8;

    open spec fn closes_to(self, closed: u8) -> bool {
        closed == self
    }

    fn close(self) -> u8 {
        self
    }
}

impl<'a> CloseValue for &'a u8 {
    type Closed = u8;

    open spec fn closes_to(self, closed: u8) -> bool {
        closed == *self
    }

    fn close(self) -> u8 {
        *self
    }
}

impl CloseValue for u16 {
    type Closed = u16;

    open spec fn closes_to(self, closed: u16) -> bool {
        closed == self
    }

    fn close(self) -> u16 {
        self
    }
}

impl<'a> CloseValue for &'a u16 {
    type Closed = u16;

    open spec fn closes_to(self, closed: u16) -> bool {
        closed == *self
    }

    fn close(self) -> u16 {
        *self
    }
}

impl CloseValue for u32 {
    type Closed = u32;

    open spec fn closes_to(self, closed: u32) -> bool {
        closed == self
    }

    fn close(self) -> u32 {
        self
    }
}

impl<'a> CloseValue for &'a u32 {
    type Closed = u32;

    open spec fn closes_to(self, closed: u32) -> bool {
        closed == *self
    }

    fn close(self) -> u32 {
        *self
    }
}

impl CloseValue for u64 {
    type Closed = u64;

    open spec fn closes_to(self, closed: u64) -> bool {
        closed == self
    }

    fn close(self) -> u64 {
        self
    }
}

impl<'a> CloseValue for &'a u64 {
    type Closed = u64;

    open spec fn closes_to(self, closed: u64) -> bool {
        closed == *self
    }

    fn close(self) -> u64 {
        *self
    }
}

impl CloseValue for usize {
    type Closed = usize;

    open spec fn closes_to(self, closed: usize) -> bool {
        closed == self
    }

    fn close(self) -> usize {
        self
    }
}

impl<'a> CloseValue for &'a usize {
    type Closed = usize;

    open spec fn closes_to(self, closed: usize) -> bool {
        closed == *self
    }

    fn close(self) -> usize {
        *self
    }
}

impl CloseValue for Duration {
    type Closed = Duration;

    open spec fn closes_to(self, closed: Duration) -> bool {
        closed == self
    }

    fn close(self) -> Duration {
        self
    }
}

impl<'a> CloseValue for &'a Duration {
    type Closed = Duration;

    open spec fn closes_to(self, closed: Duration) -> bool {
        closed == *self
    }

    fn close(self) -> Duration {
        *self
    }
}

impl CloseValue for SystemTime {
    type Closed = SystemTime;

    open spec fn closes_to(self, closed: SystemTime) -> bool {
        closed == self
    }

    fn close(self) -> SystemTime {
        self
    }
}

impl<'a> CloseValue for &'a SystemTime {
    type Closed = SystemTime;

    open spec fn closes_to(self, closed: SystemTime) -> bool {
        closed == *self
    }

    fn close(self) -> SystemTime {
        *self
    }
}

impl CloseValue for String {
    type Closed = String;

    open spec fn closes_to(self, closed: String) -> bool {
        closed == self
    }

    fn close(self) -> String {
        self
    }
}

impl<'a> CloseValue for &'a str {
    type Closed = &'a str;

    open spec fn closes_to(self, closed: &'a str) -> bool {
        closed == self
    }

    fn close(self) -> &'a str {
        self
    }
}

impl<'a, 'b> CloseValue for &'b &'a str {
    type Closed = &'a str;

    open spec fn closes_to(self, closed: &'a str) -> bool {
        closed == *self
    }

    fn close(self) -> &'a str {
        *self
    }
}

impl<'a> CloseValue for &'a Arc<String> {
    type Closed = Arc<String>;

    open spec fn closes_to(self, closed: Arc<String>) -> bool {
        closed == *self
    }

    fn close(self) -> Arc<String> {
        self.clone()
    }
}

impl CloseValue for Arc<String> {
    type Closed = Arc<String>;

    open spec fn closes_to(self, closed: Arc<String>) -> bool {
        closed == self
    }

    fn close(self) -> Arc<String> {
        self
    }
}

impl<'a, T: ToOwned + ?Sized> CloseValue for Cow<'a, T> {
    type Closed = Cow<'a, T>;

    open spec fn closes_to(self, closed: Cow<'a, T>) -> bool {
        closed == self
    }

    fn close(self) -> Cow<'a, T> {
        self
    }
}

impl<'a, T, C> CloseValue for &'a Arc<T> where T: CloseValueRef<Closed = C> {
    type Closed = C;

    open spec fn closes_to(self, closed: C) -> bool {
        (**self).ref_closes_to(closed)
    }

    fn close(self) -> C {
        T::close_ref(self)
    }
}

impl<T, C> CloseValue for Arc<T> where T: CloseValueRef<Closed = C> {
    type Closed = C;

    open spec fn closes_to(self, closed: C) -> bool {
        (*self).ref_closes_to(closed)
    }

    fn close(self) -> C {
        T::close_ref(&self)
    }
}

impl<T: CloseValue> CloseValue for Option<T> {
    type Closed = Option<T::Closed>;

    open spec fn closes_to(self, closed: Option<T::Closed>) -> bool {
        match (self, closed) {
            (Some(v), Some(c)) => v.closes_to(c),
            (None, None) => true,
            _ => false,
        }
    }

    fn close(self) -> Option<T::Closed> {
        match self {
            Some(v) => Some(v.close()),
            None => None,
        }
    }
}

impl<'a, T> CloseValue for &'a Option<T> where T: CloseValueRef {
    type Closed = Option<T::Closed>;

    open spec fn closes_to(self, closed: Option<T::Closed>) -> bool {
        match (*self, closed) {
            (Some(v), Some(c)) => v.ref_closes_to(c),
            (None, None) => true,
            _ => false,
        }
    }

    fn close(self) -> Option<T::Closed> {
        match self {
            Some(v) => Some(v.close_ref()),
            None => None,
        }
    }
}

/// The dimensions stay, the value is closed. There is no way to close by reference, which would
/// have to copy the dimensions.
impl<T: CloseValue, const N: usize> CloseValue for WithDimensions<T, N> {
    type Closed = WithDimensions<T::Closed, N>;

    open spec fn closes_to(self, closed: WithDimensions<T::Closed, N>) -> bool {
        self.inner().closes_to(closed.inner()) && closed.dimensions() == self.dimensions()
    }

    fn close(self) -> WithDimensions<T::Closed, N> {
        self.map_value(T::close)
    }
}

impl<T: CloseValue, F: FlagConstructor> CloseValue for ForceFlag<T, F> {
    type Closed = ForceFlag<T::Closed, F>;

    open spec fn closes_to(self, closed: ForceFlag<T::Closed, F>) -> bool {
        self.inner().closes_to(closed.inner())
    }

    fn close(self) -> ForceFlag<T::Closed, F> {
        self.map_value(T::close)
    }
}

impl<'a, T: CloseValueRef, F: FlagConstructor> CloseValue for &'a ForceFlag<T, F> {
    type Closed = ForceFlag<T::Closed, F>;

    open spec fn closes_to(self, closed: ForceFlag<T::Closed, F>) -> bool {
        self.inner().ref_closes_to(closed.inner())
    }

    fn close(self) -> ForceFlag<T::Closed, F> {
        self.map_value_ref(T::close_ref)
    }
}

/// A value that is set at most once, which Verus sees as opaque.
#[verifier::external_type_specification]
#[verifier::external_body]
#[verifier::reject_recursive_types(T)]
pub struct ExOnceLock<T>(OnceLock<T>);

/// A value behind a lock, which Verus sees as opaque.
#[verifier::external_type_specification]
#[verifier::external_body]
#[verifier::reject_recursive_types(T)]
pub struct ExMutex<T: ?Sized>(Mutex<T>);

/// A held lock, which Verus sees as opaque.
#[verifier::external_type_specification]
#[verifier::external_body]
#[verifier::reject_recursive_types(T)]
pub struct ExMutexGuard<'a, T: ?Sized + 'a>(MutexGuard<'a, T>);

/// Calls [`OnceLock::get`]. Whether there is a value, and which, is left unsaid: another thread
/// may set it at any time before.
#[verifier::external_body]
fn once_value<T>(lock: &OnceLock<T>) -> (r: Option<&T>) {
    lock.get()
}

/// Calls [`OnceLock::into_inner`]. Whether there is a value, and which, is left unsaid, as for
/// [`once_value`].
#[verifier::external_body]
fn once_into_value<T>(lock: OnceLock<T>) -> (r: Option<T>) {
    lock.into_inner()
}

/// Calls [`Mutex::lock`], with nothing for a poisoned lock. Whether it is poisoned is left unsaid:
/// that depends on the threads that held it. The call does not return normally where the calling
/// thread already holds the lock, which no condition on the lock's value can rule out.
#[verifier::external_body]
fn lock_unpoisoned<T>(lock: &Mutex<T>) -> (r: Option<MutexGuard<'_, T>>) {
    lock.lock().ok()
}

/// Dereferences a [`MutexGuard`]. Which value it guards is left unsaid: that depends on the
/// threads that held the lock before.
#[verifier::external_body]
fn guarded<'b, T>(guard: &'b MutexGuard<'_, T>) -> (r: &'b T) {
    &**guard
}

/// Closes by reference the value that a cell turned out to hold, if any.
pub fn close_held<T: CloseValueRef>(held: Option<&T>) -> (closed: Option<T::Closed>)
    ensures
        match (held, closed) {
            (Some(v), Some(c)) => v.ref_closes_to(c),
            (None, None) => true,
            _ => false,
        },
{
    match held {
        Some(v) => Some(T::close_ref(v)),
        None => None,
    }
}

/// Whether looking into a cell may find `held`.
pub closed spec fn looks_into<T>(cell: &OnceLock<T>, held: Option<&T>) -> bool {
    call_ensures(once_value::<T>, (cell,), held)
}

/// Whether taking a cell apart may find `held`.
pub closed spec fn takes_apart<T>(cell: OnceLock<T>, held: Option<T>) -> bool {
    call_ensures(once_into_value::<T>, (cell,), held)
}

/// Whether acquiring a lock may give `acquired`. It gives nothing where the lock is poisoned.
pub closed spec fn acquires<T>(lock: &Mutex<T>, acquired: Option<MutexGuard<T>>) -> bool {
    call_ensures(lock_unpoisoned::<T>, (lock,), acquired)
}

/// Whether `value` may be what is found behind a guard.
pub closed spec fn guards<T>(guard: &MutexGuard<T>, value: &T) -> bool {
    call_ensures(guarded::<T>, (guard,), value)
}

/// Whether closing, by reference, a value that may not be there may produce `closed`: something if
/// and only if it is there.
pub open spec fn held_closes_to<T: CloseValueRef>(held: Option<&T>, closed: Option<T::Closed>) -> bool {
    match (held, closed) {
        (Some(v), Some(c)) => v.ref_closes_to(c),
        (None, None) => true,
        _ => false,
    }
}

/// Produces nothing while the cell is empty; otherwise closes the value that it holds.
impl<'a, T, C> CloseValue for &'a OnceLock<T> where T: CloseValueRef<Closed = C> {
    type Closed = Option<C>;

    open spec fn closes_to(self, closed: Option<C>) -> bool {
        exists|held: Option<&T>| #[trigger] looks_into(self, held) && held_closes_to(held, closed)
    }

    fn close(self) -> Option<C> {
        let held = once_value(self);
        assert(looks_into(self, held));
        close_held(held)
    }
}

/// Produces nothing if the cell is empty; otherwise closes the value that it holds.
impl<T: CloseValue> CloseValue for OnceLock<T> {
    type Closed = Option<T::Closed>;

    open spec fn closes_to(self, closed: Option<T::Closed>) -> bool {
        exists|held: Option<T>| #[trigger] takes_apart(self, held) && held.closes_to(closed)
    }

    fn close(self) -> Option<T::Closed> {
        let held = once_into_value(self);
        assert(takes_apart(self, held));
        held.close()
    }
}

/// Closes the guarded value.
impl<'a, 'b, T, C> CloseValue for &'b MutexGuard<'a, T> where T: CloseValueRef<Closed = C> {
    type Closed = C;

    open spec fn closes_to(self, closed: C) -> bool {
        exists|value: &T| #[trigger] guards(self, value) && value.ref_closes_to(closed)
    }

    fn close(self) -> C {
        let value = guarded(self);
        assert(guards(self, value));
        T::close_ref(value)
    }
}

/// Closes the guarded value.
impl<'a, T, C> CloseValue for MutexGuard<'a, T> where T: CloseValueRef<Closed = C> {
    type Closed = C;

    open spec fn closes_to(self, closed: C) -> bool {
        exists|value: &T| #[trigger] guards(&self, value) && value.ref_closes_to(closed)
    }

    fn close(self) -> C {
        let value = guarded(&self);
        assert(guards(&self, value));
        T::close_ref(value)
    }
}

/// Produces nothing if the lock is poisoned; otherwise closes the value that it guards.
impl<'a, T, C> CloseValue for &'a Mutex<T> where T: CloseValueRef<Closed = C> {
    type Closed = Option<C>;

    open spec fn closes_to(self, closed: Option<C>) -> bool {
        exists|acquired: Option<MutexGuard<T>>|
            #[trigger] acquires(self, acquired) && acquired.closes_to(closed)
    }

    fn close(self) -> Option<C> {
        let acquired = lock_unpoisoned(self);
        assert(acquires(self, acquired));
        acquired.close()
    }
}

/// As for a reference to the lock.
impl<T, C> CloseValue for Mutex<T> where T: CloseValueRef<Closed = C> {
    type Closed = Option<C>;

    open spec fn closes_to(self, closed: Option<C>) -> bool {
        exists|acquired: Option<MutexGuard<T>>|
            #[trigger] acquires(&self, acquired) && acquired.closes_to(closed)
    }

    fn close(self) -> Option<C> {
        self.close_ref()
    }
}

/// Whether `closed` is what closing some value of type `T` by reference may produce.
pub open spec fn closed_from_some<T: CloseValueRef>(closed: T::Closed) -> bool {
    exists|v: T| #[trigger] v.ref_closes_to(closed)
}

/// Closing a lock, by value or by reference, gives nothing only if acquiring the lock gave nothing,
/// as it does where the lock is poisoned. It gives something only if the lock was acquired, and
/// that is what closing the value behind the guard gives.
pub proof fn locks_close_to_what_they_guard<T: CloseValueRef>(
    lock: Mutex<T>,
    closed: Option<T::Closed>,
)
    requires
        call_ensures(<Mutex<T> as CloseValue>::close, (lock,), closed) || call_ensures(
            <&Mutex<T> as CloseValue>::close,
            (&lock,),
            closed,
        ),
    ensures
        closed is None ==> acquires(&lock, None),
        closed matches Some(c) ==> exists|guard: MutexGuard<T>, value: &T|
            #[trigger] acquires(&lock, Some(guard)) && #[trigger] guards(&guard, value)
                && value.ref_closes_to(c),
        closed matches Some(c) ==> closed_from_some::<T>(c),
{
    let acquired = choose|acquired: Option<MutexGuard<T>>|
        #[trigger] acquires(&lock, acquired) && acquired.closes_to(closed);
    if closed is Some {
        let guard = acquired->0;
        let value = choose|value: &T|
            #[trigger] guards(&guard, value) && value.ref_closes_to(closed->0);
        assert(acquires(&lock, Some(guard)) && guards(&guard, value));
    }
}

/// [`locks_close_to_what_they_guard`], over the calls themselves.
proof fn closing_a_lock_locks_it<T: CloseValueRef>(lock: Mutex<T>, closed: Option<T::Closed>)
    requires
        call_ensures(<Mutex<T> as CloseValue>::close, (lock,), closed) || call_ensures(
            <&Mutex<T> as CloseValue>::close,
            (&lock,),
            closed,
        ),
    ensures
        closed is None ==> call_ensures(lock_unpoisoned::<T>, (&lock,), None),
        closed matches Some(c) ==> exists|guard: MutexGuard<T>, value: &T|
            #[trigger] call_ensures(lock_unpoisoned::<T>, (&lock,), Some(guard))
                && #[trigger] call_ensures(guarded::<T>, (&guard,), value)
                && value.ref_closes_to(c),
{
    locks_close_to_what_they_guard(lock, closed);
    if closed is Some {
        let (guard, value) = choose|guard: MutexGuard<T>, value: &T|
            #[trigger] acquires(&lock, Some(guard)) && #[trigger] guards(&guard, value)
                && value.ref_closes_to(closed->0);
        assert(call_ensures(lock_unpoisoned::<T>, (&lock,), Some(guard)));
        assert(call_ensures(guarded::<T>, (&guard,), value));
    }
}

/// Closing a held lock, by value or by reference, gives what closing the value behind it gives.
pub proof fn held_locks_close_to_what_they_guard<T: CloseValueRef>(
    guard: MutexGuard<T>,
    closed: T::Closed,
)
    requires
        call_ensures(<MutexGuard<T> as CloseValue>::close, (guard,), closed) || call_ensures(
            <&MutexGuard<T> as CloseValue>::close,
            (&guard,),
            closed,
        ),
    ensures
        exists|value: &T| #[trigger] guards(&guard, value) && value.ref_closes_to(closed),
        closed_from_some::<T>(closed),
{
    let value = choose|value: &T|
        #[trigger] guards(&guard, value) && value.ref_closes_to(closed);
    assert(value.ref_closes_to(closed));
}

/// [`held_locks_close_to_what_they_guard`], over the calls themselves.
proof fn closing_a_guard_looks_behind_it<T: CloseValueRef>(guard: MutexGuard<T>, closed: T::Closed)
    requires
        call_ensures(<MutexGuard<T> as CloseValue>::close, (guard,), closed) || call_ensures(
            <&MutexGuard<T> as CloseValue>::close,
            (&guard,),
            closed,
        ),
    ensures
        exists|value: &T|
            #[trigger] call_ensures(guarded::<T>, (&guard,), value) && value.ref_closes_to(closed),
{
    let value = choose|value: &T|
        #[trigger] guards(&guard, value) && value.ref_closes_to(closed);
    assert(call_ensures(guarded::<T>, (&guard,), value));
}

/// Closing a cell by reference gives nothing if and only if looking into it found nothing.
/// Otherwise it gives what closing the value that was found gives.
pub proof fn cells_close_to_what_they_hold<T: CloseValueRef>(
    cell: &OnceLock<T>,
    closed: Option<T::Closed>,
)
    requires
        call_ensures(<&OnceLock<T> as CloseValue>::close, (cell,), closed),
    ensures
        closed is None ==> looks_into(cell, None),
        closed matches Some(c) ==> exists|value: &T|
            #[trigger] looks_into(cell, Some(value)) && value.ref_closes_to(c),
        closed matches Some(c) ==> closed_from_some::<T>(c),
{
    let held = choose|held: Option<&T>|
        #[trigger] looks_into(cell, held) && held_closes_to(held, closed);
    if closed is Some {
        let value = held->0;
        assert(looks_into(cell, Some(value)) && value.ref_closes_to(closed->0));
    }
}

/// [`cells_close_to_what_they_hold`], over the calls themselves.
proof fn closing_a_cell_looks_into_it<T: CloseValueRef>(
    cell: &OnceLock<T>,
    closed: Option<T::Closed>,
)
    requires
        call_ensures(<&OnceLock<T> as CloseValue>::close, (cell,), closed),
    ensures
        closed is None ==> call_ensures(once_value::<T>, (cell,), None),
        closed matches Some(c) ==> exists|value: &T|
            #[trigger] call_ensures(once_value::<T>, (cell,), Some(value)) && value.ref_closes_to(c),
{
    cells_close_to_what_they_hold(cell, closed);
    if closed is Some {
        let value = choose|value: &T|
            #[trigger] looks_into(cell, Some(value)) && value.ref_closes_to(closed->0);
        assert(call_ensures(once_value::<T>, (cell,), Some(value)));
    }
}

/// Closing a cell by value gives nothing if and only if taking it apart found nothing. Otherwise it
/// gives what closing the value that was found gives.
pub proof fn owned_cells_close_to_what_they_hold<T: CloseValue>(
    cell: OnceLock<T>,
    closed: Option<T::Closed>,
)
    requires
        call_ensures(<OnceLock<T> as CloseValue>::close, (cell,), closed),
    ensures
        closed is None ==> takes_apart(cell, None),
        closed matches Some(c) ==> exists|value: T|
            #[trigger] takes_apart(cell, Some(value)) && value.closes_to(c),
{
    let held = choose|held: Option<T>|
        #[trigger] takes_apart(cell, held) && held.closes_to(closed);
    if closed is Some {
        let value = held->0;
        assert(takes_apart(cell, Some(value)) && value.closes_to(closed->0));
    }
}

/// [`owned_cells_close_to_what_they_hold`], over the calls themselves.
proof fn closing_a_cell_takes_it_apart<T: CloseValue>(cell: OnceLock<T>, closed: Option<T::Closed>)
    requires
        call_ensures(<OnceLock<T> as CloseValue>::close, (cell,), closed),
    ensures
        closed is None ==> call_ensures(once_into_value::<T>, (cell,), None),
        closed matches Some(c) ==> exists|value: T|
            #[trigger] call_ensures(once_into_value::<T>, (cell,), Some(value))
                && value.closes_to(c),
{
    owned_cells_close_to_what_they_hold(cell, closed);
    if closed is Some {
        let value = choose|value: T|
            #[trigger] takes_apart(cell, Some(value)) && value.closes_to(closed->0);
        assert(call_ensures(once_into_value::<T>, (cell,), Some(value)));
    }
}

/// Plain values close to themselves, by value and by reference.
pub proof fn plain_values_close_to_themselves(
    b: bool,
    n8: u8,
    n16: u16,
    n32: u32,
    n64: u64,
    n: usize,
    duration: Duration,
    time: SystemTime,
)
    ensures
        forall|c: bool| #[trigger] call_ensures(bool::close, (b,), c) ==> c == b,
        forall|c: bool| #[trigger] call_ensures(<&bool>::close, (&b,), c) ==> c == b,
        forall|c: u8| #[trigger] call_ensures(u8::close, (n8,), c) ==> c == n8,
        forall|c: u8| #[trigger] call_ensures(<&u8>::close, (&n8,), c) ==> c == n8,
        forall|c: u16| #[trigger] call_ensures(u16::close, (n16,), c) ==> c == n16,
        forall|c: u16| #[trigger] call_ensures(<&u16>::close, (&n16,), c) ==> c == n16,
        forall|c: u32| #[trigger] call_ensures(u32::close, (n32,), c) ==> c == n32,
        forall|c: u32| #[trigger] call_ensures(<&u32>::close, (&n32,), c) ==> c == n32,
        forall|c: u64| #[trigger] call_ensures(u64::close, (n64,), c) ==> c == n64,
        forall|c: u64| #[trigger] call_ensures(<&u64>::close, (&n64,), c) ==> c == n64,
        forall|c: usize| #[trigger] call_ensures(usize::close, (n,), c) ==> c == n,
        forall|c: usize| #[trigger] call_ensures(<&usize>::close, (&n,), c) ==> c == n,
        forall|c: Duration| #[trigger] call_ensures(Duration::close, (duration,), c) ==> c == duration,
        forall|c: Duration|
            #[trigger] call_ensures(<&Duration>::close, (&duration,), c) ==> c == duration,
        forall|c: SystemTime| #[trigger] call_ensures(SystemTime::close, (time,), c) ==> c == time,
        forall|c: SystemTime| #[trigger] call_ensures(<&SystemTime>::close, (&time,), c) ==> c == time,
{
}

/// Texts close to themselves.
pub proof fn texts_close_to_themselves<'a>(
    string: String,
    text: &'a str,
    shared: Arc<String>,
    cow: Cow<'a, str>,
)
    ensures
        forall|c: String| #[trigger] call_ensures(String::close, (string,), c) ==> c@ == string@,
        forall|c: &str| #[trigger] call_ensures(<&str>::close, (text,), c) ==> c@ == text@,
        forall|c: &str| #[trigger] call_ensures(<&&str>::close, (&text,), c) ==> c@ == text@,
        forall|c: Arc<String>|
            #[trigger] call_ensures(Arc::<String>::close, (shared,), c) ==> (*c)@ == (*shared)@,
        forall|c: Arc<String>|
            #[trigger] call_ensures(<&Arc<String>>::close, (&shared,), c) ==> (*c)@ == (*shared)@,
        forall|c: Cow<'a, str>| #[trigger] call_ensures(Cow::<'a, str>::close, (cow,), c) ==> c@ == cow@,
{
}

/// An optional value closes to nothing if and only if it is not there, and else to what it closes
/// to.
pub proof fn options_close_inside<T: CloseValue, R: CloseValueRef>(
    value: Option<T>,
    closed: Option<T::Closed>,
    borrowed: Option<R>,
    closed_ref: Option<R::Closed>,
)
    requires
        call_ensures(<Option<T> as CloseValue>::close, (value,), closed),
        call_ensures(<&Option<R> as CloseValue>::close, (&borrowed,), closed_ref),
    ensures
        closed is Some <==> value is Some,
        value is Some ==> value->0.closes_to(closed->0),
        closed_ref is Some <==> borrowed is Some,
        borrowed is Some ==> borrowed->0.ref_closes_to(closed_ref->0),
{
}

/// A shared value closes to what closing it by reference gives.
pub proof fn shared_values_close_by_reference<T: CloseValueRef>(
    value: Arc<T>,
    closed: T::Closed,
)
    requires
        call_ensures(<Arc<T> as CloseValue>::close, (value,), closed) || call_ensures(
            <&Arc<T> as CloseValue>::close,
            (&value,),
            closed,
        ),
    ensures
        (*value).ref_closes_to(closed),
{
}

/// Closing by reference is closing the reference.
pub proof fn closing_by_reference_closes_the_reference<C, T>(value: T, closed: C) where
    for <'a>&'a T: CloseValue<Closed = C>,

    requires
        call_ensures(<T as CloseValueRef>::close_ref, (&value,), closed),
    ensures
        (&value).closes_to(closed),
{
}

/// Closing keeps dimensions, and closes the value that carries them.
pub proof fn closing_keeps_dimensions<T: CloseValue, const N: usize>(
    value: WithDimensions<T, N>,
    closed: WithDimensions<T::Closed, N>,
)
    requires
        call_ensures(<WithDimensions<T, N> as CloseValue>::close, (value,), closed),
    ensures
        value.inner().closes_to(closed.inner()),
        closed.dimensions() == value.dimensions(),
{
}

/// Closing a value with a forced flag closes the value.
pub proof fn closing_keeps_flags<T: CloseValue, R: CloseValueRef, F: FlagConstructor>(
    value: ForceFlag<T, F>,
    closed: ForceFlag<T::Closed, F>,
    borrowed: ForceFlag<R, F>,
    closed_ref: ForceFlag<R::Closed, F>,
)
    requires
        call_ensures(<ForceFlag<T, F> as CloseValue>::close, (value,), closed),
        call_ensures(<&ForceFlag<R, F> as CloseValue>::close, (&borrowed,), closed_ref),
    ensures
        value.inner().closes_to(closed.inner()),
        borrowed.inner().ref_closes_to(closed_ref.inner()),
{
}

} // verus!
