//! Durations and points in time of the standard library.
//!
//! A [`Duration`] is modelled by its length in nanoseconds, a [`SystemTime`] by its distance from
//! the Unix epoch in nanoseconds, negative before it.
use std::time::{Duration, SystemTime};
use vstd::prelude::*;

verus! {

/// A point in time, which Verus sees as opaque.
#[verifier::external_type_specification]
#[verifier::external_body]
pub struct ExSystemTime(SystemTime);

/// Nanoseconds in a second.
pub const NANOS_PER_SEC: u64 = 1_000_000_000;

/// The length of a duration, in nanoseconds.
pub uninterp spec fn duration_nanos(duration: Duration) -> nat;

/// The distance of a point in time from the Unix epoch, in nanoseconds.
pub uninterp spec fn epoch_nanos(time: SystemTime) -> int;

/// Calls [`Duration::from_secs`]: a duration of so many whole seconds.
#[verifier::external_body]
pub(crate) fn duration_from_secs(secs: u64) -> (r: Duration)
    ensures
        duration_nanos(r) == secs * NANOS_PER_SEC,
{
    Duration::from_secs(secs)
}

/// Reads [`SystemTime::UNIX_EPOCH`], the point from which the model counts.
#[verifier::external_body]
fn unix_epoch() -> (r: SystemTime)
    ensures
        epoch_nanos(r) == 0,
{
    SystemTime::UNIX_EPOCH
}

/// Calls [`SystemTime::checked_add`]: the time that lies `duration` later, where the platform can
/// represent it. When that is, is left unsaid: it differs between platforms.
#[verifier::external_body]
fn later(time: &SystemTime, duration: Duration) -> (r: Option<SystemTime>)
    requires
        duration_nanos(duration) % (NANOS_PER_SEC as nat) == 0,
    ensures
        r matches Some(t) ==> epoch_nanos(t) == epoch_nanos(*time) + duration_nanos(duration),
{
    time.checked_add(duration)
}

/// Calls [`SystemTime::checked_sub`]: the time that lies `duration` earlier, where the platform
/// can represent it. When that is, is left unsaid: it differs between platforms.
#[verifier::external_body]
fn earlier(time: &SystemTime, duration: Duration) -> (r: Option<SystemTime>)
    requires
        duration_nanos(duration) % (NANOS_PER_SEC as nat) == 0,
    ensures
        r matches Some(t) ==> epoch_nanos(t) == epoch_nanos(*time) - duration_nanos(duration),
{
    time.checked_sub(duration)
}

/// A time, or the epoch where the platform has none to give.
pub fn or_epoch(time: Option<SystemTime>) -> (r: SystemTime)
    ensures
        match time {
            Some(t) => r == t,
            None => epoch_nanos(r) == 0,
        },
{
    match time {
        Some(t) => t,
        None => unix_epoch(),
    }
}

/// So many seconds since the epoch, negative before it.
pub open spec fn epoch_secs(before_epoch: bool, secs: u64) -> int {
    if before_epoch {
        -(secs as int)
    } else {
        secs as int
    }
}

/// Whether moving from a time by a duration, back or on, may give `moved`. It gives nothing where
/// the platform cannot represent the time.
pub closed spec fn moves(
    back: bool,
    from: SystemTime,
    duration: Duration,
    moved: Option<SystemTime>,
) -> bool {
    if back {
        call_ensures(earlier, (&from, duration), moved)
    } else {
        call_ensures(later, (&from, duration), moved)
    }
}

/// Whether `r` is what moving from the epoch by so many seconds gives, or the epoch where it gives
/// nothing.
pub open spec fn is_so_far_from_epoch(before_epoch: bool, secs: u64, r: SystemTime) -> bool {
    exists|epoch: SystemTime, duration: Duration, moved: Option<SystemTime>|
        {
            &&& epoch_nanos(epoch) == 0
            &&& duration_nanos(duration) == secs * NANOS_PER_SEC
            &&& #[trigger] moves(before_epoch, epoch, duration, moved)
            &&& match moved {
                Some(t) => r == t,
                None => epoch_nanos(r) == 0,
            }
        }
}

/// The time that lies so many seconds before or after the epoch. A time that the platform cannot
/// represent becomes the epoch.
pub fn from_epoch_secs(before_epoch: bool, secs: u64) -> (r: SystemTime)
    ensures
        epoch_nanos(r) == epoch_secs(before_epoch, secs) * NANOS_PER_SEC || epoch_nanos(r) == 0,
        is_so_far_from_epoch(before_epoch, secs, r),
{
    let duration = duration_from_secs(secs);
    proof {
        assert((secs * NANOS_PER_SEC) as nat % (NANOS_PER_SEC as nat) == 0) by {
            vstd::arithmetic::div_mod::lemma_mod_multiples_basic(
                secs as int,
                NANOS_PER_SEC as int,
            );
        }
    }
    let epoch = unix_epoch();
    let moved = if before_epoch {
        earlier(&epoch, duration)
    } else {
        later(&epoch, duration)
    };
    assert(moves(before_epoch, epoch, duration, moved));
    or_epoch(moved)
}

/// The epoch is given in place of another time only where moving from the epoch to that time gave
/// nothing, as it does where the platform cannot represent it.
pub proof fn the_epoch_stands_in_only_where_it_must(before_epoch: bool, secs: u64, r: SystemTime)
    requires
        call_ensures(from_epoch_secs, (before_epoch, secs), r),
    ensures
        epoch_nanos(r) != epoch_secs(before_epoch, secs) * NANOS_PER_SEC ==> exists|
            epoch: SystemTime,
            duration: Duration,
        |
            epoch_nanos(epoch) == 0 && duration_nanos(duration) == secs * NANOS_PER_SEC
                && #[trigger] moves(before_epoch, epoch, duration, None),
{
    let (epoch, duration, moved) = choose|
        epoch: SystemTime,
        duration: Duration,
        moved: Option<SystemTime>,
    |
        {
            &&& epoch_nanos(epoch) == 0
            &&& duration_nanos(duration) == secs * NANOS_PER_SEC
            &&& #[trigger] moves(before_epoch, epoch, duration, moved)
            &&& match moved {
                Some(t) => r == t,
                None => epoch_nanos(r) == 0,
            }
        };
    whole_seconds(secs);
    if let Some(t) = moved {
        moving_goes_so_far(before_epoch, epoch, duration, t);
    }
}

/// So many seconds are whole seconds.
proof fn whole_seconds(secs: u64)
    ensures
        (secs * NANOS_PER_SEC) as nat % (NANOS_PER_SEC as nat) == 0,
{
    vstd::arithmetic::div_mod::lemma_mod_multiples_basic(secs as int, NANOS_PER_SEC as int);
}

/// Moving by whole seconds goes as far as they are.
proof fn moving_goes_so_far(back: bool, from: SystemTime, duration: Duration, to: SystemTime)
    requires
        duration_nanos(duration) % (NANOS_PER_SEC as nat) == 0,
        moves(back, from, duration, Some(to)),
    ensures
        epoch_nanos(to) == if back {
            epoch_nanos(from) - duration_nanos(duration)
        } else {
            epoch_nanos(from) + duration_nanos(duration)
        },
{
}

/// [`the_epoch_stands_in_only_where_it_must`], over the calls themselves.
proof fn the_platform_decides_on_the_epoch(before_epoch: bool, secs: u64, r: SystemTime)
    requires
        call_ensures(from_epoch_secs, (before_epoch, secs), r),
        epoch_nanos(r) != epoch_secs(before_epoch, secs) * NANOS_PER_SEC,
    ensures
        before_epoch ==> exists|epoch: SystemTime, duration: Duration|
            epoch_nanos(epoch) == 0 && duration_nanos(duration) == secs * NANOS_PER_SEC
                && #[trigger] call_ensures(earlier, (&epoch, duration), None),
        !before_epoch ==> exists|epoch: SystemTime, duration: Duration|
            epoch_nanos(epoch) == 0 && duration_nanos(duration) == secs * NANOS_PER_SEC
                && #[trigger] call_ensures(later, (&epoch, duration), None),
{
    the_epoch_stands_in_only_where_it_must(before_epoch, secs, r);
    let (epoch, duration) = choose|epoch: SystemTime, duration: Duration|
        epoch_nanos(epoch) == 0 && duration_nanos(duration) == secs * NANOS_PER_SEC
            && #[trigger] moves(before_epoch, epoch, duration, None);
    assert(moves(before_epoch, epoch, duration, None));
    if before_epoch {
        assert(call_ensures(earlier, (&epoch, duration), None));
    } else {
        assert(call_ensures(later, (&epoch, duration), None));
    }
}

} // verus!
