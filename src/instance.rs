//! Rules of the event-instance surface that do not depend on the backend.

use vstd::prelude::*;

use crate::kinds::StopMode;

verus! {

/// The timeline position, in milliseconds, as the middleware takes it. The
/// surface counts milliseconds unsigned, but the middleware's range is that
/// of `i32`.
pub fn timeline_to_raw(position: u32) -> (raw: i32)
    requires
        position <= i32::MAX,
    ensures
        raw == position,
{
    position as i32
}

/// The timeline position, in milliseconds, as the middleware reports it.
pub fn timeline_from_raw(raw: i32) -> (position: u32)
    ensures
        position == raw as u32,
        raw >= 0 ==> position == raw,
{
    raw as u32
}

/// The number of live instances of an event, as the middleware reports it.
pub fn instance_count_from_raw(raw: i32) -> (count: u32)
    ensures
        count == raw as u32,
        raw >= 0 ==> count == raw,
{
    raw as u32
}

/// Whether an event with `count` live instances is playing at all.
pub fn is_playing(count: u32) -> (b: bool)
    ensures
        b <==> count > 0,
{
    count > 0
}

/// The stop mode for a stop that fades out, or for one that is immediate.
pub fn stop_mode(immediately: bool) -> (m: StopMode)
    ensures
        immediately ==> m == StopMode::Immediate,
        !immediately ==> m == StopMode::AllowFadeout,
{
    if immediately {
        StopMode::Immediate
    } else {
        StopMode::AllowFadeout
    }
}

} // verus!
