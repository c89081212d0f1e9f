use vstd::prelude::*;

use crate::error::{Error, is_value_error};

verus! {

/// The lifetime state of an event instance.
#[derive(Debug, PartialEq, Eq, PartialOrd, Ord, Clone, Copy, Hash, Structural)]
pub enum PlaybackState {
    /// Currently playing, though it may be paused.
    Playing,
    /// The timeline cursor is paused on a sustain point.
    Sustaining,
    /// Stopped.
    Stopped,
    /// Preparing to start.
    Starting,
    /// Preparing to stop.
    Stopping,
}

/// A built-in property of an event instance.
#[derive(Debug, Clone, Copy, PartialEq, Eq, Structural)]
pub enum EventProperty {
    /// Priority of the core channels the instance creates, or -1 for the default.
    ChannelPriority,
    /// Schedule delay in DSP clocks, or -1 for the default.
    ScheduleDelay,
    /// Look-ahead on the timeline in DSP clocks, or -1 for the default.
    ScheduleLookahead,
    /// Override of the 3D minimum distance, or -1 for the default.
    MinimumDistance,
    /// Override of the 3D maximum distance, or -1 for the default.
    MaximumDistance,
    /// Override of the cooldown, or -1 for the default.
    Cooldown,
}

/// How an event instance is stopped.
#[derive(Debug, Clone, Copy, PartialEq, Eq, Structural)]
pub enum StopMode {
    /// Let modulators finish their release and effect tails play out.
    AllowFadeout,
    /// Stop at once.
    Immediate,
}

/// The middleware's published value of each playback state.
pub open spec fn playback_state_code(s: PlaybackState) -> int {
    match s {
        PlaybackState::Playing => 0,
        PlaybackState::Sustaining => 1,
        PlaybackState::Stopped => 2,
        PlaybackState::Starting => 3,
        PlaybackState::Stopping => 4,
    }
}

/// The middleware's published index of each event property.
pub open spec fn event_property_code(p: EventProperty) -> int {
    match p {
        EventProperty::ChannelPriority => 0,
        EventProperty::ScheduleDelay => 1,
        EventProperty::ScheduleLookahead => 2,
        EventProperty::MinimumDistance => 3,
        EventProperty::MaximumDistance => 4,
        EventProperty::Cooldown => 5,
    }
}

/// The middleware's published value of each stop mode.
pub open spec fn stop_mode_code(m: StopMode) -> int {
    match m {
        StopMode::AllowFadeout => 0,
        StopMode::Immediate => 1,
    }
}

impl PlaybackState {
    /// The raw value that crosses the binding.
    pub fn to_raw(self) -> (c: i32)
        ensures
            c == playback_state_code(self),
    {
        match self {
            PlaybackState::Playing => 0,
            PlaybackState::Sustaining => 1,
            PlaybackState::Stopped => 2,
            PlaybackState::Starting => 3,
            PlaybackState::Stopping => 4,
        }
    }

    /// Re-tags a raw value; one that names no state is an error.
    pub fn from_raw(raw: i32) -> (r: Result<PlaybackState, Error>)
        ensures
            0 <= raw <= 4 ==> (r matches Ok(s) && playback_state_code(s) == raw),
            !(0 <= raw <= 4) ==> (r matches Err(e) && is_value_error(
                e,
                "FMOD_STUDIO_PLAYBACK_STATE"@,
                raw as int,
            )),
    {
        match raw {
            0 => Ok(PlaybackState::Playing),
            1 => Ok(PlaybackState::Sustaining),
            2 => Ok(PlaybackState::Stopped),
            3 => Ok(PlaybackState::Starting),
            4 => Ok(PlaybackState::Stopping),
            _ => Err(Error::unexpected_value("FMOD_STUDIO_PLAYBACK_STATE", raw)),
        }
    }
}

impl EventProperty {
    /// The raw index that crosses the binding.
    pub fn to_raw(self) -> (c: i32)
        ensures
            c == event_property_code(self),
    {
        match self {
            EventProperty::ChannelPriority => 0,
            EventProperty::ScheduleDelay => 1,
            EventProperty::ScheduleLookahead => 2,
            EventProperty::MinimumDistance => 3,
            EventProperty::MaximumDistance => 4,
            EventProperty::Cooldown => 5,
        }
    }

    /// Re-tags a raw index; one that names no property is an error.
    pub fn from_raw(raw: i32) -> (r: Result<EventProperty, Error>)
        ensures
            0 <= raw <= 5 ==> (r matches Ok(p) && event_property_code(p) == raw),
            !(0 <= raw <= 5) ==> (r matches Err(e) && is_value_error(
                e,
                "FMOD_STUDIO_EVENT_PROPERTY"@,
                raw as int,
            )),
    {
        match raw {
            0 => Ok(EventProperty::ChannelPriority),
            1 => Ok(EventProperty::ScheduleDelay),
            2 => Ok(EventProperty::ScheduleLookahead),
            3 => Ok(EventProperty::MinimumDistance),
            4 => Ok(EventProperty::MaximumDistance),
            5 => Ok(EventProperty::Cooldown),
            _ => Err(Error::unexpected_value("FMOD_STUDIO_EVENT_PROPERTY", raw)),
        }
    }
}

impl StopMode {
    /// The raw value that crosses the binding.
    pub fn to_raw(self) -> (c: i32)
        ensures
            c == stop_mode_code(self),
    {
        match self {
            StopMode::AllowFadeout => 0,
            StopMode::Immediate => 1,
        }
    }

    /// Re-tags a raw value; one that names no mode is an error.
    pub fn from_raw(raw: i32) -> (r: Result<StopMode, Error>)
        ensures
            0 <= raw <= 1 ==> (r matches Ok(m) && stop_mode_code(m) == raw),
            !(0 <= raw <= 1) ==> (r matches Err(e) && is_value_error(
                e,
                "FMOD_STUDIO_STOP_MODE"@,
                raw as int,
            )),
    {
        match raw {
            0 => Ok(StopMode::AllowFadeout),
            1 => Ok(StopMode::Immediate),
            _ => Err(Error::unexpected_value("FMOD_STUDIO_STOP_MODE", raw)),
        }
    }
}

/// Re-tagging a value that was sent out gives back the same member, for
/// each of the three enumerations that cross the binding as integers.
pub proof fn lemma_raw_round_trip(s: PlaybackState, p: EventProperty, m: StopMode)
    ensures
        0 <= playback_state_code(s) <= 4,
        0 <= event_property_code(p) <= 5,
        0 <= stop_mode_code(m) <= 1,
        forall|t: PlaybackState| playback_state_code(t) == playback_state_code(s) ==> t == s,
        forall|q: EventProperty| event_property_code(q) == event_property_code(p) ==> q == p,
        forall|n: StopMode| stop_mode_code(n) == stop_mode_code(m) ==> n == m,
{
}

} // verus!
