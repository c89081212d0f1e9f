//! The steps of creating, and optionally playing, an event instance. The
//! caller performs each step against the middleware and reports its
//! outcome; the first failure ends the sequence, so no step runs after it.

use vstd::prelude::*;

use crate::error::Error;
use crate::space::Attributes3d;

verus! {

/// What the caller does next.
#[derive(Debug, Clone, Copy, PartialEq, Eq, Structural)]
pub enum PlayStep {
    /// Look up the event description by path.
    GetEvent,
    /// Create an instance of that description.
    CreateInstance,
    /// Set the instance's 3D attributes.
    SetAttributes(Attributes3d),
    /// Start the instance.
    Start,
    /// Mark the instance for release once it stops.
    MarkForRelease,
    /// Nothing: the sequence is over.
    Done,
}

/// A sequence that creates an instance and, when `play` is set, gives it
/// `attributes` (if any), starts it and marks it for release.
pub struct PlayEvent {
    play: bool,
    attributes: Option<Attributes3d>,
    step: PlayStep,
    failure: Option<Error>,
}

/// The step that follows `step` when it succeeded.
pub open spec fn step_after(step: PlayStep, play: bool, attributes: Option<Attributes3d>) -> PlayStep {
    match step {
        PlayStep::GetEvent => PlayStep::CreateInstance,
        PlayStep::CreateInstance => if !play {
            PlayStep::Done
        } else {
            match attributes {
                Some(a) => PlayStep::SetAttributes(a),
                None => PlayStep::Start,
            }
        },
        PlayStep::SetAttributes(_) => PlayStep::Start,
        PlayStep::Start => PlayStep::MarkForRelease,
        PlayStep::MarkForRelease => PlayStep::Done,
        PlayStep::Done => PlayStep::Done,
    }
}

impl PlayEvent {
    /// The next step.
    pub closed spec fn step_spec(&self) -> PlayStep {
        self.step
    }

    /// Whether the instance is started and released after it is created.
    pub closed spec fn play_spec(&self) -> bool {
        self.play
    }

    /// The attributes the instance is given before it starts.
    pub closed spec fn attributes_spec(&self) -> Option<Attributes3d> {
        self.attributes
    }

    /// The failure that ended the sequence, if one did.
    pub closed spec fn failure_spec(&self) -> Option<Error> {
        self.failure
    }

    /// Creates an instance and leaves it alone.
    pub fn create_only() -> (p: PlayEvent)
        ensures
            p.step_spec() == PlayStep::GetEvent,
            !p.play_spec(),
            p.failure_spec() is None,
    {
        PlayEvent { play: false, attributes: None, step: PlayStep::GetEvent, failure: None }
    }

    /// Creates an instance, gives it `attributes` if there are any, starts
    /// it and marks it for release.
    pub fn play(attributes: Option<Attributes3d>) -> (p: PlayEvent)
        ensures
            p.step_spec() == PlayStep::GetEvent,
            p.play_spec(),
            p.attributes_spec() == attributes,
            p.failure_spec() is None,
    {
        PlayEvent { play: true, attributes, step: PlayStep::GetEvent, failure: None }
    }

    /// The next step.
    pub fn next_step(&self) -> (s: PlayStep)
        ensures
            s == self.step_spec(),
    {
        self.step
    }

    /// Reports the outcome of the current step. A failure ends the sequence.
    pub fn step_done(&mut self, outcome: Result<(), Error>)
        requires
            old(self).step_spec() != PlayStep::Done,
        ensures
            final(self).play_spec() == old(self).play_spec(),
            final(self).attributes_spec() == old(self).attributes_spec(),
            outcome is Ok ==> final(self).step_spec() == step_after(
                old(self).step_spec(),
                old(self).play_spec(),
                old(self).attributes_spec(),
            ) && final(self).failure_spec() == old(self).failure_spec(),
            outcome matches Err(e) ==> final(self).step_spec() == PlayStep::Done
                && final(self).failure_spec() == Some(e),
    {
        match outcome {
            Ok(()) => {
                self.step = match self.step {
                    PlayStep::GetEvent => PlayStep::CreateInstance,
                    PlayStep::CreateInstance => if !self.play {
                        PlayStep::Done
                    } else {
                        match self.attributes {
                            Some(a) => PlayStep::SetAttributes(a),
                            None => PlayStep::Start,
                        }
                    },
                    PlayStep::SetAttributes(_) => PlayStep::Start,
                    PlayStep::Start => PlayStep::MarkForRelease,
                    PlayStep::MarkForRelease => PlayStep::Done,
                    PlayStep::Done => PlayStep::Done,
                };
            },
            Err(e) => {
                self.step = PlayStep::Done;
                self.failure = Some(e);
            },
        }
    }

    /// Ends the sequence: the failure that ended it, if one did.
    pub fn into_failure(self) -> (f: Option<Error>)
        ensures
            f == self.failure_spec(),
    {
        self.failure
    }
}

} // verus!
