//! Decoding of the result envelopes that bound calls hand back: a status
//! code first, then zero, one or two payload values that only count when the
//! status is success.

use vstd::prelude::*;
use vstd::std_specs::cmp::PartialEqSpec;

use crate::error::{Error, is_status_error, is_value_error};
use crate::kinds::{PlaybackState, playback_state_code};

verus! {

/// The outcome of a call of `function` that reported only `status`.
pub fn check(function: &str, status: i32) -> (r: Result<(), Error>)
    ensures
        status == 0 ==> r is Ok,
        status != 0 ==> (r matches Err(e) && is_status_error(e, function@, status as int)),
{
    if status == 0 {
        Ok(())
    } else {
        Err(Error::from_status(function, status))
    }
}

/// The outcome of a call of `function` that reported `status` and one value.
pub fn check_value<T>(function: &str, status: i32, value: T) -> (r: Result<T, Error>)
    ensures
        status == 0 ==> r == Ok::<T, Error>(value),
        status != 0 ==> (r matches Err(e) && is_status_error(e, function@, status as int)),
{
    if status == 0 {
        Ok(value)
    } else {
        Err(Error::from_status(function, status))
    }
}

/// The outcome of a call of `function` that reported `status` and two values.
pub fn check_pair<A, B>(function: &str, status: i32, first: A, second: B) -> (r: Result<
    (A, B),
    Error,
>)
    ensures
        status == 0 ==> r == Ok::<(A, B), Error>((first, second)),
        status != 0 ==> (r matches Err(e) && is_status_error(e, function@, status as int)),
{
    if status == 0 {
        Ok((first, second))
    } else {
        Err(Error::from_status(function, status))
    }
}

/// The outcome of a call of `function` that reported `status` and a playback
/// state carried as a raw integer, which is re-tagged here.
pub fn check_playback_state(function: &str, status: i32, raw: i32) -> (r: Result<
    PlaybackState,
    Error,
>)
    ensures
        status == 0 && 0 <= raw <= 4 ==> (r matches Ok(s) && playback_state_code(s) == raw),
        status == 0 && !(0 <= raw <= 4) ==> (r matches Err(e) && is_value_error(
            e,
            "FMOD_STUDIO_PLAYBACK_STATE"@,
            raw as int,
        )),
        status != 0 ==> (r matches Err(e) && is_status_error(e, function@, status as int)),
{
    if status == 0 {
        PlaybackState::from_raw(raw)
    } else {
        Err(Error::from_status(function, status))
    }
}

/// Both backends turn a failure of the same operation with the same status
/// into errors that compare equal, whatever message the middleware gave.
pub proof fn lemma_backend_parity(native: Error, interop: Error, function: Seq<char>, code: int)
    requires
        is_status_error(native, function, code),
        is_status_error(interop, function, code),
    ensures
        native.eq_spec(&interop),
{
    if let (Error::Fmod { message: m1, .. }, Error::Fmod { message: m2, .. }) = (native, interop) {
        assert(m1@ =~= m2@);
    }
}

} // verus!
