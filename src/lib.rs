//! Backend-independent core of a small control surface over the FMOD Studio
//! audio middleware: the status-code taxonomy and error values, the constant
//! tables shared with the middleware, the decoding of result envelopes, and
//! the bookkeeping of the engine and its event instances.

pub mod status;
pub mod error;
pub mod kinds;
pub mod flags;
pub mod envelope;
pub mod space;
pub mod load;
pub mod engine;
pub mod instance;
pub mod play;
