//! What can go wrong, each with a message for people.

use vstd::prelude::*;

verus! {

/// An error of the daemon.
#[derive(Debug)]
pub enum WayclipError {
    /// The ring buffer cannot serve a request.
    Ring(String),
    /// A clip or its preview cannot be written.
    Remux(String),
    /// The audio server cannot be reached.
    Pipewire(String),
    /// The active window cannot be told.
    Discovery(String),
    /// An audio device or its pipeline is missing.
    Audio(String),
    /// The screen cannot be shared.
    Screencast(String),
    /// The video pipeline cannot be built.
    Video(String),
    /// The capture pipeline cannot be watched.
    Watcher(String),
    /// A helper program failed.
    CLI(String),
    /// A value or a state is not the expected one.
    Validation(String),
    /// Something that is needed does not exist.
    NotFound(String),
    /// The system refused an operation.
    Io(String),
    /// A description in JSON cannot be read.
    Json(String),
}

} // verus!
