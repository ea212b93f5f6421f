//! What can go wrong before and while a session runs.

use vstd::prelude::*;

verus! {

/// An input that is refused before the inference engine is reached.
#[derive(Debug, Clone, Copy, PartialEq, Eq, Structural)]
pub enum ConfigError {
    /// A path or text holds a NUL and cannot be handed to the engine.
    EmbeddedNul,
    /// Audio was offered at another rate than the one the engine was built for.
    SampleRateMismatch,
    /// The paths given belong to more than one model family.
    ConflictingVariant,
    /// No model family was given any path.
    MissingVariant,
}

/// A decode step that the engine could not complete. It costs a session its
/// step and nothing else: decoding goes on with the next.
#[derive(Debug, Clone, Copy, PartialEq, Eq, Structural)]
pub struct DecodeError;

/// Why the inference engine produced no session.
#[derive(Debug, Clone, Copy, PartialEq, Eq, Structural)]
pub enum CreationFailure {
    /// The engine itself could not be instantiated.
    Engine,
    /// The engine stands, but gave no stream.
    Stream,
}

/// Why no session came to be.
#[derive(Debug, Clone, Copy, PartialEq, Eq, Structural)]
pub enum Error {
    /// The inputs were refused by this library.
    Config(ConfigError),
    /// The inference engine could not be instantiated from the configuration.
    EngineCreation,
    /// The inference engine could not allocate a stream.
    StreamCreation,
}

impl Error {
    /// The error that a failed creation is reported as.
    pub open spec fn of_failure(f: CreationFailure) -> Error {
        match f {
            CreationFailure::Engine => Error::EngineCreation,
            CreationFailure::Stream => Error::StreamCreation,
        }
    }

    /// Reports a failed creation.
    pub fn from_failure(f: CreationFailure) -> (e: Error)
        ensures
            e == Error::of_failure(f),
    {
        match f {
            CreationFailure::Engine => Error::EngineCreation,
            CreationFailure::Stream => Error::StreamCreation,
        }
    }
}

} // verus!
