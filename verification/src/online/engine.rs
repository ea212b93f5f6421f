//! The inference engine, as far as a session needs it.
//!
//! The engine is not part of this library. A type that drives one stands
//! behind these traits; nothing is taken for granted of what its methods
//! return, and each `requires` is a promise of the library to the engine.

use crate::error::{CreationFailure, DecodeError};
use crate::online::session::{MAX_CHUNK, SAMPLE_RATE};
use crate::online::stream::keyword_spotter::KeywordSpotterConfig;
use crate::online::stream::recognizer::RecognizerConfig;
use crate::text::has_nul;
use vstd::prelude::*;

verus! {

/// An engine with its one stream open on it.
pub trait StreamEngine {
    /// One audio sample. The library hands samples on and never looks inside.
    type Sample;

    /// Appends `samples`, `count` of them, to the stream's audio.
    fn accept_waveform(&mut self, sample_rate: i32, samples: Vec<Self::Sample>, count: i32)
        requires
            sample_rate == SAMPLE_RATE,
            samples.len() <= MAX_CHUNK,
            count == samples.len(),
    ;

    /// Whether enough audio is buffered for one decode step.
    fn is_ready(&mut self) -> bool;

    /// Runs one decode step, or fails at it.
    fn decode(&mut self) -> Result<(), DecodeError>;

    /// The text of the stream's current result.
    fn get_result(&mut self) -> String;
}

/// A recognizer engine. It is built first and then asked for its one
/// stream; the methods of a stream are called on it only once it has given
/// one.
pub trait RecognizerEngine: StreamEngine + Sized {
    /// Builds the engine from `config`, with no stream on it yet.
    fn create(config: &RecognizerConfig) -> Option<Self>;

    /// Opens the engine's stream, and tells whether the engine gave one.
    fn open_stream(&mut self) -> bool;

    /// Whether the stream stands at the end of an utterance.
    fn is_endpoint(&mut self) -> bool;

    /// Clears the stream's decoding state and result.
    fn reset(&mut self);
}

/// A keyword spotter engine. It is built first and then asked for its one
/// stream; the methods of a stream are called on it only once it has given
/// one.
pub trait KeywordEngine: StreamEngine + Sized {
    /// Builds the engine from `config`, with no stream on it yet.
    fn create(config: &KeywordSpotterConfig) -> Option<Self>;

    /// Opens the engine's stream, and tells whether the engine gave one.
    /// With `keywords` the stream listens for those in place of the file's.
    fn open_stream(&mut self, keywords: Option<&str>) -> bool
        requires
            keywords is Some ==> !has_nul(keywords->Some_0@),
    ;
}

/// What is made of an engine that was asked for its stream: the engine, if
/// it gave one. An engine that gave none is let go, which releases it.
pub fn started<E>(engine: E, opened: bool) -> (made: Result<E, CreationFailure>)
    ensures
        made == (if opened {
            Ok::<E, CreationFailure>(engine)
        } else {
            Err::<E, CreationFailure>(CreationFailure::Stream)
        }),
{
    if opened {
        Ok(engine)
    } else {
        Err(CreationFailure::Stream)
    }
}

} // verus!
