//! A keyword spotter with its calls by name, for callers that drive one
//! session by hand.

use crate::error::{ConfigError, DecodeError, Error};
use crate::online::engine::KeywordEngine;
use crate::online::model::{text_of, ModelBackendView, OnlineModelConfig};
use crate::online::session::{Phase, SessionView};
use crate::online::stream::keyword_spotter::KeywordSpottingStream;
use crate::online::stream::OnlineStream;
use crate::online::transducer::Transducer;
use crate::text::is_white_space;
use vstd::prelude::*;

verus! {

/// A spotter engine and its one session.
pub struct KeywordSpotter<E: KeywordEngine> {
    /// The session, for use with a decode loop.
    pub stream: KeywordSpottingStream<E>,
}

impl<E: KeywordEngine> KeywordSpotter<E> {
    /// The spotter around a stream, or the error that came in its place.
    pub open spec fn lift(r: Result<Self, Error>) -> Result<KeywordSpottingStream<E>, Error> {
        match r {
            Ok(spotter) => Ok(spotter.stream),
            Err(e) => Err(e),
        }
    }

    fn wrap(made: Result<KeywordSpottingStream<E>, Error>) -> (r: Result<Self, Error>)
        ensures
            Self::lift(r) == made,
    {
        match made {
            Ok(stream) => Ok(KeywordSpotter { stream }),
            Err(e) => Err(e),
        }
    }

    /// A spotter on a transducer model.
    pub fn from_transducer(
        transducer: Transducer,
        provider: Option<&str>,
        tokens: &str,
        debug: bool,
        file: &str,
        num_threads: Option<i32>,
        keywords: Option<&str>,
    ) -> (r: Result<Self, Error>)
        ensures
            KeywordSpottingStream::created_from_transducer(
                Self::lift(r),
                ModelBackendView::Transducer(transducer@),
                text_of(provider),
                tokens@,
                debug,
                file@,
                num_threads,
                text_of(keywords),
            ),
    {
        Self::wrap(
            KeywordSpottingStream::from_transducer(
                transducer,
                provider,
                tokens,
                debug,
                file,
                num_threads,
                keywords,
            ),
        )
    }

    /// A spotter on `model` that listens for the keywords listed in `file`,
    /// or, if `keywords` are given, for those instead.
    pub fn new(model: OnlineModelConfig, file: &str, keywords: Option<&str>) -> (r: Result<
        Self,
        Error,
    >)
        ensures
            KeywordSpottingStream::created(Self::lift(r), model@, file@, text_of(keywords)),
    {
        Self::wrap(KeywordSpottingStream::new(model, file, keywords))
    }

    /// Appends a chunk, of any length, to the session's audio: the engine is
    /// handed all of it, in order. A chunk at another rate than the engine's
    /// is refused and changes nothing.
    pub fn accept_waveform(&mut self, sample_rate: i32, samples: Vec<E::Sample>) -> (r: Result<
        (),
        ConfigError,
    >)
        ensures
            SessionView::admits(sample_rate) <==> r is Ok,
            r is Ok ==> final(self).stream.session() == old(self).stream.session().accepted(
                samples.len() as nat,
            ),
            r is Err ==> r->Err_0 == ConfigError::SampleRateMismatch && final(self).stream.session() == old(self).stream.session(),
            final(self).stream.config_view() == old(self).stream.config_view(),
            final(self).stream.keywords_view() == old(self).stream.keywords_view(),
            r is Ok ==> final(self).stream.heard() == old(self).stream.heard() + samples@,
            r is Err ==> final(self).stream.heard() == old(self).stream.heard(),
            final(self).stream.answers() == old(self).stream.answers(),
            final(self).stream.reads() == old(self).stream.reads(),
            final(self).stream.endpoints() == old(self).stream.endpoints(),
    {
        self.stream.accept_waveform(sample_rate, samples)
    }

    /// Runs one decode step. Only a session that is ready may be stepped. A
    /// step that the engine fails at is spent all the same.
    pub fn decode_stream(&mut self) -> (r: Result<(), DecodeError>)
        requires
            old(self).stream.session().phase() == Phase::Ready,
        ensures
            final(self).stream.session() == old(self).stream.session().stepped(r is Ok),
            final(self).stream.config_view() == old(self).stream.config_view(),
            final(self).stream.keywords_view() == old(self).stream.keywords_view(),
            final(self).stream.heard() == old(self).stream.heard(),
            final(self).stream.answers() == old(self).stream.answers(),
            final(self).stream.reads() == old(self).stream.reads(),
            final(self).stream.endpoints() == old(self).stream.endpoints(),
    {
        self.stream.decode_stream()
    }

    /// Whether a decode step is pending. Nothing is pending while nothing is
    /// buffered.
    pub fn is_ready(&mut self) -> (r: bool)
        ensures
            old(self).stream.session().buffered == 0 ==> !r,
            final(self).stream.session() == (SessionView {
                ready: r,
                ..old(self).stream.session()
            }),
            final(self).stream.config_view() == old(self).stream.config_view(),
            final(self).stream.keywords_view() == old(self).stream.keywords_view(),
            final(self).stream.heard() == old(self).stream.heard(),
            final(self).stream.answers() == old(self).stream.answers().push(r),
            final(self).stream.reads() == old(self).stream.reads(),
            final(self).stream.endpoints() == old(self).stream.endpoints(),
    {
        self.stream.is_ready()
    }

    /// The keyword spotted last, without white space around it; empty while
    /// none is spotted, and until something has been decoded.
    pub fn get_result(&mut self) -> (r: String)
        ensures
            final(self).stream.session() == old(self).stream.session(),
            !old(self).stream.session().decoded ==> r@ == Seq::<char>::empty(),
            r@.len() > 0 ==> !is_white_space(r@.first()) && !is_white_space(r@.last()),
            final(self).stream.config_view() == old(self).stream.config_view(),
            final(self).stream.keywords_view() == old(self).stream.keywords_view(),
            final(self).stream.heard() == old(self).stream.heard(),
            final(self).stream.reads() == old(self).stream.reads().push(r@),
            final(self).stream.answers() == old(self).stream.answers(),
            final(self).stream.endpoints() == old(self).stream.endpoints(),
    {
        self.stream.get_result()
    }
}

} // verus!
