//! A streaming recognizer with its calls by name, for callers that drive one
//! session by hand.

use crate::error::{ConfigError, DecodeError, Error};
use crate::online::engine::RecognizerEngine;
use crate::online::model::{text_of, ModelBackendView, Thousandths};
use crate::online::session::{Phase, SessionView};
use crate::online::stream::recognizer::RecognizerStream;
use crate::online::stream::{OnlineStream, Segmentable};
use vstd::prelude::*;

pub use crate::online::paraformer::Paraformer;
pub use crate::online::stream::recognizer::Search;
pub use crate::online::transducer::Transducer;
pub use crate::online::zipformer2_ctc::Zipformer2Ctc;

verus! {

/// A recognizer engine and its one session.
pub struct OnlineRecognizer<E: RecognizerEngine> {
    /// The session, for use with a decode loop.
    pub stream: RecognizerStream<E>,
}

impl<E: RecognizerEngine> OnlineRecognizer<E> {
    /// The recognizer around a stream, or the error that came in its place.
    pub open spec fn lift(r: Result<Self, Error>) -> Result<RecognizerStream<E>, Error> {
        match r {
            Ok(recognizer) => Ok(recognizer.stream),
            Err(e) => Err(e),
        }
    }

    fn wrap(made: Result<RecognizerStream<E>, Error>) -> (r: Result<Self, Error>)
        ensures
            Self::lift(r) == made,
    {
        match made {
            Ok(stream) => Ok(OnlineRecognizer { stream }),
            Err(e) => Err(e),
        }
    }

    /// A recognizer on a transducer model.
    pub fn from_transducer(
        transducer: Transducer,
        provider: Option<&str>,
        tokens: &str,
        search: Search,
        debug: bool,
        num_threads: Option<i32>,
        hotwords: Option<&str>,
        hotwords_score: Option<Thousandths>,
    ) -> (r: Result<Self, Error>)
        ensures
            RecognizerStream::created(
                Self::lift(r),
                ModelBackendView::Transducer(transducer@),
                text_of(provider),
                tokens@,
                search,
                debug,
                num_threads,
                None,
                text_of(hotwords),
                hotwords_score,
            ),
    {
        Self::wrap(
            RecognizerStream::from_transducer(
                transducer,
                provider,
                tokens,
                search,
                debug,
                num_threads,
                hotwords,
                hotwords_score,
            ),
        )
    }

    /// A recognizer on a paraformer model.
    pub fn from_paraformer(
        paraformer: Paraformer,
        provider: Option<&str>,
        tokens: &str,
        search: Search,
        debug: bool,
        num_threads: Option<i32>,
        hotwords: Option<&str>,
        hotwords_score: Option<Thousandths>,
    ) -> (r: Result<Self, Error>)
        ensures
            RecognizerStream::created(
                Self::lift(r),
                ModelBackendView::Paraformer(paraformer@),
                text_of(provider),
                tokens@,
                search,
                debug,
                num_threads,
                None,
                text_of(hotwords),
                hotwords_score,
            ),
    {
        Self::wrap(
            RecognizerStream::from_paraformer(
                paraformer,
                provider,
                tokens,
                search,
                debug,
                num_threads,
                hotwords,
                hotwords_score,
            ),
        )
    }

    /// A recognizer on a zipformer2 CTC model, searched through `graph` if
    /// one is given.
    pub fn from_zipformer(
        zipformer: Zipformer2Ctc,
        provider: Option<&str>,
        tokens: &str,
        search: Search,
        debug: bool,
        num_threads: Option<i32>,
        graph: Option<&str>,
        hotwords: Option<&str>,
        hotwords_score: Option<Thousandths>,
    ) -> (r: Result<Self, Error>)
        ensures
            RecognizerStream::created(
                Self::lift(r),
                ModelBackendView::Zipformer2Ctc(zipformer@),
                text_of(provider),
                tokens@,
                search,
                debug,
                num_threads,
                text_of(graph),
                text_of(hotwords),
                hotwords_score,
            ),
    {
        Self::wrap(
            RecognizerStream::from_zipformer(
                zipformer,
                provider,
                tokens,
                search,
                debug,
                num_threads,
                graph,
                hotwords,
                hotwords_score,
            ),
        )
    }

    /// Appends a chunk, of any length, to the session's audio: the engine is
    /// handed all of it, in order. A chunk at another rate than the engine's
    /// is refused and changes nothing.
    pub fn accept_waveform(&mut self, sample_rate: i32, samples: Vec<E::Sample>) -> (r: Result<
        (),
        ConfigError,
    >)
        ensures
            SessionView::admits(sample_rate) <==> r is Ok,
            r is Ok ==> final(self).stream.session() == old(self).stream.session().accepted(
                samples.len() as nat,
            ),
            r is Err ==> r->Err_0 == ConfigError::SampleRateMismatch && final(self).stream.session() == old(self).stream.session(),
            final(self).stream.config_view() == old(self).stream.config_view(),
            r is Ok ==> final(self).stream.heard() == old(self).stream.heard() + samples@,
            r is Err ==> final(self).stream.heard() == old(self).stream.heard(),
            final(self).stream.answers() == old(self).stream.answers(),
            final(self).stream.reads() == old(self).stream.reads(),
            final(self).stream.endpoints() == old(self).stream.endpoints(),
    {
        self.stream.accept_waveform(sample_rate, samples)
    }

    /// Whether a decode step is pending. Nothing is pending while nothing is
    /// buffered.
    pub fn is_ready(&mut self) -> (r: bool)
        ensures
            old(self).stream.session().buffered == 0 ==> !r,
            final(self).stream.session() == (SessionView {
                ready: r,
                ..old(self).stream.session()
            }),
            final(self).stream.config_view() == old(self).stream.config_view(),
            final(self).stream.heard() == old(self).stream.heard(),
            final(self).stream.answers() == old(self).stream.answers().push(r),
            final(self).stream.reads() == old(self).stream.reads(),
            final(self).stream.endpoints() == old(self).stream.endpoints(),
    {
        self.stream.is_ready()
    }

    /// Runs one decode step. Only a session that is ready may be stepped. A
    /// step that the engine fails at is spent all the same.
    pub fn decode(&mut self) -> (r: Result<(), DecodeError>)
        requires
            old(self).stream.session().phase() == Phase::Ready,
        ensures
            final(self).stream.session() == old(self).stream.session().stepped(r is Ok),
            final(self).stream.config_view() == old(self).stream.config_view(),
            final(self).stream.heard() == old(self).stream.heard(),
            final(self).stream.answers() == old(self).stream.answers(),
            final(self).stream.reads() == old(self).stream.reads(),
            final(self).stream.endpoints() == old(self).stream.endpoints(),
    {
        self.stream.decode_stream()
    }

    /// The current result. Until something has been decoded it is empty.
    pub fn get_result(&mut self) -> (r: String)
        ensures
            final(self).stream.session() == old(self).stream.session(),
            !old(self).stream.session().decoded ==> r@ == Seq::<char>::empty(),
            final(self).stream.config_view() == old(self).stream.config_view(),
            final(self).stream.heard() == old(self).stream.heard(),
            final(self).stream.reads() == old(self).stream.reads().push(r@),
            final(self).stream.answers() == old(self).stream.answers(),
            final(self).stream.endpoints() == old(self).stream.endpoints(),
    {
        self.stream.get_result()
    }

    /// Whether the session stands at the end of an utterance.
    pub fn is_endpoint(&mut self) -> (r: bool)
        ensures
            final(self).stream.session() == old(self).stream.session(),
            final(self).stream.config_view() == old(self).stream.config_view(),
            final(self).stream.heard() == old(self).stream.heard(),
            final(self).stream.endpoints() == old(self).stream.endpoints().push(r),
            final(self).stream.answers() == old(self).stream.answers(),
            final(self).stream.reads() == old(self).stream.reads(),
    {
        self.stream.is_endpoint()
    }

    /// Clears the session, whatever it held.
    pub fn reset(&mut self)
        ensures
            final(self).stream.session() == old(self).stream.session().cleared(),
            final(self).stream.config_view() == old(self).stream.config_view(),
            final(self).stream.heard() == old(self).stream.heard(),
            final(self).stream.answers() == old(self).stream.answers(),
            final(self).stream.reads() == old(self).stream.reads(),
            final(self).stream.endpoints() == old(self).stream.endpoints(),
    {
        self.stream.reset()
    }
}

} // verus!
