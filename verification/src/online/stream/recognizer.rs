//! Live transcription: a recognizer engine with one session on it.

use crate::error::{ConfigError, CreationFailure, DecodeError, Error};
use crate::online::chunk::hand_over;
use crate::online::engine::{started, RecognizerEngine};
use crate::online::model::{
    text_of, FeatureConfig, ModelBackendConfig, ModelBackendView, OnlineModelConfig,
    OnlineModelView, Thousandths,
};
use crate::online::paraformer::Paraformer;
use crate::online::session::{lemma_session_wf, Phase, Session, SessionView};
use crate::online::stream::{OnlineStream, Segmentable};
use crate::online::transducer::Transducer;
use crate::online::zipformer2_ctc::Zipformer2Ctc;
use crate::text::{has_nul, CText};
use vstd::prelude::*;

verus! {

/// The hypotheses that a beam search keeps alive.
pub const MAX_ACTIVE_PATHS: i32 = 4;

/// Trailing silence, in thousandths of a second, that ends an utterance even
/// if nothing was decoded.
pub const RULE1_MIN_TRAILING_SILENCE: i32 = 2400;

/// Trailing silence, in thousandths of a second, that ends an utterance once
/// something was decoded.
pub const RULE2_MIN_TRAILING_SILENCE: i32 = 1200;

/// The length, in thousandths, beyond which an utterance is ended in any case.
pub const RULE3_MIN_UTTERANCE_LENGTH: i32 = 300000;

/// The boost, in thousandths, that hotwords get where a caller names none.
pub const DEFAULT_HOTWORDS_SCORE: i32 = 1500;

/// The beam width of a search through a decoding graph.
pub const CTC_MAX_ACTIVE: i32 = 3000;

/// How the best hypothesis is searched for.
#[derive(Debug, Clone, Copy, PartialEq, Eq, Structural)]
pub enum Search {
    Greedy,
    Beam,
}

impl Search {
    /// The name by which the engine knows the method.
    pub open spec fn name(self) -> Seq<char> {
        match self {
            Search::Greedy => "greedy_search"@,
            Search::Beam => "modified_beam_search"@,
        }
    }

    /// The name by which the engine knows the method.
    pub fn as_str(&self) -> (r: &'static str)
        ensures
            r@ == self.name(),
    {
        match self {
            Search::Greedy => "greedy_search",
            Search::Beam => "modified_beam_search",
        }
    }
}

/// Phrases that the search is biased towards.
pub struct Hotwords {
    /// The path of the file that lists them.
    pub file: CText,
    /// The boost that each of their tokens gets.
    pub score: Thousandths,
}

/// Hotwords as contracts see them.
pub struct HotwordsView {
    pub file: Seq<char>,
    pub score: Thousandths,
}

impl View for Hotwords {
    type V = HotwordsView;

    open spec fn view(&self) -> HotwordsView {
        HotwordsView { file: self.file@, score: self.score }
    }
}

/// How a CTC model's output is searched.
pub struct CtcFstDecoderConfig {
    /// The path of a decoding graph, if one is used.
    pub graph: Option<CText>,
    pub max_active: i32,
}

/// A graph search's configuration as contracts see it.
pub struct CtcFstDecoderView {
    pub graph: Option<Seq<char>>,
    pub max_active: i32,
}

impl View for CtcFstDecoderConfig {
    type V = CtcFstDecoderView;

    open spec fn view(&self) -> CtcFstDecoderView {
        CtcFstDecoderView {
            graph: match self.graph {
                Some(g) => Some(g@),
                None => None,
            },
            max_active: self.max_active,
        }
    }
}

/// What a recognizer engine is built from.
pub struct RecognizerConfig {
    pub feat_config: FeatureConfig,
    pub model_config: OnlineModelConfig,
    pub decoding_method: Search,
    pub max_active_paths: i32,
    pub enable_endpoint: bool,
    pub rule1_min_trailing_silence: Thousandths,
    pub rule2_min_trailing_silence: Thousandths,
    pub rule3_min_utterance_length: Thousandths,
    pub hotwords: Option<Hotwords>,
    /// Present exactly for a CTC model.
    pub ctc_fst_decoder: Option<CtcFstDecoderConfig>,
}

/// A recognizer configuration as contracts see it.
pub struct RecognizerConfigView {
    pub feat_config: FeatureConfig,
    pub model_config: OnlineModelView,
    pub decoding_method: Search,
    pub max_active_paths: i32,
    pub enable_endpoint: bool,
    pub rule1_min_trailing_silence: Thousandths,
    pub rule2_min_trailing_silence: Thousandths,
    pub rule3_min_utterance_length: Thousandths,
    pub hotwords: Option<HotwordsView>,
    pub ctc_fst_decoder: Option<CtcFstDecoderView>,
}

impl View for RecognizerConfig {
    type V = RecognizerConfigView;

    open spec fn view(&self) -> RecognizerConfigView {
        RecognizerConfigView {
            feat_config: self.feat_config,
            model_config: self.model_config@,
            decoding_method: self.decoding_method,
            max_active_paths: self.max_active_paths,
            enable_endpoint: self.enable_endpoint,
            rule1_min_trailing_silence: self.rule1_min_trailing_silence,
            rule2_min_trailing_silence: self.rule2_min_trailing_silence,
            rule3_min_utterance_length: self.rule3_min_utterance_length,
            hotwords: match self.hotwords {
                Some(h) => Some(h@),
                None => None,
            },
            ctc_fst_decoder: match self.ctc_fst_decoder {
                Some(c) => Some(c@),
                None => None,
            },
        }
    }
}

impl RecognizerConfigView {
    /// The hotwords that are configured for the given file and boost: none
    /// without a file, and the default boost where none is named.
    pub open spec fn hotwords_of(file: Option<Seq<char>>, score: Option<Thousandths>) -> Option<
        HotwordsView,
    > {
        match file {
            Some(f) => Some(
                HotwordsView {
                    file: f,
                    score: match score {
                        Some(s) => s,
                        None => Thousandths(DEFAULT_HOTWORDS_SCORE),
                    },
                },
            ),
            None => None,
        }
    }

    /// The graph search that is configured: one for a CTC model, with the
    /// graph if one is given, and none for the other families.
    pub open spec fn ctc_of(backend: ModelBackendView, graph: Option<Seq<char>>) -> Option<
        CtcFstDecoderView,
    > {
        if backend is Zipformer2Ctc {
            Some(CtcFstDecoderView { graph, max_active: CTC_MAX_ACTIVE })
        } else {
            None
        }
    }

    /// The configuration that the given inputs make.
    pub open spec fn assemble(
        model: OnlineModelView,
        search: Search,
        graph: Option<Seq<char>>,
        hotwords: Option<Seq<char>>,
        hotwords_score: Option<Thousandths>,
    ) -> RecognizerConfigView {
        RecognizerConfigView {
            feat_config: FeatureConfig::standard(),
            model_config: model,
            decoding_method: search,
            max_active_paths: MAX_ACTIVE_PATHS,
            enable_endpoint: true,
            rule1_min_trailing_silence: Thousandths(RULE1_MIN_TRAILING_SILENCE),
            rule2_min_trailing_silence: Thousandths(RULE2_MIN_TRAILING_SILENCE),
            rule3_min_utterance_length: Thousandths(RULE3_MIN_UTTERANCE_LENGTH),
            hotwords: Self::hotwords_of(hotwords, hotwords_score),
            ctc_fst_decoder: Self::ctc_of(model.backend, graph),
        }
    }

    /// Whether the texts among the inputs can be handed to an engine. A graph
    /// counts only where one is configured.
    pub open spec fn representable(
        backend: ModelBackendView,
        graph: Option<Seq<char>>,
        hotwords: Option<Seq<char>>,
    ) -> bool {
        &&& hotwords is Some ==> !has_nul(hotwords->Some_0)
        &&& backend is Zipformer2Ctc && graph is Some ==> !has_nul(graph->Some_0)
    }
}

impl RecognizerConfigView {
    /// The configuration that a creation with the given inputs is planned with.
    pub open spec fn planned(
        backend: ModelBackendView,
        provider: Option<Seq<char>>,
        tokens: Seq<char>,
        search: Search,
        debug: bool,
        num_threads: Option<i32>,
        graph: Option<Seq<char>>,
        hotwords: Option<Seq<char>>,
        hotwords_score: Option<Thousandths>,
    ) -> RecognizerConfigView {
        Self::assemble(
            OnlineModelView::assemble(backend, tokens, provider, num_threads, debug),
            search,
            graph,
            hotwords,
            hotwords_score,
        )
    }

    /// Whether a creation with the given inputs can be planned at all.
    pub open spec fn plannable(
        backend: ModelBackendView,
        provider: Option<Seq<char>>,
        tokens: Seq<char>,
        graph: Option<Seq<char>>,
        hotwords: Option<Seq<char>>,
    ) -> bool {
        OnlineModelView::representable(tokens, provider) && Self::representable(
            backend,
            graph,
            hotwords,
        )
    }
}

impl RecognizerConfig {
    /// Plans a recognizer on `backend`: the model's configuration first, then
    /// the recognizer's around it. This is the one place where a recognizer's
    /// configuration is made, whatever the model's family.
    pub fn plan(
        backend: ModelBackendConfig,
        provider: Option<&str>,
        tokens: &str,
        search: Search,
        debug: bool,
        num_threads: Option<i32>,
        graph: Option<&str>,
        hotwords: Option<&str>,
        hotwords_score: Option<Thousandths>,
    ) -> (r: Result<RecognizerConfig, ConfigError>)
        ensures
            r is Ok <==> RecognizerConfigView::plannable(
                backend@,
                text_of(provider),
                tokens@,
                text_of(graph),
                text_of(hotwords),
            ),
            r is Ok ==> r->Ok_0@ == RecognizerConfigView::planned(
                backend@,
                text_of(provider),
                tokens@,
                search,
                debug,
                num_threads,
                text_of(graph),
                text_of(hotwords),
                hotwords_score,
            ),
            r is Err ==> r->Err_0 == ConfigError::EmbeddedNul,
    {
        let model = match OnlineModelConfig::build(backend, tokens, provider, num_threads, debug) {
            Ok(m) => m,
            Err(e) => {
                return Err(e);
            },
        };
        RecognizerConfig::build(model, search, graph, hotwords, hotwords_score)
    }

    /// Puts a recognizer's configuration together from a model and a search
    /// method. The feature parameters, the endpoint rules and the beam widths
    /// are the fixed ones. A graph is configured for a CTC model only, and
    /// dropped for the others. A path with a NUL is refused.
    pub fn build(
        model: OnlineModelConfig,
        search: Search,
        graph: Option<&str>,
        hotwords: Option<&str>,
        hotwords_score: Option<Thousandths>,
    ) -> (r: Result<RecognizerConfig, ConfigError>)
        ensures
            r is Ok <==> RecognizerConfigView::representable(
                model@.backend,
                text_of(graph),
                text_of(hotwords),
            ),
            r is Ok ==> r->Ok_0@ == RecognizerConfigView::assemble(
                model@,
                search,
                text_of(graph),
                text_of(hotwords),
                hotwords_score,
            ),
            r is Err ==> r->Err_0 == ConfigError::EmbeddedNul,
    {
        let hotwords = match hotwords {
            Some(file) => {
                let file = match CText::new(file) {
                    Ok(t) => t,
                    Err(e) => {
                        return Err(e);
                    },
                };
                let score = match hotwords_score {
                    Some(s) => s,
                    None => Thousandths(DEFAULT_HOTWORDS_SCORE),
                };
                Some(Hotwords { file, score })
            },
            None => None,
        };
        let ctc_fst_decoder = if model.backend.is_zipformer2_ctc() {
            let graph = match graph {
                Some(g) => {
                    match CText::new(g) {
                        Ok(t) => Some(t),
                        Err(e) => {
                            return Err(e);
                        },
                    }
                },
                None => None,
            };
            Some(CtcFstDecoderConfig { graph, max_active: CTC_MAX_ACTIVE })
        } else {
            None
        };
        Ok(
            RecognizerConfig {
                feat_config: FeatureConfig::new(),
                model_config: model,
                decoding_method: search,
                max_active_paths: MAX_ACTIVE_PATHS,
                enable_endpoint: true,
                rule1_min_trailing_silence: Thousandths(RULE1_MIN_TRAILING_SILENCE),
                rule2_min_trailing_silence: Thousandths(RULE2_MIN_TRAILING_SILENCE),
                rule3_min_utterance_length: Thousandths(RULE3_MIN_UTTERANCE_LENGTH),
                hotwords,
                ctc_fst_decoder,
            },
        )
    }
}

/// A recognizer engine and the session that runs on it.
pub struct RecognizerStream<E: RecognizerEngine> {
    engine: E,
    config: RecognizerConfig,
    session: Session,
    heard: Ghost<Seq<E::Sample>>,
    answers: Ghost<Seq<bool>>,
    reads: Ghost<Seq<Seq<char>>>,
    endpoints: Ghost<Seq<bool>>,
}

impl<E: RecognizerEngine> RecognizerStream<E> {
    /// The configuration that the engine was built from.
    pub closed spec fn config_view(&self) -> RecognizerConfigView {
        self.config@
    }

    /// The engine that the session runs on.
    pub closed spec fn engine_view(&self) -> E {
        self.engine
    }

    /// The engine, for what it offers besides.
    pub fn engine(&self) -> (e: &E)
        ensures
            *e == self.engine_view(),
    {
        &self.engine
    }

    /// The configuration that the engine was built from.
    pub fn config(&self) -> (c: &RecognizerConfig)
        ensures
            c@ == self.config_view(),
    {
        &self.config
    }

    /// Makes a stream of what the engine gave for `config`: a fresh session
    /// on the engine, or the engine's failure, reported.
    pub fn from_creation(config: RecognizerConfig, made: Result<E, CreationFailure>) -> (r: Result<
        Self,
        Error,
    >)
        ensures
            r is Ok <==> made is Ok,
            r is Ok ==> {
                &&& r->Ok_0.config_view() == config@
                &&& r->Ok_0.session() == SessionView::fresh()
                &&& r->Ok_0.heard() == Seq::<E::Sample>::empty()
                &&& r->Ok_0.answers() == Seq::<bool>::empty()
                &&& r->Ok_0.reads() == Seq::<Seq<char>>::empty()
                &&& r->Ok_0.endpoints() == Seq::<bool>::empty()
            },
            r is Err ==> r->Err_0 == Error::of_failure(made->Err_0),
    {
        match made {
            Ok(engine) => Ok(RecognizerStream { engine, config, session: Session::new(), heard: Ghost(Seq::empty()),
                    answers: Ghost(Seq::empty()),
                    reads: Ghost(Seq::empty()),
                    endpoints: Ghost(Seq::empty()),
                }),
            Err(f) => Err(Error::from_failure(f)),
        }
    }

    /// What a creation with the given inputs owes: a refusal exactly where
    /// the inputs cannot be planned with; else the engine decides, and a
    /// stream that comes back is fresh and holds the planned configuration.
    pub open spec fn created(
        r: Result<Self, Error>,
        backend: ModelBackendView,
        provider: Option<Seq<char>>,
        tokens: Seq<char>,
        search: Search,
        debug: bool,
        num_threads: Option<i32>,
        graph: Option<Seq<char>>,
        hotwords: Option<Seq<char>>,
        hotwords_score: Option<Thousandths>,
    ) -> bool {
        let plannable = RecognizerConfigView::plannable(backend, provider, tokens, graph, hotwords);
        match r {
            Ok(stream) => {
                &&& plannable
                &&& stream.session() == SessionView::fresh()
                &&& stream.heard() == Seq::<E::Sample>::empty()
                &&& stream.answers() == Seq::<bool>::empty()
                &&& stream.reads() == Seq::<Seq<char>>::empty()
                &&& stream.endpoints() == Seq::<bool>::empty()
                &&& stream.config_view() == RecognizerConfigView::planned(
                    backend,
                    provider,
                    tokens,
                    search,
                    debug,
                    num_threads,
                    graph,
                    hotwords,
                    hotwords_score,
                )
            },
            Err(Error::Config(e)) => !plannable && e == ConfigError::EmbeddedNul,
            Err(_) => plannable,
        }
    }

    /// Plans a recognizer on `backend` and has the engine built.
    pub fn from_backend(
        backend: ModelBackendConfig,
        provider: Option<&str>,
        tokens: &str,
        search: Search,
        debug: bool,
        num_threads: Option<i32>,
        graph: Option<&str>,
        hotwords: Option<&str>,
        hotwords_score: Option<Thousandths>,
    ) -> (r: Result<Self, Error>)
        ensures
            Self::created(
                r,
                backend@,
                text_of(provider),
                tokens@,
                search,
                debug,
                num_threads,
                text_of(graph),
                text_of(hotwords),
                hotwords_score,
            ),
    {
        let config = match RecognizerConfig::plan(
            backend,
            provider,
            tokens,
            search,
            debug,
            num_threads,
            graph,
            hotwords,
            hotwords_score,
        ) {
            Ok(c) => c,
            Err(e) => {
                return Err(Error::Config(e));
            },
        };
        Self::open(config)
    }

    /// A recognizer on a transducer model.
    pub fn from_transducer(
        transducer: Transducer,
        provider: Option<&str>,
        tokens: &str,
        search: Search,
        debug: bool,
        num_threads: Option<i32>,
        hotwords: Option<&str>,
        hotwords_score: Option<Thousandths>,
    ) -> (r: Result<Self, Error>)
        ensures
            Self::created(
                r,
                ModelBackendView::Transducer(transducer@),
                text_of(provider),
                tokens@,
                search,
                debug,
                num_threads,
                None,
                text_of(hotwords),
                hotwords_score,
            ),
    {
        Self::from_backend(
            ModelBackendConfig::Transducer(transducer),
            provider,
            tokens,
            search,
            debug,
            num_threads,
            None,
            hotwords,
            hotwords_score,
        )
    }

    /// A recognizer on a paraformer model.
    pub fn from_paraformer(
        paraformer: Paraformer,
        provider: Option<&str>,
        tokens: &str,
        search: Search,
        debug: bool,
        num_threads: Option<i32>,
        hotwords: Option<&str>,
        hotwords_score: Option<Thousandths>,
    ) -> (r: Result<Self, Error>)
        ensures
            Self::created(
                r,
                ModelBackendView::Paraformer(paraformer@),
                text_of(provider),
                tokens@,
                search,
                debug,
                num_threads,
                None,
                text_of(hotwords),
                hotwords_score,
            ),
    {
        Self::from_backend(
            ModelBackendConfig::Paraformer(paraformer),
            provider,
            tokens,
            search,
            debug,
            num_threads,
            None,
            hotwords,
            hotwords_score,
        )
    }

    /// A recognizer on a zipformer2 CTC model, searched through `graph` if
    /// one is given.
    pub fn from_zipformer(
        zipformer: Zipformer2Ctc,
        provider: Option<&str>,
        tokens: &str,
        search: Search,
        debug: bool,
        num_threads: Option<i32>,
        graph: Option<&str>,
        hotwords: Option<&str>,
        hotwords_score: Option<Thousandths>,
    ) -> (r: Result<Self, Error>)
        ensures
            Self::created(
                r,
                ModelBackendView::Zipformer2Ctc(zipformer@),
                text_of(provider),
                tokens@,
                search,
                debug,
                num_threads,
                text_of(graph),
                text_of(hotwords),
                hotwords_score,
            ),
    {
        Self::from_backend(
            ModelBackendConfig::Zipformer2Ctc(zipformer),
            provider,
            tokens,
            search,
            debug,
            num_threads,
            graph,
            hotwords,
            hotwords_score,
        )
    }

    /// Has the engine built from `config` and then asks it for its stream; an
    /// engine that gives none is released. Whether either succeeds is the
    /// engine's to say; a stream that comes back is fresh and keeps `config`.
    pub fn open(config: RecognizerConfig) -> (r: Result<Self, Error>)
        ensures
            r is Ok ==> {
                &&& r->Ok_0.config_view() == config@
                &&& r->Ok_0.session() == SessionView::fresh()
                &&& r->Ok_0.heard() == Seq::<E::Sample>::empty()
                &&& r->Ok_0.answers() == Seq::<bool>::empty()
                &&& r->Ok_0.reads() == Seq::<Seq<char>>::empty()
                &&& r->Ok_0.endpoints() == Seq::<bool>::empty()
            },
            r is Err ==> r->Err_0 == Error::EngineCreation || r->Err_0 == Error::StreamCreation,
    {
        let made = match E::create(&config) {
            Some(mut engine) => {
                let opened = engine.open_stream();
                started(engine, opened)
            },
            None => Err(CreationFailure::Engine),
        };
        Self::from_creation(config, made)
    }
}

impl<E: RecognizerEngine> OnlineStream for RecognizerStream<E> {
    type Sample = E::Sample;

    closed spec fn session(&self) -> SessionView {
        self.session@
    }

    closed spec fn heard(&self) -> Seq<E::Sample> {
        self.heard@
    }

    closed spec fn answers(&self) -> Seq<bool> {
        self.answers@
    }

    closed spec fn reads(&self) -> Seq<Seq<char>> {
        self.reads@
    }

    closed spec fn endpoints(&self) -> Seq<bool> {
        self.endpoints@
    }

    proof fn session_wf(&self) {
        lemma_session_wf(&self.session);
    }

    fn accept_waveform(&mut self, sample_rate: i32, samples: Vec<E::Sample>) -> (r: Result<
        (),
        ConfigError,
    >)
        ensures
            final(self).config_view() == old(self).config_view(),
    {
        match self.session.accept(sample_rate, samples.len()) {
            Ok(()) => {},
            Err(e) => {
                return Err(e);
            },
        }
        let handed = hand_over(&mut self.engine, sample_rate, samples);
        self.heard = Ghost(self.heard@ + handed@);
        Ok(())
    }

    fn decode_stream(&mut self) -> (r: Result<(), DecodeError>)
        ensures
            final(self).config_view() == old(self).config_view(),
    {
        // A caller that was not verified may come here unready: the engine is
        // then left alone.
        if self.session.phase() == Phase::Ready {
            let done = self.engine.decode();
            self.session.step(done.is_ok());
            done
        } else {
            Ok(())
        }
    }

    fn get_result(&mut self) -> (r: String)
        ensures
            final(self).config_view() == old(self).config_view(),
    {
        let text = if self.session.has_decoded() {
            let text = self.engine.get_result();
            self.session.report(text)
        } else {
            String::new()
        };
        self.reads = Ghost(self.reads@.push(text@));
        text
    }

    fn is_ready(&mut self) -> (r: bool)
        ensures
            final(self).config_view() == old(self).config_view(),
    {
        let engine_ready = self.session.may_be_ready() && self.engine.is_ready();
        let ready = self.session.observe_ready(engine_ready);
        self.answers = Ghost(self.answers@.push(ready));
        ready
    }
}

impl<E: RecognizerEngine> Segmentable for RecognizerStream<E> {
    fn is_endpoint(&mut self) -> (r: bool)
        ensures
            final(self).config_view() == old(self).config_view(),
    {
        let endpoint = self.engine.is_endpoint();
        self.endpoints = Ghost(self.endpoints@.push(endpoint));
        endpoint
    }

    fn reset(&mut self)
        ensures
            final(self).config_view() == old(self).config_view(),
    {
        self.engine.reset();
        self.session.reset();
    }
}

} // verus!
