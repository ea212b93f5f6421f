//! Keyword spotting: a spotter engine with one session on it.

use crate::error::{ConfigError, CreationFailure, DecodeError, Error};
use crate::online::chunk::hand_over;
use crate::online::engine::{started, KeywordEngine};
use crate::online::model::{
    text_of, FeatureConfig, ModelBackendConfig, ModelBackendView, OnlineModelConfig,
    OnlineModelView, Thousandths,
};
use crate::online::session::{lemma_session_wf, Phase, Session, SessionView};
use crate::online::stream::OnlineStream;
use crate::online::transducer::Transducer;
use crate::text::{has_nul, is_white_space, lemma_trimmed_is_tight, trim, trimmed, CText};
use vstd::prelude::*;

verus! {

/// The blank frames that must follow a keyword before it counts as spotted.
pub const NUM_TRAILING_BLANKS: i32 = 1;

/// The boost, in thousandths, that each token of a keyword gets.
pub const KEYWORDS_SCORE: i32 = 1000;

/// The confidence, in thousandths, below which the engine reports no keyword.
pub const KEYWORDS_THRESHOLD: i32 = 250;

/// What a keyword spotter engine is built from.
pub struct KeywordSpotterConfig {
    pub feat_config: FeatureConfig,
    pub model_config: OnlineModelConfig,
    pub num_trailing_blanks: i32,
    pub keywords_score: Thousandths,
    pub keywords_threshold: Thousandths,
    /// The path of the file that lists the keywords, one to a line.
    pub keywords_file: CText,
}

/// A spotter configuration as contracts see it.
pub struct KeywordSpotterConfigView {
    pub feat_config: FeatureConfig,
    pub model_config: OnlineModelView,
    pub num_trailing_blanks: i32,
    pub keywords_score: Thousandths,
    pub keywords_threshold: Thousandths,
    pub keywords_file: Seq<char>,
}

impl View for KeywordSpotterConfig {
    type V = KeywordSpotterConfigView;

    open spec fn view(&self) -> KeywordSpotterConfigView {
        KeywordSpotterConfigView {
            feat_config: self.feat_config,
            model_config: self.model_config@,
            num_trailing_blanks: self.num_trailing_blanks,
            keywords_score: self.keywords_score,
            keywords_threshold: self.keywords_threshold,
            keywords_file: self.keywords_file@,
        }
    }
}

impl KeywordSpotterConfigView {
    /// The configuration that a model and a keywords file make.
    pub open spec fn assemble(model: OnlineModelView, file: Seq<char>) -> KeywordSpotterConfigView {
        KeywordSpotterConfigView {
            feat_config: FeatureConfig::standard(),
            model_config: model,
            num_trailing_blanks: NUM_TRAILING_BLANKS,
            keywords_score: Thousandths(KEYWORDS_SCORE),
            keywords_threshold: Thousandths(KEYWORDS_THRESHOLD),
            keywords_file: file,
        }
    }
}

impl KeywordSpotterConfig {
    /// Puts a spotter's configuration together. The feature parameters, the
    /// boost and the threshold are the fixed ones. A path with a NUL is
    /// refused.
    pub fn build(model: OnlineModelConfig, file: &str) -> (r: Result<
        KeywordSpotterConfig,
        ConfigError,
    >)
        ensures
            r is Ok <==> !has_nul(file@),
            r is Ok ==> r->Ok_0@ == KeywordSpotterConfigView::assemble(model@, file@),
            r is Err ==> r->Err_0 == ConfigError::EmbeddedNul,
    {
        let keywords_file = match CText::new(file) {
            Ok(t) => t,
            Err(e) => {
                return Err(e);
            },
        };
        Ok(
            KeywordSpotterConfig {
                feat_config: FeatureConfig::new(),
                model_config: model,
                num_trailing_blanks: NUM_TRAILING_BLANKS,
                keywords_score: Thousandths(KEYWORDS_SCORE),
                keywords_threshold: Thousandths(KEYWORDS_THRESHOLD),
                keywords_file,
            },
        )
    }
}

/// A spotter engine and the session that runs on it.
pub struct KeywordSpottingStream<E: KeywordEngine> {
    engine: E,
    config: KeywordSpotterConfig,
    keywords: Option<CText>,
    session: Session,
    heard: Ghost<Seq<E::Sample>>,
    answers: Ghost<Seq<bool>>,
    reads: Ghost<Seq<Seq<char>>>,
    endpoints: Ghost<Seq<bool>>,
}

impl<E: KeywordEngine> KeywordSpottingStream<E> {
    /// The configuration that the engine was built from.
    pub closed spec fn config_view(&self) -> KeywordSpotterConfigView {
        self.config@
    }

    /// The keywords that this session listens for in place of the file's, if
    /// any were given.
    pub closed spec fn keywords_view(&self) -> Option<Seq<char>> {
        match self.keywords {
            Some(k) => Some(k@),
            None => None,
        }
    }

    /// The engine that the session runs on.
    pub closed spec fn engine_view(&self) -> E {
        self.engine
    }

    /// The engine, for what it offers besides.
    pub fn engine(&self) -> (e: &E)
        ensures
            *e == self.engine_view(),
    {
        &self.engine
    }

    /// The configuration that the engine was built from.
    pub fn config(&self) -> (c: &KeywordSpotterConfig)
        ensures
            c@ == self.config_view(),
    {
        &self.config
    }

    /// The keywords that this session listens for in place of the file's.
    pub fn keywords(&self) -> (k: Option<&str>)
        ensures
            text_of(k) == self.keywords_view(),
    {
        match &self.keywords {
            Some(k) => Some(k.as_str()),
            None => None,
        }
    }

    /// What a creation on `model` owes: a refusal exactly where a text holds
    /// a NUL; else the engine decides, and a stream that comes back is fresh
    /// and holds the configuration made of the model and the file, and the
    /// keywords given.
    pub open spec fn created(
        r: Result<Self, Error>,
        model: OnlineModelView,
        file: Seq<char>,
        keywords: Option<Seq<char>>,
    ) -> bool {
        let representable = !has_nul(file) && (keywords is Some ==> !has_nul(keywords->Some_0));
        match r {
            Ok(stream) => {
                &&& representable
                &&& stream.session() == SessionView::fresh()
                &&& stream.heard() == Seq::<E::Sample>::empty()
                &&& stream.answers() == Seq::<bool>::empty()
                &&& stream.reads() == Seq::<Seq<char>>::empty()
                &&& stream.endpoints() == Seq::<bool>::empty()
                &&& stream.config_view() == KeywordSpotterConfigView::assemble(model, file)
                &&& stream.keywords_view() == keywords
            },
            Err(Error::Config(e)) => !representable && e == ConfigError::EmbeddedNul,
            Err(_) => representable,
        }
    }

    /// Makes a stream of what the engine gave for `config` and `keywords`: a
    /// fresh session on the engine, or the engine's failure, reported.
    pub fn from_creation(
        config: KeywordSpotterConfig,
        keywords: Option<CText>,
        made: Result<E, CreationFailure>,
    ) -> (r: Result<Self, Error>)
        ensures
            r is Ok <==> made is Ok,
            r is Ok ==> {
                &&& r->Ok_0.config_view() == config@
                &&& r->Ok_0.session() == SessionView::fresh()
                &&& r->Ok_0.heard() == Seq::<E::Sample>::empty()
                &&& r->Ok_0.answers() == Seq::<bool>::empty()
                &&& r->Ok_0.reads() == Seq::<Seq<char>>::empty()
                &&& r->Ok_0.endpoints() == Seq::<bool>::empty()
                &&& r->Ok_0.keywords_view() == match keywords {
                    Some(k) => Some(k@),
                    None => None,
                }
            },
            r is Err ==> r->Err_0 == Error::of_failure(made->Err_0),
    {
        match made {
            Ok(engine) => Ok(
                KeywordSpottingStream { engine, config, keywords, session: Session::new(), heard: Ghost(Seq::empty()),
                    answers: Ghost(Seq::empty()),
                    reads: Ghost(Seq::empty()),
                    endpoints: Ghost(Seq::empty()),
                },
            ),
            Err(f) => Err(Error::from_failure(f)),
        }
    }

    /// A spotter on `model` that listens for the keywords listed in `file`,
    /// or, if `keywords` are given, for those instead. The engine is built
    /// first and then asked for its stream; an engine that gives none is
    /// released.
    pub fn new(model: OnlineModelConfig, file: &str, keywords: Option<&str>) -> (r: Result<
        Self,
        Error,
    >)
        ensures
            Self::created(r, model@, file@, text_of(keywords)),
    {
        let config = match KeywordSpotterConfig::build(model, file) {
            Ok(c) => c,
            Err(e) => {
                return Err(Error::Config(e));
            },
        };
        let keywords = match keywords {
            Some(k) => match CText::new(k) {
                Ok(t) => Some(t),
                Err(e) => {
                    return Err(Error::Config(e));
                },
            },
            None => None,
        };
        let made = match E::create(&config) {
            Some(mut engine) => {
                let opened = engine.open_stream(
                    match &keywords {
                        Some(k) => Some(k.as_str()),
                        None => None,
                    },
                );
                started(engine, opened)
            },
            None => Err(CreationFailure::Engine),
        };
        Self::from_creation(config, keywords, made)
    }

    /// What a creation on a transducer owes.
    pub open spec fn created_from_transducer(
        r: Result<Self, Error>,
        transducer: ModelBackendView,
        provider: Option<Seq<char>>,
        tokens: Seq<char>,
        debug: bool,
        file: Seq<char>,
        num_threads: Option<i32>,
        keywords: Option<Seq<char>>,
    ) -> bool {
        if OnlineModelView::representable(tokens, provider) {
            Self::created(
                r,
                OnlineModelView::assemble(transducer, tokens, provider, num_threads, debug),
                file,
                keywords,
            )
        } else {
            r == Err::<Self, Error>(Error::Config(ConfigError::EmbeddedNul))
        }
    }

    /// A spotter on a transducer model.
    pub fn from_transducer(
        transducer: Transducer,
        provider: Option<&str>,
        tokens: &str,
        debug: bool,
        file: &str,
        num_threads: Option<i32>,
        keywords: Option<&str>,
    ) -> (r: Result<Self, Error>)
        ensures
            Self::created_from_transducer(
                r,
                ModelBackendView::Transducer(transducer@),
                text_of(provider),
                tokens@,
                debug,
                file@,
                num_threads,
                text_of(keywords),
            ),
    {
        let model = match OnlineModelConfig::build(
            ModelBackendConfig::Transducer(transducer),
            tokens,
            provider,
            num_threads,
            debug,
        ) {
            Ok(m) => m,
            Err(e) => {
                return Err(Error::Config(e));
            },
        };
        Self::new(model, file, keywords)
    }

    /// The keyword to report when the engine holds `engine_keyword`: nothing
    /// until something has been decoded, and then the engine's keyword
    /// without the white space around it.
    pub fn spotted(session: &Session, engine_keyword: String) -> (r: String)
        ensures
            r@ == session@.reports(trimmed(engine_keyword@)),
    {
        session.report(trim(engine_keyword.as_str()))
    }
}

impl<E: KeywordEngine> OnlineStream for KeywordSpottingStream<E> {
    type Sample = E::Sample;

    closed spec fn session(&self) -> SessionView {
        self.session@
    }

    closed spec fn heard(&self) -> Seq<E::Sample> {
        self.heard@
    }

    closed spec fn answers(&self) -> Seq<bool> {
        self.answers@
    }

    closed spec fn reads(&self) -> Seq<Seq<char>> {
        self.reads@
    }

    closed spec fn endpoints(&self) -> Seq<bool> {
        self.endpoints@
    }

    proof fn session_wf(&self) {
        lemma_session_wf(&self.session);
    }

    fn accept_waveform(&mut self, sample_rate: i32, samples: Vec<E::Sample>) -> (r: Result<
        (),
        ConfigError,
    >)
        ensures
            final(self).config_view() == old(self).config_view(),
            final(self).keywords_view() == old(self).keywords_view(),
    {
        match self.session.accept(sample_rate, samples.len()) {
            Ok(()) => {},
            Err(e) => {
                return Err(e);
            },
        }
        let handed = hand_over(&mut self.engine, sample_rate, samples);
        self.heard = Ghost(self.heard@ + handed@);
        Ok(())
    }

    fn decode_stream(&mut self) -> (r: Result<(), DecodeError>)
        ensures
            final(self).config_view() == old(self).config_view(),
            final(self).keywords_view() == old(self).keywords_view(),
    {
        // A caller that was not verified may come here unready: the engine is
        // then left alone.
        if self.session.phase() == Phase::Ready {
            let done = self.engine.decode();
            self.session.step(done.is_ok());
            done
        } else {
            Ok(())
        }
    }

    /// The keyword spotted last, without white space around it; empty while
    /// none is spotted.
    fn get_result(&mut self) -> (r: String)
        ensures
            r@.len() > 0 ==> !is_white_space(r@.first()) && !is_white_space(r@.last()),
            final(self).config_view() == old(self).config_view(),
            final(self).keywords_view() == old(self).keywords_view(),
    {
        let text = if self.session.has_decoded() {
            let keyword = self.engine.get_result();
            proof {
                lemma_trimmed_is_tight(keyword@);
            }
            Self::spotted(&self.session, keyword)
        } else {
            String::new()
        };
        self.reads = Ghost(self.reads@.push(text@));
        text
    }

    fn is_ready(&mut self) -> (r: bool)
        ensures
            final(self).config_view() == old(self).config_view(),
            final(self).keywords_view() == old(self).keywords_view(),
    {
        let engine_ready = self.session.may_be_ready() && self.engine.is_ready();
        let ready = self.session.observe_ready(engine_ready);
        self.answers = Ghost(self.answers@.push(ready));
        ready
    }
}

} // verus!
