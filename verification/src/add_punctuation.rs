//! Punctuation for text that a recognizer gave without any.

use crate::error::{ConfigError, Error};
use crate::get_default_provider;
use crate::online::model::{text_of, OnlineModelView, DEFAULT_NUM_THREADS};
use crate::text::{has_nul, CText};
use vstd::prelude::*;

verus! {

/// What a punctuation engine is built from.
pub struct PunctuationConfig {
    /// The path of the model.
    pub ct_transformer: CText,
    pub num_threads: i32,
    pub debug: bool,
    /// The tag of the execution provider.
    pub provider: CText,
}

/// A punctuation engine's configuration as contracts see it.
pub struct PunctuationConfigView {
    pub ct_transformer: Seq<char>,
    pub num_threads: i32,
    pub debug: bool,
    pub provider: Seq<char>,
}

impl View for PunctuationConfig {
    type V = PunctuationConfigView;

    open spec fn view(&self) -> PunctuationConfigView {
        PunctuationConfigView {
            ct_transformer: self.ct_transformer@,
            num_threads: self.num_threads,
            debug: self.debug,
            provider: self.provider@,
        }
    }
}

impl PunctuationConfigView {
    /// The configuration that the given inputs make: the default provider
    /// and one thread where none is named, and debugging on unless it is
    /// switched off.
    pub open spec fn assemble(
        provider: Option<Seq<char>>,
        model: Seq<char>,
        num_threads: Option<i32>,
        debug: Option<bool>,
    ) -> PunctuationConfigView {
        PunctuationConfigView {
            ct_transformer: model,
            num_threads: OnlineModelView::threads_of(num_threads),
            debug: match debug {
                Some(d) => d,
                None => true,
            },
            provider: OnlineModelView::provider_of(provider),
        }
    }

    /// Whether the texts among the inputs can be handed to an engine.
    pub open spec fn representable(provider: Option<Seq<char>>, model: Seq<char>) -> bool {
        !has_nul(model) && !has_nul(OnlineModelView::provider_of(provider))
    }
}

impl PunctuationConfig {
    /// Puts a punctuation engine's configuration together. A text with a NUL
    /// is refused.
    pub fn build(
        provider: Option<&str>,
        model: &str,
        num_threads: Option<i32>,
        debug: Option<bool>,
    ) -> (r: Result<PunctuationConfig, ConfigError>)
        ensures
            r is Ok <==> PunctuationConfigView::representable(text_of(provider), model@),
            r is Ok ==> r->Ok_0@ == PunctuationConfigView::assemble(
                text_of(provider),
                model@,
                num_threads,
                debug,
            ),
            r is Err ==> r->Err_0 == ConfigError::EmbeddedNul,
    {
        let ct_transformer = match CText::new(model) {
            Ok(t) => t,
            Err(e) => {
                return Err(e);
            },
        };
        let provider = match CText::new(
            match provider {
                Some(p) => p,
                None => get_default_provider(),
            },
        ) {
            Ok(t) => t,
            Err(e) => {
                return Err(e);
            },
        };
        Ok(
            PunctuationConfig {
                ct_transformer,
                num_threads: match num_threads {
                    Some(n) => n,
                    None => DEFAULT_NUM_THREADS,
                },
                debug: match debug {
                    Some(d) => d,
                    None => true,
                },
                provider,
            },
        )
    }
}

/// A punctuation engine, as far as an adder needs it. Nothing is taken for
/// granted of what its methods return.
pub trait PunctuationEngine: Sized {
    /// Builds the engine from `config`, if it can be built.
    fn create(config: &PunctuationConfig) -> Option<Self>;

    /// `text` with punctuation.
    fn add_punct(&mut self, text: &str) -> String
        requires
            !has_nul(text@),
    ;
}

/// A punctuation engine, ready for text.
pub struct PunctuationAdder<E: PunctuationEngine> {
    adder: E,
    config: PunctuationConfig,
}

impl<E: PunctuationEngine> PunctuationAdder<E> {
    /// The configuration that the engine was built from.
    pub closed spec fn config_view(&self) -> PunctuationConfigView {
        self.config@
    }

    /// Makes an adder of what the engine gave for `config`.
    pub fn from_creation(config: PunctuationConfig, made: Option<E>) -> (r: Result<Self, Error>)
        ensures
            r is Ok <==> made is Some,
            r is Ok ==> r->Ok_0.config_view() == config@,
            r is Err ==> r->Err_0 == Error::EngineCreation,
    {
        match made {
            Some(adder) => Ok(PunctuationAdder { adder, config }),
            None => Err(Error::EngineCreation),
        }
    }

    /// An adder on the model at `model`. A text with a NUL is refused; else
    /// the engine decides, and an adder that comes back holds the
    /// configuration made of the inputs.
    pub fn new(
        provider: Option<&str>,
        model: &str,
        num_threads: Option<i32>,
        debug: Option<bool>,
    ) -> (r: Result<Self, Error>)
        ensures
            !PunctuationConfigView::representable(text_of(provider), model@) <==> r is Err
                && r->Err_0 is Config,
            r is Err && r->Err_0 is Config ==> r->Err_0 == Error::Config(
                ConfigError::EmbeddedNul,
            ),
            r is Err && !(r->Err_0 is Config) ==> r->Err_0 == Error::EngineCreation,
            r is Ok ==> r->Ok_0.config_view() == PunctuationConfigView::assemble(
                text_of(provider),
                model@,
                num_threads,
                debug,
            ),
    {
        let config = match PunctuationConfig::build(provider, model, num_threads, debug) {
            Ok(c) => c,
            Err(e) => {
                return Err(Error::Config(e));
            },
        };
        let made = E::create(&config);
        Self::from_creation(config, made)
    }

    /// `text` with the punctuation that the engine adds. A text with a NUL
    /// is refused, and no other.
    pub fn add_punctuation(&mut self, text: &str) -> (r: Result<String, ConfigError>)
        ensures
            r is Err <==> has_nul(text@),
            r is Err ==> r->Err_0 == ConfigError::EmbeddedNul,
            final(self).config_view() == old(self).config_view(),
    {
        let text = match CText::new(text) {
            Ok(t) => t,
            Err(e) => {
                return Err(e);
            },
        };
        Ok(self.adder.add_punct(text.as_str()))
    }
}

} // verus!
