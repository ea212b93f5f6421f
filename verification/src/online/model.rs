//! The acoustic model that an engine is built on, and what every engine is
//! told besides.

use crate::error::ConfigError;
use crate::online::paraformer::{Paraformer, ParaformerView};
use crate::online::session::SAMPLE_RATE;
use crate::online::transducer::{Transducer, TransducerView};
use crate::online::zipformer2_ctc::{Zipformer2Ctc, Zipformer2CtcView};
use crate::text::{has_nul, CText};
use crate::{get_default_provider, Provider};
use vstd::prelude::*;

verus! {

/// The dimension of the features that every model here is fed.
pub const FEATURE_DIM: i32 = 80;

/// The thread count that is taken where a caller names none.
pub const DEFAULT_NUM_THREADS: i32 = 1;

/// A decimal number, held as a whole count of thousandths.
#[derive(Debug, Clone, Copy, PartialEq, Eq, Structural)]
pub struct Thousandths(pub i32);

/// How audio is turned into features.
#[derive(Debug, Clone, Copy, PartialEq, Eq, Structural)]
pub struct FeatureConfig {
    pub sample_rate: i32,
    pub feature_dim: i32,
}

impl FeatureConfig {
    /// The one feature configuration in use.
    pub open spec fn standard() -> FeatureConfig {
        FeatureConfig { sample_rate: SAMPLE_RATE, feature_dim: FEATURE_DIM }
    }

    /// The one feature configuration in use.
    pub fn new() -> (r: FeatureConfig)
        ensures
            r == FeatureConfig::standard(),
    {
        FeatureConfig { sample_rate: SAMPLE_RATE, feature_dim: FEATURE_DIM }
    }
}

/// The files of one acoustic model, of exactly one family.
pub enum ModelBackendConfig {
    Transducer(Transducer),
    Paraformer(Paraformer),
    Zipformer2Ctc(Zipformer2Ctc),
}

/// A model's files as contracts see them.
pub enum ModelBackendView {
    Transducer(TransducerView),
    Paraformer(ParaformerView),
    Zipformer2Ctc(Zipformer2CtcView),
}

impl ModelBackendView {
    /// The tag of the model's family.
    pub open spec fn tag(self) -> Seq<char> {
        match self {
            ModelBackendView::Transducer(_) => Transducer::tag(),
            ModelBackendView::Paraformer(_) => Paraformer::tag(),
            ModelBackendView::Zipformer2Ctc(_) => Zipformer2Ctc::tag(),
        }
    }

    /// The path that the engine finds under the transducer's encoder. It is
    /// empty unless the model is a transducer.
    pub open spec fn transducer_encoder(self) -> Seq<char> {
        match self {
            ModelBackendView::Transducer(t) => t.encoder,
            _ => Seq::empty(),
        }
    }

    /// The path that the engine finds under the paraformer's encoder. It is
    /// empty unless the model is a paraformer.
    pub open spec fn paraformer_encoder(self) -> Seq<char> {
        match self {
            ModelBackendView::Paraformer(p) => p.encoder,
            _ => Seq::empty(),
        }
    }

    /// The path that the engine finds under the zipformer2 CTC model. It is
    /// empty unless the model is one.
    pub open spec fn zipformer2_ctc_model(self) -> Seq<char> {
        match self {
            ModelBackendView::Zipformer2Ctc(z) => z.model,
            _ => Seq::empty(),
        }
    }
}

impl View for ModelBackendConfig {
    type V = ModelBackendView;

    open spec fn view(&self) -> ModelBackendView {
        match self {
            ModelBackendConfig::Transducer(t) => ModelBackendView::Transducer(t@),
            ModelBackendConfig::Paraformer(p) => ModelBackendView::Paraformer(p@),
            ModelBackendConfig::Zipformer2Ctc(z) => ModelBackendView::Zipformer2Ctc(z@),
        }
    }
}

/// How many of the three are given.
pub open spec fn families_given(transducer: bool, paraformer: bool, zipformer2_ctc: bool) -> nat {
    (if transducer {
        1nat
    } else {
        0nat
    }) + (if paraformer {
        1nat
    } else {
        0nat
    }) + (if zipformer2_ctc {
        1nat
    } else {
        0nat
    })
}

impl ModelBackendConfig {
    /// Makes one model of what is given for the three families. Files of
    /// exactly one family make that family's model. Files of two or three
    /// families are refused, and so is nothing at all: no family is ever
    /// picked over another, and no file is silently dropped.
    pub fn select(
        transducer: Option<Transducer>,
        paraformer: Option<Paraformer>,
        zipformer2_ctc: Option<Zipformer2Ctc>,
    ) -> (r: Result<ModelBackendConfig, ConfigError>)
        ensures
            r is Ok <==> families_given(transducer is Some, paraformer is Some, zipformer2_ctc is Some)
                == 1,
            r is Ok && transducer is Some ==> r->Ok_0@ == ModelBackendView::Transducer(
                transducer->Some_0@,
            ),
            r is Ok && paraformer is Some ==> r->Ok_0@ == ModelBackendView::Paraformer(
                paraformer->Some_0@,
            ),
            r is Ok && zipformer2_ctc is Some ==> r->Ok_0@ == ModelBackendView::Zipformer2Ctc(
                zipformer2_ctc->Some_0@,
            ),
            r is Err ==> r->Err_0 == (if families_given(
                transducer is Some,
                paraformer is Some,
                zipformer2_ctc is Some,
            ) == 0 {
                ConfigError::MissingVariant
            } else {
                ConfigError::ConflictingVariant
            }),
    {
        match (transducer, paraformer, zipformer2_ctc) {
            (Some(t), None, None) => Ok(ModelBackendConfig::Transducer(t)),
            (None, Some(p), None) => Ok(ModelBackendConfig::Paraformer(p)),
            (None, None, Some(z)) => Ok(ModelBackendConfig::Zipformer2Ctc(z)),
            (None, None, None) => Err(ConfigError::MissingVariant),
            _ => Err(ConfigError::ConflictingVariant),
        }
    }

    /// The tag of the model's family: it is read off the variant, for every
    /// variant.
    pub fn model_type(&self) -> (r: &'static str)
        ensures
            r@ == self@.tag(),
    {
        match self {
            ModelBackendConfig::Transducer(t) => t.model_type(),
            ModelBackendConfig::Paraformer(p) => p.model_type(),
            ModelBackendConfig::Zipformer2Ctc(z) => z.model_type(),
        }
    }

    /// Whether the model is a zipformer2 CTC model.
    pub fn is_zipformer2_ctc(&self) -> (r: bool)
        ensures
            r == (self@ is Zipformer2Ctc),
    {
        match self {
            ModelBackendConfig::Zipformer2Ctc(_) => true,
            _ => false,
        }
    }
}

/// That a model belongs to exactly one family: of the three paths by which
/// the engine tells the families apart, a model fills at most its own.
pub proof fn lemma_variant_exclusive(m: ModelBackendView)
    ensures
        families_given(m is Transducer, m is Paraformer, m is Zipformer2Ctc) == 1,
        !(m is Transducer) ==> m.transducer_encoder() == Seq::<char>::empty(),
        !(m is Paraformer) ==> m.paraformer_encoder() == Seq::<char>::empty(),
        !(m is Zipformer2Ctc) ==> m.zipformer2_ctc_model() == Seq::<char>::empty(),
{
}

/// The unit in which every model here writes its tokens.
pub open spec fn modeling_unit_tag() -> Seq<char> {
    "cjkchar"@
}

/// What an engine is told of its model.
pub struct OnlineModelConfig {
    pub backend: ModelBackendConfig,
    /// The path of the token vocabulary.
    pub tokens: CText,
    pub num_threads: i32,
    /// The tag of the execution provider.
    pub provider: CText,
    pub debug: bool,
}

/// A model configuration as contracts see it.
pub struct OnlineModelView {
    pub backend: ModelBackendView,
    pub tokens: Seq<char>,
    pub num_threads: i32,
    pub provider: Seq<char>,
    pub debug: bool,
}

impl View for OnlineModelConfig {
    type V = OnlineModelView;

    open spec fn view(&self) -> OnlineModelView {
        OnlineModelView {
            backend: self.backend@,
            tokens: self.tokens@,
            num_threads: self.num_threads,
            provider: self.provider@,
            debug: self.debug,
        }
    }
}

impl OnlineModelView {
    /// The provider that is configured when `provider` is asked for.
    pub open spec fn provider_of(provider: Option<Seq<char>>) -> Seq<char> {
        match provider {
            Some(p) => p,
            None => Provider::Cpu.tag(),
        }
    }

    /// The thread count that is configured when `num_threads` is asked for.
    pub open spec fn threads_of(num_threads: Option<i32>) -> i32 {
        match num_threads {
            Some(n) => n,
            None => DEFAULT_NUM_THREADS,
        }
    }

    /// The configuration that the given inputs make.
    pub open spec fn assemble(
        backend: ModelBackendView,
        tokens: Seq<char>,
        provider: Option<Seq<char>>,
        num_threads: Option<i32>,
        debug: bool,
    ) -> OnlineModelView {
        OnlineModelView {
            backend,
            tokens,
            num_threads: Self::threads_of(num_threads),
            provider: Self::provider_of(provider),
            debug,
        }
    }

    /// Whether the texts among the inputs can be handed to an engine.
    pub open spec fn representable(tokens: Seq<char>, provider: Option<Seq<char>>) -> bool {
        !has_nul(tokens) && !has_nul(Self::provider_of(provider))
    }
}

/// The view of an optional text.
pub open spec fn text_of(s: Option<&str>) -> Option<Seq<char>> {
    match s {
        Some(t) => Some(t@),
        None => None,
    }
}

impl OnlineModelConfig {
    /// Puts a model configuration together. Where no provider is named the
    /// default one is taken, and where no thread count is named, one thread.
    /// A text with a NUL is refused. No file is opened.
    pub fn build(
        backend: ModelBackendConfig,
        tokens: &str,
        provider: Option<&str>,
        num_threads: Option<i32>,
        debug: bool,
    ) -> (r: Result<OnlineModelConfig, ConfigError>)
        ensures
            r is Ok <==> OnlineModelView::representable(tokens@, text_of(provider)),
            r is Ok ==> r->Ok_0@ == OnlineModelView::assemble(
                backend@,
                tokens@,
                text_of(provider),
                num_threads,
                debug,
            ),
            r is Err ==> r->Err_0 == ConfigError::EmbeddedNul,
    {
        let tokens = match CText::new(tokens) {
            Ok(t) => t,
            Err(e) => {
                return Err(e);
            },
        };
        let provider = match CText::new(
            match provider {
                Some(p) => p,
                None => get_default_provider(),
            },
        ) {
            Ok(t) => t,
            Err(e) => {
                return Err(e);
            },
        };
        let num_threads = match num_threads {
            Some(n) => n,
            None => DEFAULT_NUM_THREADS,
        };
        Ok(OnlineModelConfig { backend, tokens, num_threads, provider, debug })
    }

    /// The tag of the model's family.
    pub fn model_type(&self) -> (r: &'static str)
        ensures
            r@ == self@.backend.tag(),
    {
        self.backend.model_type()
    }

    /// The unit in which the model writes its tokens.
    pub fn modeling_unit(&self) -> (r: &'static str)
        ensures
            r@ == modeling_unit_tag(),
    {
        "cjkchar"
    }
}

} // verus!
