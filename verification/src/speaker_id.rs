//! Speaker embeddings: one vector for one recording, by which speakers are
//! told apart.

use crate::error::ConfigError;
use crate::get_default_provider;
use crate::online::chunk::pieces;
use crate::online::model::{text_of, OnlineModelView};
use crate::online::session::MAX_CHUNK;
use crate::text::{has_nul, CText};
use vstd::prelude::*;

verus! {

/// The similarity, in thousandths, from which two embeddings count as one
/// speaker's.
pub const DEFAULT_SIMILARITY_THRESHOLD: i32 = 500;

/// The thread count that an extractor takes where a caller names none.
pub const DEFAULT_EXTRACTOR_THREADS: i32 = 2;

/// What an embedding extractor is built from.
pub struct ExtractorConfig {
    /// The path of the model.
    pub model: CText,
    /// The tag of the execution provider.
    pub provider: CText,
    pub num_threads: i32,
    pub debug: bool,
}

/// An extractor's configuration as contracts see it.
pub struct ExtractorConfigView {
    pub model: Seq<char>,
    pub provider: Seq<char>,
    pub num_threads: i32,
    pub debug: bool,
}

impl View for ExtractorConfig {
    type V = ExtractorConfigView;

    open spec fn view(&self) -> ExtractorConfigView {
        ExtractorConfigView {
            model: self.model@,
            provider: self.provider@,
            num_threads: self.num_threads,
            debug: self.debug,
        }
    }
}

impl ExtractorConfigView {
    /// The configuration that the given inputs make.
    pub open spec fn assemble(
        model: Seq<char>,
        provider: Option<Seq<char>>,
        num_threads: Option<i32>,
        debug: bool,
    ) -> ExtractorConfigView {
        ExtractorConfigView {
            model,
            provider: OnlineModelView::provider_of(provider),
            num_threads: match num_threads {
                Some(n) => n,
                None => DEFAULT_EXTRACTOR_THREADS,
            },
            debug,
        }
    }
}

impl ExtractorConfig {
    /// Puts an extractor's configuration together. Where no provider is named
    /// the default one is taken, and where no thread count is named, two
    /// threads. A text with a NUL is refused.
    pub fn new(model: &str, provider: Option<&str>, num_threads: Option<i32>, debug: bool) -> (r:
        Result<ExtractorConfig, ConfigError>)
        ensures
            r is Ok <==> !has_nul(model@) && !has_nul(
                OnlineModelView::provider_of(text_of(provider)),
            ),
            r is Ok ==> r->Ok_0@ == ExtractorConfigView::assemble(
                model@,
                text_of(provider),
                num_threads,
                debug,
            ),
            r is Err ==> r->Err_0 == ConfigError::EmbeddedNul,
    {
        let provider = match CText::new(
            match provider {
                Some(p) => p,
                None => get_default_provider(),
            },
        ) {
            Ok(t) => t,
            Err(e) => {
                return Err(e);
            },
        };
        let model = match CText::new(model) {
            Ok(t) => t,
            Err(e) => {
                return Err(e);
            },
        };
        let num_threads = match num_threads {
            Some(n) => n,
            None => DEFAULT_EXTRACTOR_THREADS,
        };
        Ok(ExtractorConfig { model, provider, num_threads, debug })
    }
}

/// Why an extractor was not built.
#[derive(Debug, Clone, Copy, PartialEq, Eq, Structural)]
pub enum ExtractorFailure {
    /// No model is found at the configured path.
    ModelNotFound,
    /// The engine could not be instantiated.
    Engine,
}

/// Why no embedding came back.
#[derive(Debug, Clone, Copy, PartialEq, Eq, Structural)]
pub enum EmbeddingError {
    /// No model is found at the configured path.
    ModelNotFound,
    /// The engine could not be instantiated.
    EngineCreation,
    /// The engine names a size that no vector can have.
    Dimension,
    /// The engine gave no stream.
    StreamCreation,
    /// The recording is too short for the engine to work on.
    NotReady,
    /// The engine computed nothing, or a vector of another size than it named.
    Compute,
}

impl EmbeddingError {
    /// The error that a failed creation is reported as.
    pub open spec fn of_failure(f: ExtractorFailure) -> EmbeddingError {
        match f {
            ExtractorFailure::ModelNotFound => EmbeddingError::ModelNotFound,
            ExtractorFailure::Engine => EmbeddingError::EngineCreation,
        }
    }

    /// Reports a failed creation.
    pub fn from_failure(f: ExtractorFailure) -> (e: EmbeddingError)
        ensures
            e == EmbeddingError::of_failure(f),
    {
        match f {
            ExtractorFailure::ModelNotFound => EmbeddingError::ModelNotFound,
            ExtractorFailure::Engine => EmbeddingError::EngineCreation,
        }
    }
}

/// An embedding engine, as far as an extractor needs it. Nothing is taken for
/// granted of what its methods return.
pub trait EmbeddingEngine: Sized {
    /// One audio sample, and one component of an embedding.
    type Sample;

    /// A stream that takes one recording.
    type Stream;

    /// Builds the engine from `config`.
    fn create(config: &ExtractorConfig) -> Result<Self, ExtractorFailure>;

    /// The size of the embeddings that the engine computes.
    fn dim(&self) -> i32;

    /// Opens a stream, if the engine has one to give.
    fn create_stream(&mut self) -> Option<Self::Stream>;

    /// Appends `samples`, `count` of them, to the audio of `stream`.
    fn accept_waveform(
        &mut self,
        stream: &mut Self::Stream,
        sample_rate: i32,
        samples: Vec<Self::Sample>,
        count: i32,
    )
        requires
            samples.len() <= MAX_CHUNK,
            count == samples.len(),
    ;

    /// Tells `stream` that its recording is complete.
    fn input_finished(&mut self, stream: &mut Self::Stream);

    /// Whether `stream` holds enough audio for an embedding.
    fn is_ready(&mut self, stream: &mut Self::Stream) -> bool;

    /// The embedding of what `stream` holds, as `size` components.
    fn compute_embedding(&mut self, stream: &mut Self::Stream, size: usize) -> Option<
        Vec<Self::Sample>,
    >;

    /// Gives `stream` back to the engine.
    fn destroy_stream(&mut self, stream: Self::Stream);
}

/// An embedding engine and the size of its embeddings.
pub struct EmbeddingExtractor<E: EmbeddingEngine> {
    extractor: E,
    embedding_size: usize,
}

impl<E: EmbeddingEngine> EmbeddingExtractor<E> {
    /// The size of the embeddings that this extractor gives.
    pub closed spec fn size(&self) -> nat {
        self.embedding_size as nat
    }

    /// The size of the embeddings that this extractor gives.
    pub fn embedding_size(&self) -> (n: usize)
        ensures
            n == self.size(),
    {
        self.embedding_size
    }

    /// Makes an extractor of an engine and the size that it names. A size
    /// below zero is refused.
    pub fn from_parts(extractor: E, dim: i32) -> (r: Result<Self, EmbeddingError>)
        ensures
            r is Ok <==> dim >= 0,
            r is Ok ==> r->Ok_0.size() == dim,
            r is Err ==> r->Err_0 == EmbeddingError::Dimension,
    {
        if dim < 0 {
            Err(EmbeddingError::Dimension)
        } else {
            Ok(EmbeddingExtractor { extractor, embedding_size: dim as usize })
        }
    }

    /// Has the engine built from `config`, and asks it for the size of its
    /// embeddings.
    pub fn new_from_config(config: ExtractorConfig) -> (r: Result<Self, EmbeddingError>)
        ensures
            r is Err ==> r->Err_0 == EmbeddingError::ModelNotFound || r->Err_0
                == EmbeddingError::EngineCreation || r->Err_0 == EmbeddingError::Dimension,
    {
        match E::create(&config) {
            Ok(extractor) => {
                let dim = extractor.dim();
                Self::from_parts(extractor, dim)
            },
            Err(f) => Err(EmbeddingError::from_failure(f)),
        }
    }

    /// What is made of the engine's answers for one recording: an embedding
    /// only if the stream was ready and what was computed has `size`
    /// components.
    pub open spec fn concluded(
        ready: bool,
        computed: Option<Seq<E::Sample>>,
        size: nat,
    ) -> Result<Seq<E::Sample>, EmbeddingError> {
        if !ready {
            Err(EmbeddingError::NotReady)
        } else if computed is Some && computed->Some_0.len() == size {
            Ok(computed->Some_0)
        } else {
            Err(EmbeddingError::Compute)
        }
    }

    /// Makes the result of the engine's answers for one recording.
    pub fn conclude(ready: bool, computed: Option<Vec<E::Sample>>, size: usize) -> (r: Result<
        Vec<E::Sample>,
        EmbeddingError,
    >)
        ensures
            match r {
                Ok(v) => Ok(v@),
                Err(e) => Err(e),
            } == Self::concluded(
                ready,
                match computed {
                    Some(v) => Some(v@),
                    None => None,
                },
                size as nat,
            ),
    {
        if !ready {
            return Err(EmbeddingError::NotReady);
        }
        match computed {
            Some(v) => {
                if v.len() == size {
                    Ok(v)
                } else {
                    Err(EmbeddingError::Compute)
                }
            },
            None => Err(EmbeddingError::Compute),
        }
    }

    /// Whether `stream` holds enough audio for an embedding.
    pub fn is_ready(&mut self, stream: &mut E::Stream) -> (r: bool)
        ensures
            final(self).size() == old(self).size(),
    {
        self.extractor.is_ready(stream)
    }

    /// The embedding of one recording, of any length. The stream that is
    /// opened for it is given back to the engine however the call ends.
    pub fn compute_speaker_embedding(&mut self, sample_rate: i32, samples: Vec<E::Sample>) -> (r:
        Result<Vec<E::Sample>, EmbeddingError>)
        ensures
            final(self).size() == old(self).size(),
            r is Ok ==> r->Ok_0.len() == old(self).size(),
            r is Err ==> r->Err_0 == EmbeddingError::StreamCreation || r->Err_0
                == EmbeddingError::NotReady || r->Err_0 == EmbeddingError::Compute,
    {
        let mut stream = match self.extractor.create_stream() {
            Some(s) => s,
            None => {
                return Err(EmbeddingError::StreamCreation);
            },
        };
        let parts = pieces(samples, MAX_CHUNK);
        for part in it: parts
            invariant
                self.size() == old(self).size(),
                forall|i: int|
                    0 <= i < it.seq().len() ==> (#[trigger] it.seq()[i]).len() <= MAX_CHUNK,
        {
            let count = part.len() as i32;
            self.extractor.accept_waveform(&mut stream, sample_rate, part, count);
        }
        self.extractor.input_finished(&mut stream);
        let ready = self.extractor.is_ready(&mut stream);
        let computed = if ready {
            self.extractor.compute_embedding(&mut stream, self.embedding_size)
        } else {
            None
        };
        self.extractor.destroy_stream(stream);
        Self::conclude(ready, computed, self.embedding_size)
    }
}

} // verus!
