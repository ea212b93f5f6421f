//! Streaming speech sessions: live transcription and keyword spotting over an
//! ordered feed of audio chunks, with the inference engine kept behind a trait.

pub mod add_punctuation;
pub mod error;
pub mod keyword_spotting;
pub mod online;
pub mod speaker_id;
pub mod text;
pub mod transcribe;

use crate::error::ConfigError;
use crate::online::session::SAMPLE_RATE;
use vstd::prelude::*;

verus! {

/// The compute path on which the inference engine runs a model.
#[derive(Debug, Clone, Copy, PartialEq, Eq, Structural)]
pub enum Provider {
    Cpu,
    Cuda,
    Coreml,
    Directml,
}

impl Provider {
    /// The tag by which the inference engine knows this provider.
    pub open spec fn tag(self) -> Seq<char> {
        match self {
            Provider::Cpu => "cpu"@,
            Provider::Cuda => "cuda"@,
            Provider::Coreml => "coreml"@,
            Provider::Directml => "directml"@,
        }
    }

    /// The provider's tag.
    pub fn as_str(&self) -> (r: &'static str)
        ensures
            r@ == self.tag(),
    {
        match self {
            Provider::Cpu => "cpu",
            Provider::Cuda => "cuda",
            Provider::Coreml => "coreml",
            Provider::Directml => "directml",
        }
    }

    /// The provider's tag closed by a NUL, as a C API reads it: the address of
    /// the returned text is what is handed to the engine.
    pub fn to_ptr(&self) -> (r: &'static str)
        ensures
            r@ == self.tag().push('\0'),
    {
        proof {
            reveal_strlit("cpu");
            reveal_strlit("cuda");
            reveal_strlit("coreml");
            reveal_strlit("directml");
            reveal_strlit("cpu\0");
            reveal_strlit("cuda\0");
            reveal_strlit("coreml\0");
            reveal_strlit("directml\0");
        }
        let r = match self {
            Provider::Cpu => "cpu\0",
            Provider::Cuda => "cuda\0",
            Provider::Coreml => "coreml\0",
            Provider::Directml => "directml\0",
        };
        assert(r@ =~= self.tag().push('\0'));
        r
    }
}

/// The sample rate of a recording that can be decoded, as the engine is told
/// it: a recording at `sample_rate` Hz is taken only at the one rate in use.
pub fn checked_sample_rate(sample_rate: u32) -> (r: Result<i32, ConfigError>)
    ensures
        r is Ok <==> sample_rate == SAMPLE_RATE,
        r is Ok ==> r->Ok_0 == SAMPLE_RATE,
        r is Err ==> r->Err_0 == ConfigError::SampleRateMismatch,
{
    if sample_rate == 16000 {
        Ok(SAMPLE_RATE)
    } else {
        Err(ConfigError::SampleRateMismatch)
    }
}

/// The provider that is taken where a caller names none.
pub fn get_default_provider() -> (r: &'static str)
    ensures
        r@ == Provider::Cpu.tag(),
{
    "cpu"
}

} // verus!
