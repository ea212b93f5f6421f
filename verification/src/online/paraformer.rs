//! The files of a streaming paraformer model.

use crate::error::ConfigError;
use crate::text::{has_nul, CText};
use vstd::prelude::*;

verus! {

/// The paths of a paraformer's two networks.
pub struct Paraformer {
    pub encoder: CText,
    pub decoder: CText,
}

/// A paraformer's paths as contracts see them.
pub struct ParaformerView {
    pub encoder: Seq<char>,
    pub decoder: Seq<char>,
}

impl View for Paraformer {
    type V = ParaformerView;

    open spec fn view(&self) -> ParaformerView {
        ParaformerView { encoder: self.encoder@, decoder: self.decoder@ }
    }
}

impl Paraformer {
    /// The tag of this model family.
    pub open spec fn tag() -> Seq<char> {
        "paraformer"@
    }

    /// Takes the two paths as they stand. A path with a NUL is refused; that
    /// the files exist is not looked into.
    pub fn new(encoder: &str, decoder: &str) -> (r: Result<Paraformer, ConfigError>)
        ensures
            r is Err <==> has_nul(encoder@) || has_nul(decoder@),
            r is Err ==> r->Err_0 == ConfigError::EmbeddedNul,
            r is Ok ==> r->Ok_0@ == (ParaformerView { encoder: encoder@, decoder: decoder@ }),
    {
        let encoder = match CText::new(encoder) {
            Ok(t) => t,
            Err(e) => {
                return Err(e);
            },
        };
        let decoder = match CText::new(decoder) {
            Ok(t) => t,
            Err(e) => {
                return Err(e);
            },
        };
        Ok(Paraformer { encoder, decoder })
    }

    /// The tag of this model family.
    pub fn model_type(&self) -> (r: &'static str)
        ensures
            r@ == Paraformer::tag(),
    {
        "paraformer"
    }
}

} // verus!
