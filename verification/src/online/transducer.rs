//! The files of a streaming transducer model.

use crate::error::ConfigError;
use crate::text::{has_nul, CText};
use vstd::prelude::*;

verus! {

/// The paths of a transducer's three networks.
pub struct Transducer {
    pub encoder: CText,
    pub decoder: CText,
    pub joiner: CText,
}

/// A transducer's paths as contracts see them.
pub struct TransducerView {
    pub encoder: Seq<char>,
    pub decoder: Seq<char>,
    pub joiner: Seq<char>,
}

impl View for Transducer {
    type V = TransducerView;

    open spec fn view(&self) -> TransducerView {
        TransducerView { encoder: self.encoder@, decoder: self.decoder@, joiner: self.joiner@ }
    }
}

impl Transducer {
    /// The tag of this model family.
    pub open spec fn tag() -> Seq<char> {
        "transducer"@
    }

    /// Takes the three paths as they stand. A path with a NUL is refused; that
    /// the files exist is not looked into.
    pub fn new(encoder: &str, decoder: &str, joiner: &str) -> (r: Result<Transducer, ConfigError>)
        ensures
            r is Err <==> has_nul(encoder@) || has_nul(decoder@) || has_nul(joiner@),
            r is Err ==> r->Err_0 == ConfigError::EmbeddedNul,
            r is Ok ==> r->Ok_0@ == (TransducerView {
                encoder: encoder@,
                decoder: decoder@,
                joiner: joiner@,
            }),
    {
        let encoder = match CText::new(encoder) {
            Ok(t) => t,
            Err(e) => {
                return Err(e);
            },
        };
        let decoder = match CText::new(decoder) {
            Ok(t) => t,
            Err(e) => {
                return Err(e);
            },
        };
        let joiner = match CText::new(joiner) {
            Ok(t) => t,
            Err(e) => {
                return Err(e);
            },
        };
        Ok(Transducer { encoder, decoder, joiner })
    }

    /// The tag of this model family.
    pub fn model_type(&self) -> (r: &'static str)
        ensures
            r@ == Transducer::tag(),
    {
        "transducer"
    }
}

} // verus!
