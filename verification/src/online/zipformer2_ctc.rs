//! The file of a streaming zipformer2 CTC model.

use crate::error::ConfigError;
use crate::text::{has_nul, CText};
use vstd::prelude::*;

verus! {

/// The path of a zipformer2 CTC model's one network.
pub struct Zipformer2Ctc {
    pub model: CText,
}

/// A zipformer2 CTC model's path as contracts see it.
pub struct Zipformer2CtcView {
    pub model: Seq<char>,
}

impl View for Zipformer2Ctc {
    type V = Zipformer2CtcView;

    open spec fn view(&self) -> Zipformer2CtcView {
        Zipformer2CtcView { model: self.model@ }
    }
}

impl Zipformer2Ctc {
    /// The tag of this model family.
    pub open spec fn tag() -> Seq<char> {
        "zipformer2_ctc"@
    }

    /// Takes the path as it stands. A path with a NUL is refused; that the
    /// file exists is not looked into.
    pub fn new(model: &str) -> (r: Result<Zipformer2Ctc, ConfigError>)
        ensures
            r is Err <==> has_nul(model@),
            r is Err ==> r->Err_0 == ConfigError::EmbeddedNul,
            r is Ok ==> r->Ok_0@ == (Zipformer2CtcView { model: model@ }),
    {
        match CText::new(model) {
            Ok(model) => Ok(Zipformer2Ctc { model }),
            Err(e) => Err(e),
        }
    }

    /// The tag of this model family.
    pub fn model_type(&self) -> (r: &'static str)
        ensures
            r@ == Zipformer2Ctc::tag(),
    {
        "zipformer2_ctc"
    }
}

} // verus!
