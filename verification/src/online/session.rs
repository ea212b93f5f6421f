//! The library's own account of one decoding session.
//!
//! The inference engine keeps the audio and the hypothesis. What is kept here
//! is what the library must know to hold the engine to its calling order: how
//! much audio has gone in and is not yet charged to a decode step, whether the
//! engine has said that a step is pending, and whether anything has been
//! decoded since the session was last fresh.

use crate::error::ConfigError;
use vstd::prelude::*;

verus! {

/// The only sample rate at which audio is taken, in Hz.
pub const SAMPLE_RATE: i32 = 16000;

/// The most samples that one call can tell the engine of.
pub const MAX_CHUNK: usize = 0x7fff_ffff;

/// Where a session stands.
#[derive(Debug, Clone, Copy, PartialEq, Eq, Structural)]
pub enum Phase {
    /// Nothing is buffered.
    Idle,
    /// Audio is buffered, and no decode step is known to be pending.
    Buffering,
    /// The engine has said that at least one decode step is pending.
    Ready,
}

/// A session as contracts see it.
pub struct SessionView {
    /// Samples accepted and not yet charged to a decode step. Every step
    /// consumes at least one sample, so this bounds the steps that are left.
    pub buffered: nat,
    /// The engine has answered that a step is pending, and none was taken since.
    pub ready: bool,
    /// A decode step has run since the session was last fresh.
    pub decoded: bool,
    /// How often the session has been reset.
    pub resets: nat,
}

impl SessionView {
    /// A session that has seen no audio and was never reset.
    pub open spec fn fresh() -> SessionView {
        SessionView { buffered: 0, ready: false, decoded: false, resets: 0 }
    }

    /// Whether the session holds nothing: no audio, no pending step, nothing
    /// decoded.
    pub open spec fn is_clear(self) -> bool {
        self.buffered == 0 && !self.ready && !self.decoded
    }

    /// The session after a reset.
    pub open spec fn cleared(self) -> SessionView {
        SessionView { buffered: 0, ready: false, decoded: false, resets: self.resets + 1 }
    }

    /// What holds of every session: a step is pending only while audio is
    /// buffered, and the count of buffered samples fits a `u64`.
    pub open spec fn wf(self) -> bool {
        &&& self.ready ==> self.buffered > 0
        &&& self.buffered <= u64::MAX
    }

    /// Where the session stands.
    pub open spec fn phase(self) -> Phase {
        if self.buffered == 0 {
            Phase::Idle
        } else if self.ready {
            Phase::Ready
        } else {
            Phase::Buffering
        }
    }

    /// Whether a chunk at `sample_rate` is taken. Its length does not matter.
    pub open spec fn admits(sample_rate: i32) -> bool {
        sample_rate == SAMPLE_RATE
    }

    /// The session after `len` more samples went in. The count stops at the
    /// largest `u64`.
    pub open spec fn accepted(self, len: nat) -> SessionView {
        SessionView {
            buffered: if self.buffered + len > u64::MAX {
                u64::MAX as nat
            } else {
                self.buffered + len
            },
            ..self
        }
    }

    /// What the session answers to "is a step pending?" when the engine
    /// answers `engine_ready`: nothing is pending while nothing is buffered.
    pub open spec fn answers_ready(self, engine_ready: bool) -> bool {
        self.buffered > 0 && engine_ready
    }

    /// The session after that answer.
    pub open spec fn observed(self, engine_ready: bool) -> SessionView {
        SessionView { ready: self.answers_ready(engine_ready), ..self }
    }

    /// The session after one decode step, which the engine completed or
    /// did not. Either way the step is charged one buffered sample.
    pub open spec fn stepped(self, completed: bool) -> SessionView
        recommends
            self.phase() == Phase::Ready,
    {
        SessionView {
            buffered: (self.buffered - 1) as nat,
            ready: false,
            decoded: self.decoded || completed,
            ..self
        }
    }

    /// The text that the session reports when the engine holds `engine_text`:
    /// nothing until something has been decoded.
    pub open spec fn reports(self, engine_text: Seq<char>) -> Seq<char> {
        if self.decoded {
            engine_text
        } else {
            Seq::empty()
        }
    }
}

/// The session after chunks of the given lengths went in, one after another.
pub open spec fn accepted_all(s: SessionView, lens: Seq<nat>) -> SessionView
    decreases lens.len(),
{
    if lens.len() == 0 {
        s
    } else {
        accepted_all(s.accepted(lens.first()), lens.drop_first())
    }
}

/// The samples that chunks of the given lengths hold together.
pub open spec fn total(lens: Seq<nat>) -> nat
    decreases lens.len(),
{
    if lens.len() == 0 {
        0
    } else {
        lens.first() + total(lens.drop_first())
    }
}

/// How audio is cut into chunks makes no difference to the session's
/// account: many chunks in a row leave what one chunk of their joint length
/// leaves.
pub proof fn lemma_chunking_invariance(s: SessionView, lens: Seq<nat>)
    requires
        s.wf(),
    ensures
        accepted_all(s, lens) == s.accepted(total(lens)),
        accepted_all(s, lens).wf(),
    decreases lens.len(),
{
    if lens.len() > 0 {
        lemma_chunking_invariance(s.accepted(lens.first()), lens.drop_first());
    }
}

/// A reset clears the session, whatever it held: nothing is pending and
/// nothing is reported, whatever the engine would say, and asking changes
/// nothing of that. Audio that is accepted afterwards is still not reported
/// on before a decode step has run.
pub proof fn lemma_reset_clears(s: SessionView, engine_ready: bool, engine_text: Seq<char>, len: nat)
    ensures
        s.cleared().wf(),
        s.cleared().phase() == Phase::Idle,
        !s.cleared().answers_ready(engine_ready),
        s.cleared().reports(engine_text) == Seq::<char>::empty(),
        s.cleared().observed(engine_ready) == s.cleared(),
        s.cleared().accepted(len).reports(engine_text) == Seq::<char>::empty(),
        s.cleared().accepted(len).observed(engine_ready).reports(engine_text) == Seq::<
            char,
        >::empty(),
{
}

/// The account of one session.
pub struct Session {
    buffered: u64,
    ready: bool,
    decoded: bool,
    resets: Ghost<nat>,
}

impl View for Session {
    type V = SessionView;

    closed spec fn view(&self) -> SessionView {
        SessionView {
            buffered: self.buffered as nat,
            ready: self.ready && self.buffered > 0,
            decoded: self.decoded,
            resets: self.resets@,
        }
    }
}

/// That every session's account is well formed.
pub proof fn lemma_session_wf(s: &Session)
    ensures
        s@.wf(),
{
}

impl Session {
    #[verifier::type_invariant]
    spec fn inv(&self) -> bool {
        self.ready ==> self.buffered > 0
    }

    /// A fresh session.
    pub fn new() -> (s: Session)
        ensures
            s@ == SessionView::fresh(),
    {
        Session { buffered: 0, ready: false, decoded: false, resets: Ghost(0) }
    }

    /// Where the session stands.
    pub fn phase(&self) -> (p: Phase)
        ensures
            p == self@.phase(),
    {
        proof {
            use_type_invariant(self);
        }
        if self.buffered == 0 {
            Phase::Idle
        } else if self.ready {
            Phase::Ready
        } else {
            Phase::Buffering
        }
    }

    /// Whether a decode step has run since the session was last fresh.
    pub fn has_decoded(&self) -> (d: bool)
        ensures
            d == self@.decoded,
    {
        self.decoded
    }

    /// Takes note of a chunk of `len` samples at `sample_rate`, or refuses it
    /// for its rate.
    pub fn accept(&mut self, sample_rate: i32, len: usize) -> (r: Result<(), ConfigError>)
        ensures
            SessionView::admits(sample_rate) <==> r is Ok,
            r is Ok ==> final(self)@ == old(self)@.accepted(len as nat),
            r is Err ==> r->Err_0 == ConfigError::SampleRateMismatch && final(self)@ == old(self)@,
    {
        if sample_rate != SAMPLE_RATE {
            return Err(ConfigError::SampleRateMismatch);
        }
        proof {
            use_type_invariant(&*self);
        }
        let room: u64 = u64::MAX - self.buffered;
        let more: u64 = len as u64;
        if more > room {
            self.buffered = u64::MAX;
        } else {
            self.buffered = self.buffered + more;
        }
        Ok(())
    }

    /// Whether the engine need be asked at all: while nothing is buffered no
    /// step is pending, whatever it would say.
    pub fn may_be_ready(&self) -> (r: bool)
        ensures
            r == (self@.buffered > 0),
    {
        self.buffered > 0
    }

    /// Takes note of the engine's answer to "is a step pending?" and gives the
    /// session's own.
    pub fn observe_ready(&mut self, engine_ready: bool) -> (r: bool)
        ensures
            r == old(self)@.answers_ready(engine_ready),
            final(self)@ == old(self)@.observed(engine_ready),
    {
        let r = self.buffered > 0 && engine_ready;
        self.ready = r;
        r
    }

    /// Takes note of one decode step, which the engine completed or did not.
    pub fn step(&mut self, completed: bool)
        requires
            old(self)@.phase() == Phase::Ready,
        ensures
            final(self)@ == old(self)@.stepped(completed),
    {
        self.ready = false;
        self.buffered = self.buffered - 1;
        self.decoded = self.decoded || completed;
    }

    /// The text to report when the engine holds `engine_text`.
    pub fn report(&self, engine_text: String) -> (r: String)
        ensures
            r@ == self@.reports(engine_text@),
    {
        if self.decoded {
            engine_text
        } else {
            String::new()
        }
    }

    /// Clears the session, whatever it held.
    pub fn reset(&mut self)
        ensures
            final(self)@ == old(self)@.cleared(),
    {
        self.ready = false;
        self.buffered = 0;
        self.decoded = false;
        self.resets = Ghost((self.resets@ + 1) as nat);
    }
}

} // verus!
