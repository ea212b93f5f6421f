//! What every streaming session offers.

pub mod keyword_spotter;
pub mod recognizer;

use crate::error::{ConfigError, DecodeError};
use crate::online::session::{Phase, SessionView};
use vstd::prelude::*;

verus! {

/// A decoding session: audio goes in chunk by chunk, decode steps are drained,
/// and the current result is read.
///
/// Besides its account a session keeps three logs of what it has told its
/// caller: every answer to "is a step pending?", every result that was read,
/// and every answer to "has the utterance ended?". They let a caller's
/// contract say which answers it acted on.
pub trait OnlineStream {
    /// One audio sample.
    type Sample;

    /// The session's account of itself.
    spec fn session(&self) -> SessionView;

    /// The audio that the engine has been handed since the session was made,
    /// in order. A reset takes nothing back from it.
    spec fn heard(&self) -> Seq<Self::Sample>;

    /// What `is_ready` has answered since the session was made, in order.
    spec fn answers(&self) -> Seq<bool>;

    /// What `get_result` has given since the session was made, in order.
    spec fn reads(&self) -> Seq<Seq<char>>;

    /// What the session has answered to "has the utterance ended?" since it
    /// was made, in order. A session that is not cut into utterances is never
    /// asked.
    spec fn endpoints(&self) -> Seq<bool>;

    /// That the account is well formed, always.
    proof fn session_wf(&self)
        ensures
            self.session().wf(),
    ;

    /// Appends a chunk, of any length, to the session's audio: the engine is
    /// handed all of it, in order. A chunk at another rate than the engine's
    /// is refused and changes nothing.
    fn accept_waveform(&mut self, sample_rate: i32, samples: Vec<Self::Sample>) -> (r: Result<
        (),
        ConfigError,
    >)
        ensures
            SessionView::admits(sample_rate) <==> r is Ok,
            r is Ok ==> final(self).session() == old(self).session().accepted(
                samples.len() as nat,
            ),
            r is Ok ==> final(self).heard() == old(self).heard() + samples@,
            r is Err ==> r->Err_0 == ConfigError::SampleRateMismatch && final(self).session()
                == old(self).session() && final(self).heard() == old(self).heard(),
            final(self).answers() == old(self).answers(),
            final(self).reads() == old(self).reads(),
            final(self).endpoints() == old(self).endpoints(),
    ;

    /// Runs one decode step. Only a session that is ready may be stepped. A
    /// step that the engine fails at is spent all the same.
    fn decode_stream(&mut self) -> (r: Result<(), DecodeError>)
        requires
            old(self).session().phase() == Phase::Ready,
        ensures
            final(self).session() == old(self).session().stepped(r is Ok),
            final(self).heard() == old(self).heard(),
            final(self).answers() == old(self).answers(),
            final(self).reads() == old(self).reads(),
            final(self).endpoints() == old(self).endpoints(),
    ;

    /// The current result. Until something has been decoded it is empty.
    fn get_result(&mut self) -> (r: String)
        ensures
            final(self).session() == old(self).session(),
            final(self).heard() == old(self).heard(),
            !old(self).session().decoded ==> r@ == Seq::<char>::empty(),
            final(self).reads() == old(self).reads().push(r@),
            final(self).answers() == old(self).answers(),
            final(self).endpoints() == old(self).endpoints(),
    ;

    /// Whether a decode step is pending. Nothing is pending while nothing is
    /// buffered.
    fn is_ready(&mut self) -> (r: bool)
        ensures
            old(self).session().buffered == 0 ==> !r,
            final(self).session() == (SessionView { ready: r, ..old(self).session() }),
            final(self).heard() == old(self).heard(),
            final(self).answers() == old(self).answers().push(r),
            final(self).reads() == old(self).reads(),
            final(self).endpoints() == old(self).endpoints(),
    ;
}

/// A session that is cut into utterances.
pub trait Segmentable: OnlineStream {
    /// Whether the session stands at the end of an utterance.
    fn is_endpoint(&mut self) -> (r: bool)
        ensures
            final(self).session() == old(self).session(),
            final(self).heard() == old(self).heard(),
            final(self).endpoints() == old(self).endpoints().push(r),
            final(self).answers() == old(self).answers(),
            final(self).reads() == old(self).reads(),
    ;

    /// Clears the session, whatever it held: nothing is buffered and nothing
    /// is reported until audio is accepted and decoded again.
    fn reset(&mut self)
        ensures
            final(self).session() == old(self).session().cleared(),
            final(self).heard() == old(self).heard(),
            final(self).answers() == old(self).answers(),
            final(self).reads() == old(self).reads(),
            final(self).endpoints() == old(self).endpoints(),
    ;
}

/// What a drain did.
#[derive(Debug, Clone, Copy, PartialEq, Eq, Structural)]
pub struct Drained {
    /// The decode steps that were taken.
    pub steps: u64,
    /// Those among them that the engine failed at.
    pub failed: u64,
}

/// Whether the answers `after` are the answers `before` and then those of
/// one drain: a yes before every step that was taken, and a no at the end.
pub open spec fn drained(before: Seq<bool>, after: Seq<bool>) -> bool {
    &&& after.len() > before.len()
    &&& after.take(before.len() as int) == before
    &&& forall|i: int| before.len() <= i < after.len() - 1 ==> after[i]
    &&& !after.last()
}

/// Runs decode steps for as long as one is pending: the session is asked
/// before every step and once more after the last, a step is taken on every
/// yes, and the drain ends on the first no. A step that the engine fails at
/// is counted and skipped. Each step is charged one buffered sample, so the
/// steps end.
pub fn drain<S: OnlineStream>(stream: &mut S) -> (d: Drained)
    ensures
        final(stream).session().phase() != Phase::Ready,
        final(stream).session().buffered + d.steps == old(stream).session().buffered,
        d.failed <= d.steps,
        final(stream).session().decoded == (old(stream).session().decoded || d.failed
            < d.steps),
        final(stream).session().resets == old(stream).session().resets,
        final(stream).heard() == old(stream).heard(),
        drained(old(stream).answers(), final(stream).answers()),
        final(stream).answers().len() == old(stream).answers().len() + d.steps + 1,
        final(stream).reads() == old(stream).reads(),
        final(stream).endpoints() == old(stream).endpoints(),
{
    let mut steps: u64 = 0;
    let mut failed: u64 = 0;
    let ghost start = stream.session();
    let ghost heard = stream.heard();
    let ghost asked = stream.answers();
    let ghost reads = stream.reads();
    let ghost endpoints = stream.endpoints();
    proof {
        stream.session_wf();
    }
    let mut ready = stream.is_ready();
    proof {
        assert(stream.answers().take(asked.len() as int) =~= asked);
    }
    while ready
        invariant
            start.wf(),
            stream.session().ready == ready,
            stream.session().buffered + steps == start.buffered,
            failed <= steps,
            stream.session().decoded == (start.decoded || failed < steps),
            stream.session().resets == start.resets,
            stream.heard() == heard,
            stream.reads() == reads,
            stream.endpoints() == endpoints,
            stream.answers().len() == asked.len() + steps + 1,
            stream.answers().take(asked.len() as int) == asked,
            forall|i: int| asked.len() <= i < stream.answers().len() - 1 ==> stream.answers()[i],
            stream.answers().last() == ready,
        decreases stream.session().buffered,
    {
        proof {
            stream.session_wf();
        }
        let ghost before = stream.answers();
        let done = stream.decode_stream();
        steps = steps + 1;
        if done.is_err() {
            failed = failed + 1;
        }
        ready = stream.is_ready();
        proof {
            assert(stream.answers().take(asked.len() as int) =~= before.take(asked.len() as int));
        }
    }
    Drained { steps, failed }
}

} // verus!
