//! The decode loop: what a caller does with each chunk of audio.
//!
//! A chunk is accepted, every pending decode step is drained, and the result
//! is read. A decode step that fails is skipped: the loop goes on. A result is shown when it is not empty and differs from the one
//! shown last. On a session that is cut into utterances the end of an
//! utterance closes the segment, if it had a result, and resets the session in
//! any case. Waiting for the next chunk is the caller's part.

use crate::error::ConfigError;
use crate::online::session::{Phase, SessionView};
use crate::online::stream::{drain, drained, OnlineStream, Segmentable};
use vstd::prelude::*;

verus! {

/// What a decode loop remembers from pass to pass, as contracts see it.
pub struct DecodeLoopView {
    /// The result that was shown last.
    pub last_text: Seq<char>,
    /// The number of the segment that is being decoded.
    pub segment_index: nat,
}

/// What one pass over a chunk brought, as contracts see it.
pub struct PassView {
    /// The result to show, where there is a new one.
    pub shown: Option<Seq<char>>,
    /// The segment that the pass closed, where it closed one, with its text.
    pub closed: Option<(nat, Seq<char>)>,
    /// Whether the pass ended an utterance, and so reset the session.
    pub reset: bool,
}

/// The largest segment number that is counted.
pub open spec fn capped(n: nat) -> nat {
    if n > u64::MAX {
        u64::MAX as nat
    } else {
        n
    }
}

impl DecodeLoopView {
    /// A loop that has shown nothing and stands in its first segment.
    pub open spec fn start() -> DecodeLoopView {
        DecodeLoopView { last_text: Seq::empty(), segment_index: 0 }
    }

    /// Whether the result `text` is shown: it is not empty and is not what
    /// was shown last.
    pub open spec fn shows(self, text: Seq<char>) -> bool {
        text.len() > 0 && text != self.last_text
    }

    /// Whether a pass that read `text` closes the segment: the utterance has
    /// ended and has a result.
    pub open spec fn closes(self, text: Seq<char>, endpoint: bool) -> bool {
        endpoint && text.len() > 0
    }

    /// What a pass brings that read `text` and was told `endpoint`.
    pub open spec fn pass(self, text: Seq<char>, endpoint: bool) -> PassView {
        PassView {
            shown: if self.shows(text) {
                Some(text)
            } else {
                None
            },
            closed: if self.closes(text, endpoint) {
                Some((self.segment_index, text))
            } else {
                None
            },
            reset: endpoint,
        }
    }

    /// The loop after such a pass.
    pub open spec fn after(self, text: Seq<char>, endpoint: bool) -> DecodeLoopView {
        DecodeLoopView {
            last_text: if self.shows(text) {
                text
            } else {
                self.last_text
            },
            segment_index: if self.closes(text, endpoint) {
                capped(self.segment_index + 1)
            } else {
                self.segment_index
            },
        }
    }

    /// The loop after a run of passes, each given by what it read and was told.
    pub open spec fn after_all(self, passes: Seq<(Seq<char>, bool)>) -> DecodeLoopView
        decreases passes.len(),
    {
        if passes.len() == 0 {
            self
        } else {
            self.after(passes.first().0, passes.first().1).after_all(passes.drop_first())
        }
    }

    /// The results that such a run shows, in order.
    pub open spec fn shown_in(self, passes: Seq<(Seq<char>, bool)>) -> Seq<Seq<char>>
        decreases passes.len(),
    {
        if passes.len() == 0 {
            Seq::empty()
        } else {
            let first = self.pass(passes.first().0, passes.first().1);
            let rest = self.after(passes.first().0, passes.first().1).shown_in(
                passes.drop_first(),
            );
            match first.shown {
                Some(t) => seq![t] + rest,
                None => rest,
            }
        }
    }
}

/// How many passes of a run close a segment.
pub open spec fn segments_closed(passes: Seq<(Seq<char>, bool)>) -> nat
    decreases passes.len(),
{
    if passes.len() == 0 {
        0
    } else {
        (if passes.first().1 && passes.first().0.len() > 0 {
            1nat
        } else {
            0nat
        }) + segments_closed(passes.drop_first())
    }
}

/// How many passes of a run end an utterance.
pub open spec fn endpoints_in(passes: Seq<(Seq<char>, bool)>) -> nat
    decreases passes.len(),
{
    if passes.len() == 0 {
        0
    } else {
        (if passes.first().1 {
            1nat
        } else {
            0nat
        }) + endpoints_in(passes.drop_first())
    }
}

/// No result is shown twice in a row: of the results that a run of passes
/// shows, none is empty, the first differs from what was shown before the
/// run, and each differs from the one before it.
pub proof fn lemma_never_shown_twice(start: DecodeLoopView, passes: Seq<(Seq<char>, bool)>)
    ensures
        forall|i: int|
            0 <= i < start.shown_in(passes).len() ==> (#[trigger] start.shown_in(
                passes,
            )[i]).len() > 0,
        start.shown_in(passes).len() > 0 ==> start.shown_in(passes)[0] != start.last_text,
        forall|i: int|
            0 <= i < start.shown_in(passes).len() - 1 ==> #[trigger] start.shown_in(passes)[i]
                != start.shown_in(passes)[i + 1],
    decreases passes.len(),
{
    if passes.len() > 0 {
        let text = passes.first().0;
        let next = start.after(text, passes.first().1);
        let rest = next.shown_in(passes.drop_first());
        lemma_never_shown_twice(next, passes.drop_first());
        let all = start.shown_in(passes);
        if start.shows(text) {
            assert(all == seq![text] + rest);
            assert(all[0] == text);
            assert forall|i: int| 0 <= i < all.len() implies (#[trigger] all[i]).len() > 0 by {
                if i > 0 {
                    assert(all[i] == rest[i - 1]);
                }
            }
            assert forall|i: int| 0 <= i < all.len() - 1 implies #[trigger] all[i] != all[i
                + 1] by {
                assert(all[i + 1] == rest[i]);
                if i > 0 {
                    assert(all[i] == rest[i - 1]);
                }
            }
        } else {
            assert(all == rest);
        }
    }
}

/// Segments are counted once for each utterance that ends with a result: a
/// run of passes moves the segment number on by the number of its passes
/// that close a segment, as far as the largest number that is counted, and
/// no more passes close a segment than utterances end in the run.
pub proof fn lemma_one_segment_per_utterance(start: DecodeLoopView, passes: Seq<(Seq<char>, bool)>)
    requires
        start.segment_index <= u64::MAX,
    ensures
        start.after_all(passes).segment_index == capped(
            start.segment_index + segments_closed(passes),
        ),
        segments_closed(passes) <= endpoints_in(passes) <= passes.len(),
    decreases passes.len(),
{
    if passes.len() > 0 {
        let next = start.after(passes.first().0, passes.first().1);
        lemma_one_segment_per_utterance(next, passes.drop_first());
    }
}

/// What a decode loop remembers from pass to pass.
pub struct DecodeLoop {
    last_text: String,
    segment_index: u64,
}

impl View for DecodeLoop {
    type V = DecodeLoopView;

    closed spec fn view(&self) -> DecodeLoopView {
        DecodeLoopView { last_text: self.last_text@, segment_index: self.segment_index as nat }
    }
}

/// What one pass over a chunk brought.
pub struct Pass {
    /// The result to show, where there is a new one.
    pub shown: Option<String>,
    /// The segment that the pass closed, where it closed one, with its text.
    pub closed: Option<(u64, String)>,
    /// Whether the pass ended an utterance, and so reset the session.
    pub reset: bool,
}

impl View for Pass {
    type V = PassView;

    open spec fn view(&self) -> PassView {
        PassView {
            shown: match self.shown {
                Some(t) => Some(t@),
                None => None,
            },
            closed: match self.closed {
                Some((i, t)) => Some((i as nat, t@)),
                None => None,
            },
            reset: self.reset,
        }
    }
}

impl DecodeLoop {
    /// A loop that has shown nothing and stands in its first segment.
    pub fn new() -> (r: DecodeLoop)
        ensures
            r@ == DecodeLoopView::start(),
    {
        DecodeLoop { last_text: String::new(), segment_index: 0 }
    }

    /// The result that was shown last.
    pub fn last_text(&self) -> (r: &str)
        ensures
            r@ == self@.last_text,
    {
        self.last_text.as_str()
    }

    /// The number of the segment that is being decoded.
    pub fn segment_index(&self) -> (r: u64)
        ensures
            r == self@.segment_index,
    {
        self.segment_index
    }

    /// Takes note of the result `text`, read after a drain, and gives it back
    /// where it is to be shown.
    pub fn note_result(&mut self, text: &str) -> (r: Option<String>)
        ensures
            final(self)@ == old(self)@.after(text@, false),
            match r {
                Some(t) => Some(t@),
                None => None,
            } == old(self)@.pass(text@, false).shown,
    {
        let candidate = text.to_owned();
        if text.is_empty() || candidate == self.last_text {
            None
        } else {
            self.last_text = candidate.clone();
            Some(candidate)
        }
    }

    /// Takes note of what a pass read and was told, and gives what it brings.
    pub fn note(&mut self, text: String, endpoint: bool) -> (r: Pass)
        ensures
            final(self)@ == old(self)@.after(text@, endpoint),
            r@ == old(self)@.pass(text@, endpoint),
    {
        let shown = self.note_result(text.as_str());
        let closed = if endpoint && !text.as_str().is_empty() {
            let index = self.segment_index;
            if self.segment_index < u64::MAX {
                self.segment_index = self.segment_index + 1;
            }
            Some((index, text))
        } else {
            None
        };
        Pass { shown, closed, reset: endpoint }
    }

    /// One pass on a session that is not cut into utterances: accepts the
    /// chunk, drains the pending decode steps until the session says that
    /// none is left, reads the result once, and gives it where it is to be
    /// shown. A chunk that the session refuses changes nothing.
    pub fn feed<S: OnlineStream>(
        &mut self,
        stream: &mut S,
        sample_rate: i32,
        samples: Vec<S::Sample>,
    ) -> (r: Result<Option<String>, ConfigError>)
        ensures
            r is Ok <==> SessionView::admits(sample_rate),
            final(stream).endpoints() == old(stream).endpoints(),
            r is Err ==> {
                &&& r->Err_0 == ConfigError::SampleRateMismatch
                &&& final(self)@ == old(self)@
                &&& final(stream).session() == old(stream).session()
                &&& final(stream).heard() == old(stream).heard()
                &&& final(stream).answers() == old(stream).answers()
                &&& final(stream).reads() == old(stream).reads()
            },
            r is Ok ==> {
                &&& final(stream).heard() == old(stream).heard() + samples@
                &&& final(stream).session().phase() != Phase::Ready
                &&& final(stream).session().resets == old(stream).session().resets
                &&& drained(old(stream).answers(), final(stream).answers())
                &&& final(stream).reads().len() == old(stream).reads().len() + 1
                &&& final(stream).reads().drop_last() == old(stream).reads()
                &&& final(self)@ == old(self)@.after(final(stream).reads().last(), false)
                &&& match r->Ok_0 {
                    Some(t) => Some(t@),
                    None => None,
                } == old(self)@.pass(final(stream).reads().last(), false).shown
            },
    {
        match stream.accept_waveform(sample_rate, samples) {
            Ok(()) => {},
            Err(e) => {
                return Err(e);
            },
        }
        drain(stream);
        let ghost read = stream.reads();
        let text = stream.get_result();
        proof {
            assert(stream.reads().drop_last() =~= read);
        }
        let shown = self.note_result(text.as_str());
        Ok(shown)
    }

    /// One pass on a session that is cut into utterances: accepts the chunk,
    /// drains the pending decode steps until the session says that none is
    /// left, reads the result once, asks once whether the utterance has
    /// ended, and, where it has, closes the segment if it has a result and
    /// resets the session in any case. A chunk that the session refuses
    /// changes nothing.
    pub fn feed_segmented<S: Segmentable>(
        &mut self,
        stream: &mut S,
        sample_rate: i32,
        samples: Vec<S::Sample>,
    ) -> (r: Result<Pass, ConfigError>)
        ensures
            r is Ok <==> SessionView::admits(sample_rate),
            r is Err ==> {
                &&& r->Err_0 == ConfigError::SampleRateMismatch
                &&& final(self)@ == old(self)@
                &&& final(stream).session() == old(stream).session()
                &&& final(stream).heard() == old(stream).heard()
                &&& final(stream).answers() == old(stream).answers()
                &&& final(stream).reads() == old(stream).reads()
                &&& final(stream).endpoints() == old(stream).endpoints()
            },
            r is Ok ==> {
                &&& final(stream).heard() == old(stream).heard() + samples@
                &&& final(stream).session().phase() != Phase::Ready
                &&& final(stream).session().resets == old(stream).session().resets + (if r->Ok_0.reset {
                    1nat
                } else {
                    0nat
                })
                &&& r->Ok_0.reset ==> final(stream).session().is_clear()
                &&& drained(old(stream).answers(), final(stream).answers())
                &&& final(stream).reads().len() == old(stream).reads().len() + 1
                &&& final(stream).reads().drop_last() == old(stream).reads()
                &&& final(stream).endpoints() == old(stream).endpoints().push(r->Ok_0.reset)
                &&& final(self)@ == old(self)@.after(final(stream).reads().last(), r->Ok_0.reset)
                &&& r->Ok_0@ == old(self)@.pass(final(stream).reads().last(), r->Ok_0.reset)
            },
    {
        match stream.accept_waveform(sample_rate, samples) {
            Ok(()) => {},
            Err(e) => {
                return Err(e);
            },
        }
        drain(stream);
        let ghost read = stream.reads();
        let text = stream.get_result();
        proof {
            assert(stream.reads().drop_last() =~= read);
        }
        let endpoint = stream.is_endpoint();
        let pass = self.note(text, endpoint);
        if endpoint {
            stream.reset();
        }
        Ok(pass)
    }
}

} // verus!
