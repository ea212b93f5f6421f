//! Chunks of audio on their way to the engine.
//!
//! A chunk may be of any length, but one call tells the engine of at most
//! `MAX_CHUNK` samples. A longer chunk goes over in pieces, in order.

use crate::online::engine::StreamEngine;
use crate::online::session::{MAX_CHUNK, SAMPLE_RATE};
use vstd::prelude::*;

verus! {

/// The samples of `parts`, one part after the other.
pub open spec fn joined<T>(parts: Seq<Vec<T>>) -> Seq<T>
    decreases parts.len(),
{
    if parts.len() == 0 {
        Seq::empty()
    } else {
        joined(parts.drop_last()) + parts.last()@
    }
}

/// Cuts `samples` into pieces of `limit` samples, the last of which may be
/// shorter. There is always one piece, and only a piece of no samples at all
/// is empty.
pub fn pieces<T>(samples: Vec<T>, limit: usize) -> (parts: Vec<Vec<T>>)
    requires
        limit > 0,
    ensures
        joined(parts@) == samples@,
        parts.len() >= 1,
        forall|i: int| 0 <= i < parts.len() - 1 ==> (#[trigger] parts[i]).len() == limit,
        parts[parts.len() - 1].len() <= limit,
        samples.len() > 0 ==> parts[parts.len() - 1].len() > 0,
{
    let mut parts: Vec<Vec<T>> = Vec::new();
    let mut rest = samples;
    while rest.len() > limit
        invariant
            limit > 0,
            joined(parts@) + rest@ == samples@,
            forall|i: int| 0 <= i < parts.len() ==> (#[trigger] parts[i]).len() == limit,
            samples.len() > 0 ==> rest.len() > 0,
        decreases rest.len(),
    {
        let ghost before = parts@;
        let ghost whole = rest@;
        let tail = rest.split_off(limit);
        proof {
            assert(parts@.push(rest).drop_last() =~= before);
            assert(whole =~= rest@ + tail@);
            assert(joined(before) + whole =~= (joined(before) + rest@) + tail@);
        }
        parts.push(rest);
        rest = tail;
    }
    proof {
        assert(parts@.push(rest).drop_last() =~= parts@);
    }
    parts.push(rest);
    parts
}

/// Hands `samples` to the engine in pieces, and records what went over: all of it, in order.
pub(crate) fn hand_over<E: StreamEngine>(
    engine: &mut E,
    sample_rate: i32,
    samples: Vec<E::Sample>,
) -> (handed: Ghost<Seq<E::Sample>>)
    requires
        sample_rate == SAMPLE_RATE,
    ensures
        handed@ == samples@,
{
    let parts = pieces(samples, MAX_CHUNK);
    let ghost all = parts@;
    let ghost mut done: Seq<E::Sample> = Seq::empty();
    proof {
        assert(all.take(0) =~= Seq::<Vec<E::Sample>>::empty());
    }
    for part in it: parts
        invariant
            sample_rate == SAMPLE_RATE,
            it.seq() == all,
            forall|i: int| 0 <= i < all.len() ==> (#[trigger] all[i]).len() <= MAX_CHUNK,
            done == joined(all.take(it.index() as int)),
    {
        let count = part.len() as i32;
        proof {
            let next = all.take(it.index() + 1);
            assert(next.drop_last() =~= all.take(it.index() as int));
            assert(next.last() == part);
            done = done + part@;
        }
        engine.accept_waveform(sample_rate, part, count);
    }
    proof {
        assert(all.take(all.len() as int) =~= all);
    }
    Ghost(done)
}

/// What the engine has been handed once `chunks` were accepted one after
/// another, when it had been handed `heard` before.
pub open spec fn heard_after<T>(heard: Seq<T>, chunks: Seq<Seq<T>>) -> Seq<T>
    decreases chunks.len(),
{
    if chunks.len() == 0 {
        heard
    } else {
        heard_after(heard + chunks.first(), chunks.drop_first())
    }
}

/// How a signal is cut into chunks makes no difference to what the engine
/// is handed: it is the signal, in order. So two ways of cutting one signal
/// hand the engine the same audio.
pub proof fn lemma_cutting_keeps_the_signal<T>(
    heard: Seq<T>,
    chunks: Seq<Seq<T>>,
    others: Seq<Seq<T>>,
)
    ensures
        heard_after(heard, chunks) == heard + chunks.flatten(),
        chunks.flatten() == others.flatten() ==> heard_after(heard, chunks) == heard_after(
            heard,
            others,
        ),
{
    lemma_heard_after(heard, chunks);
    lemma_heard_after(heard, others);
}

proof fn lemma_heard_after<T>(heard: Seq<T>, chunks: Seq<Seq<T>>)
    ensures
        heard_after(heard, chunks) == heard + chunks.flatten(),
    decreases chunks.len(),
{
    if chunks.len() == 0 {
        assert(heard + chunks.flatten() =~= heard);
    } else {
        lemma_heard_after(heard + chunks.first(), chunks.drop_first());
        assert((heard + chunks.first()) + chunks.drop_first().flatten() =~= heard
            + chunks.flatten());
    }
}

} // verus!
