//! Assembly of the scale's byte stream into terminator-delimited frames.
use vstd::prelude::*;

use crate::relevance::{is_relevant, is_relevant_data, TERMINATOR};

verus! {

/// Index of the first terminator in `s`, or `s.len()` when there is none.
pub open spec fn first_terminator(s: Seq<u8>) -> int
    decreases s.len(),
{
    if s.len() == 0 {
        0
    } else if s[0] == TERMINATOR {
        0
    } else {
        1 + first_terminator(s.drop_first())
    }
}

/// One step of the framer: the pending bytes after `chunk` arrived, and the
/// frame handed on, if any.
pub open spec fn feed(pending: Seq<u8>, chunk: Seq<u8>) -> (Seq<u8>, Option<Seq<u8>>) {
    let acc = pending + chunk;
    let p = first_terminator(acc);
    if p < acc.len() {
        let frame = acc.subrange(0, p + 1);
        (acc.subrange(p + 1, acc.len() as int), if is_relevant(frame) { Some(frame) } else { None })
    } else {
        (acc, None)
    }
}

/// The bytes held by an optional buffer.
pub open spec fn view_of(o: Option<Vec<u8>>) -> Option<Seq<u8>> {
    match o {
        Some(v) => Some(v@),
        None => None,
    }
}

pub proof fn lemma_first_terminator(s: Seq<u8>, p: int)
    requires
        0 <= p <= s.len(),
        p < s.len() ==> s[p] == TERMINATOR,
        forall|j: int| 0 <= j < p ==> s[j] != TERMINATOR,
    ensures
        first_terminator(s) == p,
    decreases s.len(),
{
    if s.len() > 0 && s[0] != TERMINATOR {
        let t = s.drop_first();
        assert forall|j: int| 0 <= j < p - 1 implies t[j] != TERMINATOR by {
            assert(s[j + 1] != TERMINATOR);
        }
        lemma_first_terminator(t, p - 1);
    }
}

/// Adds `buffer` to the pending bytes; when they hold a terminator, removes
/// everything up to and including the first one and returns it if it is a
/// relevant frame.
pub fn ensamblar_y_filtrar_datos(buffer: &[u8], partial_data: &mut Vec<u8>) -> (r: Option<Vec<u8>>)
    requires
        old(partial_data)@.len() + buffer@.len() <= usize::MAX,
    ensures
        (final(partial_data)@, view_of(r)) == feed(old(partial_data)@, buffer@),
{
    let mut i: usize = 0;
    while i < buffer.len()
        invariant
            i <= buffer@.len(),
            partial_data@ == old(partial_data)@ + buffer@.subrange(0, i as int),
        decreases buffer.len() - i,
    {
        partial_data.push(buffer[i]);
        assert(buffer@.subrange(0, i + 1) == buffer@.subrange(0, i as int).push(buffer@[i as int]));
        i = i + 1;
    }
    assert(buffer@.subrange(0, buffer@.len() as int) == buffer@);
    let ghost acc = partial_data@;
    let mut pos: usize = 0;
    while pos < partial_data.len() && partial_data[pos] != TERMINATOR
        invariant
            partial_data@ == acc,
            pos <= acc.len(),
            forall|j: int| 0 <= j < pos ==> acc[j] != TERMINATOR,
        decreases acc.len() - pos,
    {
        pos = pos + 1;
    }
    proof {
        lemma_first_terminator(acc, pos as int);
    }
    if pos == partial_data.len() {
        return None;
    }
    let mut frame: Vec<u8> = Vec::new();
    let mut rest: Vec<u8> = Vec::new();
    let mut k: usize = 0;
    while k < partial_data.len()
        invariant
            partial_data@ == acc,
            pos < acc.len(),
            k <= acc.len(),
            k <= pos + 1 ==> frame@ == acc.subrange(0, k as int) && rest@.len() == 0,
            k > pos + 1 ==> frame@ == acc.subrange(0, pos + 1) && rest@ == acc.subrange(pos + 1, k as int),
        decreases acc.len() - k,
    {
        if k <= pos {
            frame.push(partial_data[k]);
            assert(acc.subrange(0, k + 1) == acc.subrange(0, k as int).push(acc[k as int]));
        } else {
            rest.push(partial_data[k]);
            assert(acc.subrange(pos + 1, k + 1) == acc.subrange(pos + 1, k as int).push(acc[k as int]));
        }
        k = k + 1;
    }
    assert(rest@ =~= acc.subrange(pos + 1, acc.len() as int));
    *partial_data = rest;
    if is_relevant_data(frame.as_slice()) {
        Some(frame)
    } else {
        None
    }
}

/// What one step hands on, as a list of frames.
pub open spec fn emitted(o: Option<Seq<u8>>) -> Seq<Seq<u8>> {
    match o {
        Some(f) => seq![f],
        None => seq![],
    }
}

/// The framer fed `chunks` in order: the pending bytes at the end, and every
/// frame handed on, in order.
pub open spec fn feed_all(pending: Seq<u8>, chunks: Seq<Seq<u8>>) -> (Seq<u8>, Seq<Seq<u8>>)
    decreases chunks.len(),
{
    if chunks.len() == 0 {
        (pending, seq![])
    } else {
        let (next, out) = feed(pending, chunks[0]);
        let (last, rest) = feed_all(next, chunks.drop_first());
        (last, emitted(out) + rest)
    }
}

proof fn lemma_empty_chunks(chunks: Seq<Seq<u8>>)
    requires
        chunks.flatten().len() == 0,
    ensures
        feed_all(seq![], chunks) == (Seq::<u8>::empty(), Seq::<Seq<u8>>::empty()),
    decreases chunks.len(),
{
    if chunks.len() > 0 {
        assert(chunks[0] =~= Seq::<u8>::empty());
        assert(Seq::<u8>::empty() + chunks[0] =~= Seq::<u8>::empty());
        lemma_empty_chunks(chunks.drop_first());
        assert(emitted(None) + Seq::<Seq<u8>>::empty() =~= Seq::<Seq<u8>>::empty());
    }
}

proof fn lemma_frame_rest(frame: Seq<u8>, pending: Seq<u8>, chunks: Seq<Seq<u8>>)
    requires
        frame.len() > 0,
        frame.last() == TERMINATOR,
        forall|j: int| 0 <= j < frame.len() - 1 ==> frame[j] != TERMINATOR,
        pending + chunks.flatten() == frame,
        pending.len() < frame.len(),
    ensures
        feed_all(pending, chunks) == (Seq::<u8>::empty(), if is_relevant(frame) {
            seq![frame]
        } else {
            Seq::<Seq<u8>>::empty()
        }),
    decreases chunks.len(),
{
    if chunks.len() == 0 {
        assert(pending + chunks.flatten() =~= pending);
    } else {
        let acc = pending + chunks[0];
        assert(pending + chunks.flatten() =~= acc + chunks.drop_first().flatten());
        assert forall|j: int| 0 <= j < acc.len() implies acc[j] == frame[j] by {
            assert((acc + chunks.drop_first().flatten())[j] == acc[j]);
        }
        if acc.len() == frame.len() {
            assert(acc =~= frame);
            assert(chunks.drop_first().flatten().len() == 0);
            lemma_first_terminator(acc, acc.len() - 1);
            assert(acc.subrange(0, acc.len() as int) =~= acc);
            assert(acc.subrange(acc.len() as int, acc.len() as int) =~= Seq::<u8>::empty());
            lemma_empty_chunks(chunks.drop_first());
            let out = if is_relevant(frame) { Some(frame) } else { None };
            assert(emitted(out) + Seq::<Seq<u8>>::empty() =~= emitted(out));
            if is_relevant(frame) {
                assert(emitted(out) =~= seq![frame]);
            } else {
                assert(emitted(out) =~= Seq::<Seq<u8>>::empty());
            }
        } else {
            lemma_first_terminator(acc, acc.len() as int);
            lemma_frame_rest(frame, acc, chunks.drop_first());
            assert(emitted(None) + feed_all(acc, chunks.drop_first()).1 =~= feed_all(
                acc,
                chunks.drop_first(),
            ).1);
        }
    }
}

/// A single frame that reaches an empty framer whole, in one chunk or spread
/// over any number of them, is handed on exactly once and byte for byte when it
/// is relevant, never when it is not, and leaves nothing pending.
pub proof fn lemma_frame_in_chunks(frame: Seq<u8>, chunks: Seq<Seq<u8>>)
    requires
        frame.len() > 0,
        frame.last() == TERMINATOR,
        forall|j: int| 0 <= j < frame.len() - 1 ==> frame[j] != TERMINATOR,
        chunks.flatten() == frame,
    ensures
        feed_all(seq![], chunks) == (Seq::<u8>::empty(), if is_relevant(frame) {
            seq![frame]
        } else {
            Seq::<Seq<u8>>::empty()
        }),
{
    assert(Seq::<u8>::empty() + chunks.flatten() =~= frame);
    lemma_frame_rest(frame, seq![], chunks);
}

/// An empty chunk changes nothing: no frame is handed on, and the pending
/// bytes stay as they were unless they already held a terminator.
pub proof fn lemma_empty_chunk(pending: Seq<u8>)
    requires
        forall|j: int| 0 <= j < pending.len() ==> pending[j] != TERMINATOR,
    ensures
        feed(pending, seq![]) == (pending, None::<Seq<u8>>),
{
    assert(pending + Seq::<u8>::empty() =~= pending);
    lemma_first_terminator(pending, pending.len() as int);
}

} // verus!
