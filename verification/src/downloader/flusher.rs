//! In-order release of segments that arrive in any order.
//!
//! Segments of a parallel download arrive as they complete. The flusher keeps
//! those that are ahead of the next expected index and releases, after each
//! arrival, the longest run of segments that can now be written in order.
use vstd::prelude::*;
use vstd::multiset::Multiset;
use crate::client::EngineError;
use crate::downloader::parallel::SequencedChunk;

verus! {

broadcast use vstd::seq_lib::group_to_multiset_ensures;

/// The abstract state of a flusher: the segments it holds back and the
/// index of the segment it waits for.
pub struct FlusherState {
    pub pending: Multiset<SequencedChunk>,
    pub next: int,
}

/// The smallest index among `pending` is `i`.
pub open spec fn min_index_is(pending: Multiset<SequencedChunk>, i: int) -> bool {
    &&& exists|c: SequencedChunk| pending.count(c) > 0 && c.index == i
    &&& forall|c: SequencedChunk| pending.count(c) > 0 ==> c.index >= i
}

/// The multiset of the chunks in `s`.
pub open spec fn chunks_multiset(s: Seq<SequencedChunk>) -> Multiset<SequencedChunk> {
    s.to_multiset()
}

/// One arrival as `accept` describes it: `chunk` arrives in state `before`,
/// `released` is written, and the flusher is left in state `after`.
pub open spec fn accepted(
    before: FlusherState,
    chunk: SequencedChunk,
    released: Seq<SequencedChunk>,
    after: FlusherState,
) -> bool {
    &&& forall|j: int| 0 <= j < released.len() ==> (#[trigger] released[j]).index == before.next + j
    &&& after.next == before.next + released.len()
    &&& before.pending.insert(chunk) =~= after.pending.add(chunks_multiset(released))
}

/// All the releases of a run, one after another.
pub open spec fn all_released(releases: Seq<Seq<SequencedChunk>>) -> Seq<SequencedChunk>
    decreases releases.len(),
{
    if releases.len() == 0 {
        Seq::empty()
    } else {
        all_released(releases.drop_last()) + releases.last()
    }
}

/// Over a run of arrivals into a fresh flusher, everything written comes out
/// as segments 0, 1, 2, ... in that order, the flusher then waits for the
/// segment after the last one written, and every segment that arrived has
/// either been written or is still held back.
pub proof fn law_flusher_writes_in_order(
    states: Seq<FlusherState>,
    chunks: Seq<SequencedChunk>,
    releases: Seq<Seq<SequencedChunk>>,
)
    requires
        states.len() == chunks.len() + 1,
        releases.len() == chunks.len(),
        states[0].next == 0,
        states[0].pending =~= Multiset::empty(),
        forall|i: int|
            0 <= i < chunks.len() ==> accepted(#[trigger] states[i], chunks[i], releases[i], states[i + 1]),
    ensures
        forall|j: int|
            0 <= j < all_released(releases).len() ==> (#[trigger] all_released(releases)[j]).index == j,
        states.last().next == all_released(releases).len(),
        chunks_multiset(chunks) =~= states.last().pending.add(chunks_multiset(all_released(releases))),
    decreases chunks.len(),
{
    broadcast use vstd::seq_lib::lemma_multiset_commutative;
    broadcast use vstd::multiset::group_multiset_axioms;

    if chunks.len() == 0 {
        assert(chunks_multiset(chunks) =~= Multiset::empty());
        assert(chunks_multiset(all_released(releases)) =~= Multiset::empty());
    } else {
        let n = chunks.len() - 1;
        let s = states.drop_last();
        let c = chunks.drop_last();
        let r = releases.drop_last();
        assert forall|i: int| 0 <= i < c.len() implies accepted(#[trigger] s[i], c[i], r[i], s[i + 1]) by {
            assert(accepted(states[i], chunks[i], releases[i], states[i + 1]));
        }
        law_flusher_writes_in_order(s, c, r);
        assert(accepted(states[n], chunks[n], releases[n], states[n + 1]));
        let earlier = all_released(r);
        assert(all_released(releases) == earlier + releases[n]);
        assert(states[n] == s.last());
        assert forall|j: int| 0 <= j < all_released(releases).len() implies (#[trigger] all_released(
            releases,
        )[j]).index == j by {
            if j >= earlier.len() {
                assert(all_released(releases)[j] == releases[n][j - earlier.len()]);
            } else {
                assert(all_released(releases)[j] == earlier[j]);
            }
        }
        assert(chunks =~= c.push(chunks[n]));
        let em = chunks_multiset(earlier);
        let rm = chunks_multiset(releases[n]);
        assert(chunks_multiset(all_released(releases)) =~= em.add(rm));
        assert(chunks_multiset(chunks) =~= chunks_multiset(c).insert(chunks[n]));
        assert(chunks_multiset(c) =~= states[n].pending.add(em));
        assert(states[n].pending.insert(chunks[n]) =~= states.last().pending.add(rm));
        let pl = states.last().pending;
        assert forall|x: SequencedChunk| #[trigger] chunks_multiset(chunks).count(x) == pl.add(em.add(rm)).count(x) by {
            assert(chunks_multiset(chunks).count(x) == chunks_multiset(c).insert(chunks[n]).count(x));
            assert(chunks_multiset(c).count(x) == states[n].pending.add(em).count(x));
            assert(states[n].pending.insert(chunks[n]).count(x) == pl.add(rm).count(x));
        }
        assert(chunks_multiset(chunks) =~= pl.add(em.add(rm)));
    }
}

/// Some arrival is segment `x`.
pub open spec fn arrived(chunks: Seq<SequencedChunk>, x: int) -> bool {
    exists|i: int| 0 <= i < chunks.len() && #[trigger] chunks[i].index == x
}

/// A chunk held back after a run of arrivals has an index no smaller than
/// the one the flusher waits for, when no two arrivals share an index.
proof fn lemma_pending_ahead(
    chunks: Seq<SequencedChunk>,
    last: FlusherState,
    released: Seq<SequencedChunk>,
    c: SequencedChunk,
)
    requires
        forall|i: int, k: int|
            0 <= i < chunks.len() && 0 <= k < chunks.len() && i != k ==> #[trigger] chunks[i].index
                != #[trigger] chunks[k].index,
        forall|j: int| 0 <= j < released.len() ==> (#[trigger] released[j]).index == j,
        last.next == released.len(),
        chunks_multiset(chunks) =~= last.pending.add(chunks_multiset(released)),
        last.pending.count(c) > 0,
    ensures
        c.index >= last.next,
{
    broadcast use vstd::multiset::group_multiset_axioms;

    if c.index < last.next {
        let j = c.index as int;
        let r = released[j];
        assert(released.contains(r));
        assert(chunks_multiset(released).count(r) > 0);
        assert(chunks_multiset(chunks).count(c) > 0);
        assert(chunks_multiset(chunks).count(r) > 0);
        assert(chunks.contains(c));
        assert(chunks.contains(r));
        let ic = choose|i: int| 0 <= i < chunks.len() && chunks[i] == c;
        let ir = choose|i: int| 0 <= i < chunks.len() && chunks[i] == r;
        if c == r {
            assert(chunks.no_duplicates()) by {
                assert forall|i: int, k: int| 0 <= i < chunks.len() && 0 <= k < chunks.len() && i != k implies chunks[i]
                    != chunks[k] by {
                    assert(chunks[i].index != chunks[k].index);
                }
            }
            chunks.lemma_multiset_has_no_duplicates();
            assert(chunks_multiset(chunks).count(c) == last.pending.count(c) + chunks_multiset(released).count(c));
            assert(chunks_multiset(chunks).count(c) >= 2);
        } else {
            assert(ic != ir);
            assert(chunks[ic].index == chunks[ir].index);
        }
    }
}

/// Every segment released is an arrival, so with arrivals below `total`
/// no more than `total` are released.
proof fn lemma_released_bounded(
    chunks: Seq<SequencedChunk>,
    last: FlusherState,
    released: Seq<SequencedChunk>,
    total: int,
)
    requires
        forall|i: int| 0 <= i < chunks.len() ==> (#[trigger] chunks[i]).index < total,
        forall|j: int| 0 <= j < released.len() ==> (#[trigger] released[j]).index == j,
        chunks_multiset(chunks) =~= last.pending.add(chunks_multiset(released)),
        total >= 0,
    ensures
        released.len() <= total,
{
    broadcast use vstd::multiset::group_multiset_axioms;

    if released.len() > 0 {
        let r = released[released.len() - 1];
        assert(released.contains(r));
        assert(chunks_multiset(released).count(r) > 0);
        assert(chunks_multiset(chunks).count(r) > 0);
        assert(chunks.contains(r));
    }
}

/// Where segment `last.next` has arrived, it is the smallest held back.
proof fn lemma_awaited_is_held(chunks: Seq<SequencedChunk>, last: FlusherState, released: Seq<SequencedChunk>)
    requires
        forall|i: int, k: int|
            0 <= i < chunks.len() && 0 <= k < chunks.len() && i != k ==> #[trigger] chunks[i].index
                != #[trigger] chunks[k].index,
        forall|j: int| 0 <= j < released.len() ==> (#[trigger] released[j]).index == j,
        last.next == released.len(),
        chunks_multiset(chunks) =~= last.pending.add(chunks_multiset(released)),
        arrived(chunks, last.next),
    ensures
        min_index_is(last.pending, last.next),
{
    broadcast use vstd::multiset::group_multiset_axioms;

    let x = last.next;
    let i = choose|i: int| 0 <= i < chunks.len() && #[trigger] chunks[i].index == x;
    let c = chunks[i];
    assert(chunks.contains(c));
    assert(chunks_multiset(chunks).count(c) > 0);
    if chunks_multiset(released).count(c) > 0 {
        assert(released.contains(c));
        let j = choose|j: int| 0 <= j < released.len() && released[j] == c;
        assert(released[j].index == j);
    }
    assert(last.pending.count(c) > 0);
    assert forall|d: SequencedChunk| last.pending.count(d) > 0 implies d.index >= x by {
        lemma_pending_ahead(chunks, last, released, d);
    }
}

/// Once every segment below `total` is released, nothing is held back.
proof fn lemma_nothing_held(
    chunks: Seq<SequencedChunk>,
    last: FlusherState,
    released: Seq<SequencedChunk>,
    total: int,
)
    requires
        forall|i: int, k: int|
            0 <= i < chunks.len() && 0 <= k < chunks.len() && i != k ==> #[trigger] chunks[i].index
                != #[trigger] chunks[k].index,
        forall|i: int| 0 <= i < chunks.len() ==> (#[trigger] chunks[i]).index < total,
        forall|j: int| 0 <= j < released.len() ==> (#[trigger] released[j]).index == j,
        last.next == released.len(),
        last.next == total,
        chunks_multiset(chunks) =~= last.pending.add(chunks_multiset(released)),
    ensures
        last.pending =~= Multiset::empty(),
{
    broadcast use vstd::multiset::group_multiset_axioms;

    assert forall|d: SequencedChunk| #[trigger] last.pending.count(d) == 0 by {
        if last.pending.count(d) > 0 {
            lemma_pending_ahead(chunks, last, released, d);
            assert(chunks_multiset(chunks).count(d) > 0);
            assert(chunks.contains(d));
        }
    }
}

/// A flusher fed every segment of a download completes: where the arrivals
/// are segments `0` to `total - 1`, each exactly once and in any order, and
/// each arrival releases all it can (as `accept` does), the flusher ends up
/// waiting for segment `total`, has written all `total` segments and holds
/// nothing back.
pub proof fn law_flusher_completes(
    states: Seq<FlusherState>,
    chunks: Seq<SequencedChunk>,
    releases: Seq<Seq<SequencedChunk>>,
    total: nat,
)
    requires
        states.len() == chunks.len() + 1,
        releases.len() == chunks.len(),
        states[0].next == 0,
        states[0].pending =~= Multiset::empty(),
        forall|i: int|
            0 <= i < chunks.len() ==> accepted(#[trigger] states[i], chunks[i], releases[i], states[i + 1]),
        forall|i: int|
            0 < i <= chunks.len() ==> !min_index_is(#[trigger] states[i].pending, states[i].next),
        forall|i: int, k: int|
            0 <= i < chunks.len() && 0 <= k < chunks.len() && i != k ==> #[trigger] chunks[i].index
                != #[trigger] chunks[k].index,
        forall|i: int| 0 <= i < chunks.len() ==> (#[trigger] chunks[i]).index < total,
        forall|x: int| 0 <= x < total ==> #[trigger] arrived(chunks, x),
    ensures
        states.last().next == total,
        all_released(releases).len() == total,
        states.last().pending =~= Multiset::empty(),
{
    law_flusher_writes_in_order(states, chunks, releases);
    let last = states.last();
    let released = all_released(releases);
    lemma_released_bounded(chunks, last, released, total as int);
    if last.next < total {
        assert(arrived(chunks, last.next));
        lemma_awaited_is_held(chunks, last, released);
        if chunks.len() == 0 {
            let i = choose|i: int| 0 <= i < chunks.len() && #[trigger] chunks[i].index == last.next;
        } else {
            assert(states[chunks.len() as int] == last);
        }
    }
    lemma_nothing_held(chunks, last, released, total as int);
}

/// Writes downloaded segments in index order.
pub struct SequentialFlusher {
    heap: Vec<SequencedChunk>,
    next_expected_index: usize,
}

impl View for SequentialFlusher {
    type V = FlusherState;

    closed spec fn view(&self) -> FlusherState {
        FlusherState { pending: self.heap@.to_multiset(), next: self.next_expected_index as int }
    }
}

impl SequentialFlusher {
    /// No index held back reaches `usize::MAX`, so the expected index can
    /// always advance past any of them.
    pub closed spec fn wf(&self) -> bool {
        forall|k: int| 0 <= k < self.heap@.len() ==> (#[trigger] self.heap@[k]).index < usize::MAX
    }

    /// A flusher that waits for segment 0 and holds nothing back.
    pub fn new() -> (r: Self)
        ensures
            r.wf(),
            r@.pending =~= Multiset::empty(),
            r@.next == 0,
    {
        let r = SequentialFlusher { heap: Vec::new(), next_expected_index: 0 };
        assert(r.heap@.to_multiset() =~= Multiset::empty());
        r
    }

    /// The index of the segment the flusher waits for.
    pub fn next_expected_index(&self) -> (i: usize)
        ensures
            i == self@.next,
    {
        self.next_expected_index
    }

    /// Whether all `total_segments` segments have been released.
    pub fn is_complete(&self, total_segments: usize) -> (b: bool)
        ensures
            b == (self@.next >= total_segments),
    {
        self.next_expected_index >= total_segments
    }

    /// The outcome once no further segment will arrive: an error when fewer
    /// than `total_segments` segments were released.
    pub fn finish(&self, total_segments: usize) -> (r: Result<(), EngineError>)
        ensures
            match r {
                Ok(()) => self@.next >= total_segments,
                Err(e) => self@.next < total_segments && (e matches EngineError::OsApiError(m) && m@
                    == "Channel closed before all segments were received"@),
            },
    {
        if self.next_expected_index < total_segments {
            Err(EngineError::OsApiError(String::from_str("Channel closed before all segments were received")))
        } else {
            Ok(())
        }
    }

    /// Takes in an arrived segment and returns the segments that can now be
    /// written, in order: while the smallest index held back is the one
    /// expected, that segment is released and the next one is expected.
    pub fn accept(&mut self, chunk: SequencedChunk) -> (released: Vec<SequencedChunk>)
        requires
            old(self).wf(),
            chunk.index < usize::MAX,
        ensures
            final(self).wf(),
            accepted(old(self)@, chunk, released@, final(self)@),
            forall|j: int|
                0 <= j < released@.len() ==> (#[trigger] released@[j]).index == old(self)@.next + j,
            final(self)@.next == old(self)@.next + released@.len(),
            old(self)@.pending.insert(chunk) =~= final(self)@.pending.add(
                chunks_multiset(released@),
            ),
            released@.len() > 0 ==> forall|c: SequencedChunk|
                final(self)@.pending.count(c) > 0 ==> c.index >= final(self)@.next - 1,
            !min_index_is(final(self)@.pending, final(self)@.next),
    {
        let ghost start = old(self)@.next;
        let ghost all = old(self).heap@.push(chunk).to_multiset();
        self.heap.push(chunk);
        let mut released: Vec<SequencedChunk> = Vec::new();
        loop
            invariant
                self.wf(),
                all == self.heap@.to_multiset().add(released@.to_multiset()),
                self.next_expected_index == start + released@.len(),
                forall|j: int| 0 <= j < released@.len() ==> (#[trigger] released@[j]).index == start + j,
                released@.len() > 0 ==> forall|k: int|
                    0 <= k < self.heap@.len() ==> (#[trigger] self.heap@[k]).index
                        >= self.next_expected_index - 1,
            ensures
                self.wf(),
                all == self.heap@.to_multiset().add(released@.to_multiset()),
                self.next_expected_index == start + released@.len(),
                forall|j: int| 0 <= j < released@.len() ==> (#[trigger] released@[j]).index == start + j,
                released@.len() > 0 ==> forall|k: int|
                    0 <= k < self.heap@.len() ==> (#[trigger] self.heap@[k]).index
                        >= self.next_expected_index - 1,
                !min_index_is(self.heap@.to_multiset(), self.next_expected_index as int),
            decreases self.heap@.len(),
        {
            if self.heap.len() == 0 {
                proof {
                    assert(self.heap@.to_multiset() =~= Multiset::empty());
                }
                break;
            }
            let mut pos: usize = 0;
            let mut k: usize = 1;
            while k < self.heap.len()
                invariant
                    1 <= k <= self.heap@.len(),
                    pos < k,
                    forall|j: int| 0 <= j < k ==> self.heap@[pos as int].index <= (#[trigger] self.heap@[j]).index,
                decreases self.heap@.len() - k,
            {
                if self.heap[k].index < self.heap[pos].index {
                    pos = k;
                }
                k = k + 1;
            }
            if self.heap[pos].index != self.next_expected_index {
                proof {
                    let m = self.heap@[pos as int].index;
                    if min_index_is(self.heap@.to_multiset(), self.next_expected_index as int) {
                        let c = choose|c: SequencedChunk|
                            self.heap@.to_multiset().count(c) > 0 && c.index
                                == self.next_expected_index;
                        assert(self.heap@.contains(c));
                        let q = choose|q: int| 0 <= q < self.heap@.len() && self.heap@[q] == c;
                        assert(self.heap@.contains(self.heap@[pos as int]));
                        assert(self.heap@.to_multiset().count(self.heap@[pos as int]) > 0);
                        assert(m <= c.index);
                    }
                }
                break;
            }
            let ghost before = self.heap@;
            let c = self.heap.remove(pos);
            proof {
                assert(before.remove(pos as int).to_multiset() == before.to_multiset().remove(before[pos as int]));
                assert(forall|k: int| 0 <= k < self.heap@.len() ==> #[trigger] self.heap@[k] == before[if k < pos { k } else { k + 1 }]);
            }
            let ghost old_released = released@;
            released.push(c);
            proof {
                assert(released@.to_multiset() == old_released.to_multiset().insert(c));
                assert(all =~= self.heap@.to_multiset().add(released@.to_multiset()));
                assert forall|k: int| 0 <= k < self.heap@.len() implies (#[trigger] self.heap@[k]).index
                    >= self.next_expected_index by {
                    let k2 = if k < pos { k } else { k + 1 };
                    assert(self.heap@[k] == before[k2]);
                }
            }
            self.next_expected_index = self.next_expected_index + 1;
        }
        proof {
            assert(old(self).heap@.push(chunk).to_multiset() == old(self).heap@.to_multiset().insert(chunk));
            assert forall|c: SequencedChunk| self@.pending.count(c) > 0 && released@.len() > 0 implies c.index
                >= self@.next - 1 by {
                assert(self.heap@.contains(c));
            }
        }
        released
    }
}

impl Default for SequentialFlusher {
    fn default() -> (r: Self)
        ensures
            r.wf(),
            r@.pending =~= Multiset::empty(),
            r@.next == 0,
    {
        SequentialFlusher::new()
    }
}

} // verus!
