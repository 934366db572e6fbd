//! The registry of active chains.

use vstd::prelude::*;
use crate::sequence::chain::Chain;
use crate::sequence::{Outcome, Sequence};

verus! {

/// Holds the chains that are in progress, in the order in which they were
/// started, and drives them once per tick.
///
/// At most one chain per subject is live, that is, not cancelled. A cancelled
/// chain stays in the registry only until the next update, which drops it
/// without driving it.
pub struct Sequencer<S> {
    chains: Vec<Chain<S>>,
}

/// Whether `chains` holds a live chain for `subject`.
pub open spec fn has_live<S>(chains: Seq<Chain<S>>, subject: u64) -> bool {
    exists|i: int| 0 <= i < chains.len() && !(#[trigger] chains[i]).cancelled && chains[i].subject == subject
}

/// No two live chains are bound to the same subject.
pub open spec fn distinct_live<S>(chains: Seq<Chain<S>>) -> bool {
    forall|i: int, j: int|
        #![trigger chains[i], chains[j]]
        0 <= i < j < chains.len() && !chains[i].cancelled && !chains[j].cancelled
            ==> chains[i].subject != chains[j].subject
}

/// The registry after the signal of every chain bound to `subject` has been
/// raised.
pub open spec fn cancel_subject<S>(chains: Seq<Chain<S>>, subject: u64) -> Seq<Chain<S>> {
    Seq::new(
        chains.len(),
        |i: int| if chains[i].subject == subject { chains[i].raised() } else { chains[i] },
    )
}

/// One tick over a registry: the chains that remain and the world they leave.
///
/// The chains are visited in order. A cancelled chain is dropped and its head
/// is not stepped. The head of a live chain is stepped on the world that the
/// chains before it left behind; the chain is kept, with its new head, exactly
/// when the head reports that it is still running.
pub open spec fn advance<W, S: Sequence<W>>(chains: Seq<Chain<S>>, time: u64, world: W) -> (
    Seq<Chain<S>>,
    W,
)
    decreases chains.len(),
{
    if chains.len() == 0 {
        (Seq::empty(), world)
    } else {
        let c = chains[0];
        let rest = chains.drop_first();
        if c.cancelled {
            advance(rest, time, world)
        } else {
            let (head, w1, r) = c.head.step(time, world);
            let (kept, w2) = advance(rest, time, w1);
            match r {
                Outcome::Running(_) => (seq![c.with_head(head)] + kept, w2),
                Outcome::Done(_) => (kept, w2),
            }
        }
    }
}

/// A tick keeps the registry well formed: no cancelled chain survives it, and
/// every chain that survives belongs to a subject that had a live chain
/// before.
pub proof fn lemma_advance_keeps_live<W, S: Sequence<W>>(
    chains: Seq<Chain<S>>,
    time: u64,
    world: W,
)
    requires
        distinct_live(chains),
    ensures
        distinct_live(advance(chains, time, world).0),
        forall|k: int|
            0 <= k < advance(chains, time, world).0.len() ==> {
                &&& !(#[trigger] advance(chains, time, world).0[k]).cancelled
                &&& has_live(chains, advance(chains, time, world).0[k].subject)
            },
    decreases chains.len(),
{
    if chains.len() > 0 {
        let c = chains[0];
        let rest = chains.drop_first();
        assert(distinct_live(rest)) by {
            assert forall|i: int, j: int|
                #![trigger rest[i], rest[j]]
                0 <= i < j < rest.len() && !rest[i].cancelled && !rest[j].cancelled implies rest[i].subject
                != rest[j].subject by {
                assert(rest[i] == chains[i + 1] && rest[j] == chains[j + 1]);
            }
        }
        let w1 = if c.cancelled {
            world
        } else {
            c.head.step(time, world).1
        };
        lemma_advance_keeps_live(rest, time, w1);
        let kept = advance(rest, time, w1).0;
        let out = advance(chains, time, world).0;
        assert forall|k: int| 0 <= k < kept.len() implies has_live(chains, (#[trigger] kept[k]).subject)
            && (!c.cancelled ==> kept[k].subject != c.subject) by {
            let i = choose|i: int|
                0 <= i < rest.len() && !(#[trigger] rest[i]).cancelled && rest[i].subject
                    == kept[k].subject;
            assert(rest[i] == chains[i + 1]);
            assert(chains[0] == c);
        }
        if !c.cancelled && c.head.step(time, world).2 is Running {
            let head = c.head.step(time, world).0;
            assert(out == seq![c.with_head(head)] + kept);
            assert(has_live(chains, c.subject)) by {
                assert(!chains[0].cancelled);
            }
            assert forall|k: int| 0 <= k < out.len() implies !(#[trigger] out[k]).cancelled
                && has_live(chains, out[k].subject) by {
                if k > 0 {
                    assert(out[k] == kept[k - 1]);
                }
            }
            assert forall|i: int, j: int|
                #![trigger out[i], out[j]]
                0 <= i < j < out.len() && !out[i].cancelled && !out[j].cancelled implies out[i].subject
                != out[j].subject by {
                assert(out[j] == kept[j - 1]);
                if i > 0 {
                    assert(out[i] == kept[i - 1]);
                }
            }
        } else {
            assert(out == kept);
        }
    }
}

/// A tick over two registries laid end to end is a tick over the first
/// followed by a tick over the second on the world that the first left.
pub proof fn lemma_advance_concat<W, S: Sequence<W>>(
    a: Seq<Chain<S>>,
    b: Seq<Chain<S>>,
    time: u64,
    world: W,
)
    ensures
        advance(a + b, time, world) == ({
            let (ka, wa) = advance(a, time, world);
            let (kb, wb) = advance(b, time, wa);
            (ka + kb, wb)
        }),
    decreases a.len(),
{
    if a.len() == 0 {
        assert(a + b == b);
        assert(Seq::<Chain<S>>::empty() + advance(b, time, world).0 == advance(b, time, world).0);
    } else {
        let c = a[0];
        assert((a + b)[0] == c);
        assert((a + b).drop_first() == a.drop_first() + b);
        let w1 = if c.cancelled {
            world
        } else {
            c.head.step(time, world).1
        };
        lemma_advance_concat(a.drop_first(), b, time, w1);
        let ka = advance(a.drop_first(), time, w1).0;
        let wa = advance(a.drop_first(), time, w1).1;
        let kb = advance(b, time, wa).0;
        if !c.cancelled && c.head.step(time, world).2 is Running {
            let head = c.head.step(time, world).0;
            assert(seq![c.with_head(head)] + (ka + kb) == (seq![c.with_head(head)] + ka) + kb);
        }
    }
}

/// The world on which the chain at position `i` is considered during a tick:
/// the one left by the chains before it.
pub open spec fn world_before<W, S: Sequence<W>>(
    chains: Seq<Chain<S>>,
    time: u64,
    world: W,
    i: int,
) -> W {
    advance(chains.take(i), time, world).1
}

/// A chain whose head reports a terminal outcome during a tick is gone after
/// that tick: the registry then holds no chain for its subject, so nothing
/// can update that sequence again.
pub proof fn lemma_finished_chain_is_dropped<W, S: Sequence<W>>(
    chains: Seq<Chain<S>>,
    time: u64,
    world: W,
    i: int,
)
    requires
        distinct_live(chains),
        0 <= i < chains.len(),
        !chains[i].cancelled,
        chains[i].head.step(time, world_before(chains, time, world, i)).2.is_terminal(),
    ensures
        !has_live(advance(chains, time, world).0, chains[i].subject),
        forall|k: int|
            0 <= k < advance(chains, time, world).0.len() ==> (#[trigger] advance(
                chains,
                time,
                world,
            ).0[k]).subject != chains[i].subject,
{
    let before = chains.take(i);
    let after = chains.skip(i + 1);
    let c = chains[i];
    assert(chains == before + (seq![c] + after));
    lemma_advance_concat(before, seq![c] + after, time, world);
    let wb = advance(before, time, world).1;
    lemma_advance_concat(seq![c], after, time, wb);
    let w1 = c.head.step(time, wb).1;
    assert(seq![c].drop_first() == Seq::<Chain<S>>::empty());
    assert(advance(seq![c], time, wb) == (Seq::<Chain<S>>::empty(), w1)) by {
        assert(seq![c][0] == c);
        assert(advance(seq![c].drop_first(), time, w1) == (Seq::<Chain<S>>::empty(), w1));
    }
    let ka = advance(before, time, world).0;
    let kb = advance(after, time, w1).0;
    let out = advance(chains, time, world).0;
    assert(Seq::<Chain<S>>::empty() + kb == kb);
    assert(out == ka + kb);
    assert(distinct_live(before)) by {
        assert forall|p: int, q: int|
            #![trigger before[p], before[q]]
            0 <= p < q < before.len() && !before[p].cancelled && !before[q].cancelled implies before[p].subject
            != before[q].subject by {
            assert(before[p] == chains[p] && before[q] == chains[q]);
        }
    }
    assert(distinct_live(after)) by {
        assert forall|p: int, q: int|
            #![trigger after[p], after[q]]
            0 <= p < q < after.len() && !after[p].cancelled && !after[q].cancelled implies after[p].subject
            != after[q].subject by {
            assert(after[p] == chains[p + i + 1] && after[q] == chains[q + i + 1]);
        }
    }
    lemma_advance_keeps_live(before, time, world);
    lemma_advance_keeps_live(after, time, w1);
    assert forall|k: int| 0 <= k < out.len() implies (#[trigger] out[k]).subject != c.subject by {
        if k < ka.len() {
            assert(out[k] == ka[k]);
            let p = choose|p: int|
                0 <= p < before.len() && !(#[trigger] before[p]).cancelled && before[p].subject
                    == ka[k].subject;
            assert(before[p] == chains[p]);
        } else {
            assert(out[k] == kb[k - ka.len()]);
            let p = choose|p: int|
                0 <= p < after.len() && !(#[trigger] after[p]).cancelled && after[p].subject
                    == kb[k - ka.len()].subject;
            assert(after[p] == chains[p + i + 1]);
        }
    }
}

/// Starting a composition for a subject that has a live chain raises that
/// chain's signal and no other: every other chain is left exactly as it was.
/// The new chain stands last, live, with its head not yet driven, and is the
/// subject's only live chain.
pub proof fn lemma_start_cancels_previous_once<S>(
    chains: Seq<Chain<S>>,
    subject: u64,
    seq: S,
    i: int,
)
    requires
        distinct_live(chains),
        0 <= i < chains.len(),
        chains[i].subject == subject,
        !chains[i].cancelled,
    ensures
        ({
            let after = cancel_subject(chains, subject).push(
                Chain { subject, head: seq, cancelled: false },
            );
            &&& after.len() == chains.len() + 1
            &&& after[i] == chains[i].raised()
            &&& forall|j: int| 0 <= j < chains.len() && j != i ==> #[trigger] after[j] == chains[j]
            &&& after[chains.len() as int] == (Chain { subject, head: seq, cancelled: false })
            &&& distinct_live(after)
        }),
{
    let fresh = Chain { subject, head: seq, cancelled: false };
    let after = cancel_subject(chains, subject).push(fresh);
    assert forall|j: int| 0 <= j < chains.len() && j != i implies #[trigger] after[j] == chains[j] by {
        if chains[j].subject == subject {
            if j < i {
                assert(chains[j].cancelled) by {
                    let _ = (chains[j], chains[i]);
                }
            } else {
                assert(chains[j].cancelled) by {
                    let _ = (chains[i], chains[j]);
                }
            }
        }
    }
    lemma_start_keeps_distinct(chains, subject, seq);
}

/// Starting a composition keeps the registry well formed, whether or not the
/// subject had a live chain.
pub proof fn lemma_start_keeps_distinct<S>(chains: Seq<Chain<S>>, subject: u64, seq: S)
    requires
        distinct_live(chains),
    ensures
        distinct_live(
            cancel_subject(chains, subject).push(Chain { subject, head: seq, cancelled: false }),
        ),
        !has_live(cancel_subject(chains, subject), subject),
{
    let mid = cancel_subject(chains, subject);
    let after = mid.push(Chain { subject, head: seq, cancelled: false });
    assert forall|p: int, q: int|
        #![trigger after[p], after[q]]
        0 <= p < q < after.len() && !after[p].cancelled && !after[q].cancelled implies after[p].subject
        != after[q].subject by {
        if q < chains.len() {
            let _ = (chains[p], chains[q]);
        }
    }
}

impl<S> View for Sequencer<S> {
    type V = Seq<Chain<S>>;

    /// The chains in the registry, oldest first.
    closed spec fn view(&self) -> Seq<Chain<S>> {
        self.chains@
    }
}

impl<S> Sequencer<S> {
    /// The invariant of the registry: at most one live chain per subject.
    pub open spec fn wf(&self) -> bool {
        distinct_live(self@)
    }

    /// An empty registry.
    pub fn new() -> (s: Self)
        ensures
            s@ == Seq::<Chain<S>>::empty(),
            s.wf(),
    {
        Sequencer { chains: Vec::new() }
    }

    /// The number of chains in the registry, cancelled ones included.
    pub fn len(&self) -> (n: usize)
        ensures
            n == self@.len(),
    {
        self.chains.len()
    }

    /// Whether `subject` has a live chain.
    pub fn is_active(&self, subject: u64) -> (b: bool)
        ensures
            b == has_live(self@, subject),
    {
        let mut i: usize = 0;
        while i < self.chains.len()
            invariant
                i <= self.chains.len(),
                forall|k: int|
                    0 <= k < i ==> (#[trigger] self.chains@[k]).cancelled || self.chains@[k].subject
                        != subject,
            decreases self.chains.len() - i,
        {
            if !self.chains[i].cancelled && self.chains[i].subject == subject {
                return true;
            }
            i = i + 1;
        }
        false
    }

    /// Raises the signal of the subject's chain and says whether there was a
    /// live one. The chain is dropped by the next update, undriven.
    pub fn cancel(&mut self, subject: u64) -> (was_live: bool)
        requires
            old(self).wf(),
        ensures
            final(self).wf(),
            final(self)@ == cancel_subject(old(self)@, subject),
            was_live == has_live(old(self)@, subject),
    {
        let mut was_live = false;
        let mut i: usize = 0;
        while i < self.chains.len()
            invariant
                i <= self.chains.len(),
                self.chains@.len() == old(self)@.len(),
                forall|k: int|
                    0 <= k < i ==> #[trigger] self.chains@[k] == cancel_subject(
                        old(self)@,
                        subject,
                    )[k],
                forall|k: int| i <= k < self.chains.len() ==> #[trigger] self.chains@[k] == old(self)@[k],
                was_live == has_live(old(self)@.take(i as int), subject),
            decreases self.chains.len() - i,
        {
            let ghost prev = old(self)@.take(i as int);
            let ghost next = old(self)@.take(i + 1);
            proof {
                assert(next.drop_last() == prev);
                assert(next[i as int] == old(self)@[i as int]);
                if has_live(prev, subject) {
                    let k = choose|k: int|
                        0 <= k < prev.len() && !(#[trigger] prev[k]).cancelled && prev[k].subject
                            == subject;
                    assert(next[k] == prev[k]);
                }
                if has_live(next, subject) && !has_live(prev, subject) {
                    let k = choose|k: int|
                        0 <= k < next.len() && !(#[trigger] next[k]).cancelled && next[k].subject
                            == subject;
                    if k < i {
                        assert(prev[k] == next[k]);
                    }
                }
            }
            if self.chains[i].subject == subject {
                if !self.chains[i].cancelled {
                    was_live = true;
                }
                self.chains[i].cancel();
            }
            i = i + 1;
        }
        proof {
            assert(old(self)@.take(i as int) == old(self)@);
            assert(self.chains@ =~= cancel_subject(old(self)@, subject));
            let after = self.chains@;
            assert forall|p: int, q: int|
                #![trigger after[p], after[q]]
                0 <= p < q < after.len() && !after[p].cancelled && !after[q].cancelled implies after[p].subject
                != after[q].subject by {
                let _ = (old(self)@[p], old(self)@[q]);
            }
        }
        was_live
    }

    /// Registers a new composition for `subject`.
    ///
    /// The signal of the subject's previous chain, if it has one, is raised
    /// first; the new chain is then placed last, live and undriven.
    pub fn start(&mut self, subject: u64, seq: S)
        requires
            old(self).wf(),
        ensures
            final(self).wf(),
            final(self)@ == cancel_subject(old(self)@, subject).push(
                Chain { subject, head: seq, cancelled: false },
            ),
    {
        let _ = self.cancel(subject);
        self.chains.push(Chain::new(subject, seq));
        proof {
            lemma_start_keeps_distinct(old(self)@, subject, seq);
        }
    }

    /// Drives every live chain once, oldest first, on the world as the chains
    /// before it left it. Cancelled chains are dropped undriven; a chain whose
    /// head reports a terminal outcome is dropped too and is never driven
    /// again.
    pub fn update<W>(&mut self, time: u64, world: &mut W) where S: Sequence<W>
        requires
            old(self).wf(),
        ensures
            final(self).wf(),
            (final(self)@, *final(world)) == advance(old(self)@, time, *old(world)),
    {
        let mut i: usize = 0;
        proof {
            let kept = advance(self.chains@, time, *world).0;
            assert(self.chains@.skip(0) == self.chains@);
            assert(self.chains@.take(0) + kept == kept);
        }
        while i < self.chains.len()
            invariant
                i <= self.chains.len(),
                advance(old(self)@, time, *old(world)) == ({
                    let (kept, w) = advance(self.chains@.skip(i as int), time, *world);
                    (self.chains@.take(i as int) + kept, w)
                }),
            decreases self.chains.len() - i,
        {
            let ghost before = self.chains@;
            let ghost w0 = *world;
            let ghost rest = before.skip(i as int);
            proof {
                assert(rest[0] == before[i as int]);
                assert(rest.drop_first() == before.skip(i + 1));
            }
            if self.chains[i].cancelled {
                let _ = self.chains.remove(i);
                proof {
                    assert(self.chains@.skip(i as int) == before.skip(i + 1));
                    assert(self.chains@.take(i as int) == before.take(i as int));
                }
            } else {
                let r = self.chains[i].head.update(time, world);
                match r {
                    Outcome::Running(_) => {
                        proof {
                            let c = before[i as int];
                            let head = c.head.step(time, w0).0;
                            assert(self.chains@[i as int] == c.with_head(head));
                            assert(self.chains@.skip(i + 1) == before.skip(i + 1));
                            let kept = advance(before.skip(i + 1), time, *world).0;
                            assert(self.chains@.take(i + 1) == before.take(i as int) + seq![
                                c.with_head(head),
                            ]);
                            assert(before.take(i as int) + (seq![c.with_head(head)] + kept) == (
                            before.take(i as int) + seq![c.with_head(head)]) + kept);
                        }
                        i = i + 1;
                    },
                    Outcome::Done(_) => {
                        let _ = self.chains.remove(i);
                        proof {
                            assert(self.chains@.skip(i as int) == before.skip(i + 1));
                            assert(self.chains@.take(i as int) == before.take(i as int));
                        }
                    },
                }
            }
        }
        proof {
            assert(self.chains@.skip(i as int) == Seq::<Chain<S>>::empty());
            assert(self.chains@.take(i as int) == self.chains@);
            assert(self.chains@ + Seq::<Chain<S>>::empty() == self.chains@);
            lemma_advance_keeps_live(old(self)@, time, *old(world));
        }
    }

    /// Drops every chain at once. No head is driven, so no completion is
    /// reported and nothing advances; the world is not touched.
    pub fn cleanup(&mut self)
        ensures
            final(self)@ == Seq::<Chain<S>>::empty(),
            final(self).wf(),
    {
        self.chains.clear();
    }
}

} // verus!
