//! Sequential composition of two units.

use vstd::prelude::*;
use crate::sequence::{Done, Outcome, Running, Sequence};

verus! {

/// Runs one unit to completion, then another.
///
/// While the first unit is present every update drives it. When it finishes
/// it is dropped for good, and from then on every update drives the second
/// unit directly.
pub struct Then<U, V> {
    first: Option<U>,
    second: V,
}

impl<U, V> Then<U, V> {
    /// The first unit, as long as it has not finished.
    pub closed spec fn first(self) -> Option<U> {
        self.first
    }

    /// The second unit.
    pub closed spec fn second(self) -> V {
        self.second
    }

    /// The composition that holds exactly these two parts.
    pub closed spec fn of(first: Option<U>, second: V) -> Self {
        Then { first, second }
    }

    /// The composition made of two parts has exactly those parts.
    pub proof fn lemma_of_parts(first: Option<U>, second: V)
        ensures
            Self::of(first, second).first() == first,
            Self::of(first, second).second() == second,
    {
    }

    /// Composes `first` and `second`; neither has been updated yet.
    pub fn new(first: U, second: V) -> (t: Self)
        ensures
            t == Self::of(Some(first), second),
    {
        Then { first: Some(first), second }
    }

    /// Whether the first unit is still to finish.
    pub fn first_pending(&self) -> (b: bool)
        ensures
            b == self.first().is_some(),
    {
        self.first.is_some()
    }
}

impl<W, U: Sequence<W>, V: Sequence<W>> Sequence<W> for Then<U, V> {
    /// With the first unit present, its step decides: while it runs, its
    /// outcome is passed on unchanged; when it finishes normally the second
    /// unit is left alone and the composition reports that it runs, not
    /// lagging; when it asks to advance now, the second unit is stepped at
    /// the same tick, on the world the first unit left behind. Without a
    /// first unit the step is the second unit's.
    open spec fn step(self, time: u64, world: W) -> (Self, W, Outcome) {
        match self.first() {
            Some(u) => {
                let (u1, w1, r) = u.step(time, world);
                match r {
                    Outcome::Running(_) => (Self::of(Some(u1), self.second()), w1, r),
                    Outcome::Done(Done::Normal) => (
                        Self::of(None, self.second()),
                        w1,
                        Outcome::Running(Running::NotLagging),
                    ),
                    Outcome::Done(Done::AdvanceNow) => {
                        let (v1, w2, r2) = self.second().step(time, w1);
                        (Self::of(None, v1), w2, r2)
                    },
                }
            },
            None => {
                let (v1, w1, r) = self.second().step(time, world);
                (Self::of(None, v1), w1, r)
            },
        }
    }

    fn update(&mut self, time: u64, world: &mut W) -> (r: Outcome) {
        if self.first.is_some() {
            let r = self.first.as_mut().unwrap().update(time, world);
            match r {
                Outcome::Running(_) => {
                    return r;
                },
                Outcome::Done(d) => {
                    self.first = None;
                    if d == Done::Normal {
                        return Outcome::Running(Running::NotLagging);
                    }
                },
            }
        }
        self.second.update(time, world)
    }
}

/// When the first unit finishes normally at some tick, that update leaves the
/// second unit untouched and reports that the composition still runs; the
/// composition's next update, at whatever tick it comes, is the second
/// unit's first.
pub proof fn lemma_normal_completion_defers_second<W, U: Sequence<W>, V: Sequence<W>>(
    a: U,
    b: V,
    time: u64,
    world: W,
    next_time: u64,
    next_world: W,
)
    requires
        a.step(time, world).2 == Outcome::Done(Done::Normal),
    ensures
        ({
            let (t1, w1, r1) = Then::of(Some(a), b).step(time, world);
            let (t2, w2, r2) = t1.step(next_time, next_world);
            let (b1, wb, rb) = b.step(next_time, next_world);
            &&& r1 == Outcome::Running(Running::NotLagging)
            &&& w1 == a.step(time, world).1
            &&& t1 == Then::<U, V>::of(None, b)
            &&& t2 == Then::<U, V>::of(None, b1)
            &&& w2 == wb
            &&& r2 == rb
        }),
{
    Then::<U, V>::lemma_of_parts(Some(a), b);
    Then::<U, V>::lemma_of_parts(None, b);
}

/// When the first unit asks to advance now, the second unit gets its first
/// update within the same call, at the same tick, on the world that the first
/// unit left behind, and its outcome is the composition's.
pub proof fn lemma_advance_now_runs_second<W, U: Sequence<W>, V: Sequence<W>>(
    a: U,
    b: V,
    time: u64,
    world: W,
)
    requires
        a.step(time, world).2 == Outcome::Done(Done::AdvanceNow),
    ensures
        ({
            let (t1, w1, r1) = Then::of(Some(a), b).step(time, world);
            let (b1, wb, rb) = b.step(time, a.step(time, world).1);
            &&& t1 == Then::<U, V>::of(None, b1)
            &&& w1 == wb
            &&& r1 == rb
        }),
{
    Then::<U, V>::lemma_of_parts(Some(a), b);
}

/// Advancing now carries through a nested composition: when two units in a
/// row ask to advance now at one tick, the third unit is updated in that same
/// call, however the three are grouped.
pub proof fn lemma_advance_now_is_transitive<
    W,
    A: Sequence<W>,
    B: Sequence<W>,
    C: Sequence<W>,
>(a: A, b: B, c: C, time: u64, world: W)
    requires
        a.step(time, world).2 == Outcome::Done(Done::AdvanceNow),
        b.step(time, a.step(time, world).1).2 == Outcome::Done(Done::AdvanceNow),
    ensures
        ({
            let wa = a.step(time, world).1;
            let wb = b.step(time, wa).1;
            let (c1, wc, rc) = c.step(time, wb);
            let left = Then::of(Some(Then::of(Some(a), b)), c).step(time, world);
            let right = Then::of(Some(a), Then::of(Some(b), c)).step(time, world);
            &&& left.0.first() is None
            &&& left.0.second() == c1
            &&& left.1 == wc
            &&& left.2 == rc
            &&& right.0.first() is None
            &&& right.0.second() == Then::<B, C>::of(None, c1)
            &&& right.1 == wc
            &&& right.2 == rc
        }),
{
    Then::<A, B>::lemma_of_parts(Some(a), b);
    Then::<Then<A, B>, C>::lemma_of_parts(Some(Then::of(Some(a), b)), c);
    Then::<B, C>::lemma_of_parts(Some(b), c);
    Then::<A, Then<B, C>>::lemma_of_parts(Some(a), Then::of(Some(b), c));
    let wa = a.step(time, world).1;
    let wb = b.step(time, wa).1;
    let c1 = c.step(time, wb).0;
    Then::<Then<A, B>, C>::lemma_of_parts(None, c1);
    Then::<A, Then<B, C>>::lemma_of_parts(None, Then::of(None, c1));
}

} // verus!
