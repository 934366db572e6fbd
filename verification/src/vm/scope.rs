//! Variable stores addressed by small integers.

use vstd::prelude::*;
use crate::vm::error::Error;
use crate::vm::value::Value;

verus! {

/// A variable scope of a declared size.
///
/// A slot is either unset or holds the value last stored in it. The size is
/// fixed when the scope is made: a store never grows it.
#[derive(Debug)]
pub struct Scope {
    slots: Vec<Option<Value>>,
}

impl View for Scope {
    type V = Seq<Option<Value>>;

    /// The slots in index order; `None` marks a slot that was never written.
    closed spec fn view(&self) -> Seq<Option<Value>> {
        self.slots@
    }
}

/// The slots of a scope of the given size in which nothing was written yet.
pub open spec fn unset(size: nat) -> Seq<Option<Value>> {
    Seq::new(size, |i: int| None)
}

/// What a fetch at `index` yields from `slots`: the stored value, zero for a
/// slot that was never written, and a failure outside the declared size.
pub open spec fn fetch_spec(slots: Seq<Option<Value>>, index: int) -> Result<Value, Error> {
    if 0 <= index < slots.len() {
        match slots[index] {
            Some(v) => Ok(v),
            None => Ok(Value::zero()),
        }
    } else {
        Err(Error::OutOfBoundsVariable)
    }
}

/// What a store of `value` at `index` makes of `slots`.
pub open spec fn store_spec(slots: Seq<Option<Value>>, index: int, value: Value) -> Result<
    Seq<Option<Value>>,
    Error,
> {
    if 0 <= index < slots.len() {
        Ok(slots.update(index, Some(value)))
    } else {
        Err(Error::OutOfBoundsVariable)
    }
}

impl Scope {
    /// A scope of `size` slots, all unset.
    pub fn new(size: usize) -> (s: Scope)
        ensures
            s@ == unset(size as nat),
    {
        let mut slots: Vec<Option<Value>> = Vec::new();
        let mut i: usize = 0;
        while i < size
            invariant
                i <= size,
                slots@.len() == i,
                forall|k: int| 0 <= k < i ==> (#[trigger] slots@[k]).is_none(),
            decreases size - i,
        {
            slots.push(None);
            i = i + 1;
        }
        assert(slots@ =~= unset(size as nat));
        Scope { slots }
    }

    /// A scope whose slots hold `values`, in order; none is unset.
    pub fn from_values(values: &Vec<Value>) -> (s: Scope)
        ensures
            s@ == values@.map_values(|v: Value| Some(v)),
    {
        let mut slots: Vec<Option<Value>> = Vec::new();
        let mut i: usize = 0;
        while i < values.len()
            invariant
                i <= values.len(),
                slots@ == values@.take(i as int).map_values(|v: Value| Some(v)),
            decreases values.len() - i,
        {
            slots.push(Some(values[i]));
            proof {
                assert(values@.take(i + 1) == values@.take(i as int).push(values@[i as int]));
                assert(slots@ =~= values@.take(i + 1).map_values(|v: Value| Some(v)));
            }
            i = i + 1;
        }
        proof {
            assert(values@.take(i as int) == values@);
        }
        Scope { slots }
    }

    /// The declared size.
    pub fn len(&self) -> (n: usize)
        ensures
            n == self@.len(),
    {
        self.slots.len()
    }

    /// Whether the slot at `index` exists and has been written.
    pub fn is_set(&self, index: usize) -> (b: bool)
        ensures
            b == (index < self@.len() && self@[index as int].is_some()),
    {
        index < self.slots.len() && self.slots[index].is_some()
    }

    /// Reads the variable at `index`.
    ///
    /// A slot that was never written reads as zero; an index outside the
    /// declared size fails.
    pub fn fetch(&self, index: usize) -> (r: Result<Value, Error>)
        ensures
            r == fetch_spec(self@, index as int),
    {
        if index < self.slots.len() {
            match self.slots[index] {
                Some(v) => Ok(v),
                None => Ok(Value::Int(0)),
            }
        } else {
            Err(Error::OutOfBoundsVariable)
        }
    }

    /// Writes the variable at `index`.
    ///
    /// An index outside the declared size fails and leaves the scope as it
    /// was.
    pub fn store(&mut self, index: usize, value: Value) -> (r: Result<(), Error>)
        ensures
            match store_spec(old(self)@, index as int, value) {
                Ok(slots) => r.is_ok() && final(self)@ == slots,
                Err(e) => r == Err::<(), Error>(e) && final(self)@ == old(self)@,
            },
    {
        if index < self.slots.len() {
            self.slots[index] = Some(value);
            Ok(())
        } else {
            Err(Error::OutOfBoundsVariable)
        }
    }

    /// The contents, slot by slot, with zero for every unset slot: what a
    /// fetch of each index would yield.
    pub fn snapshot(&self) -> (values: Vec<Value>)
        ensures
            values@.len() == self@.len(),
            forall|i: int|
                0 <= i < self@.len() ==> Ok::<Value, Error>(#[trigger] values@[i]) == fetch_spec(
                    self@,
                    i,
                ),
    {
        let mut values: Vec<Value> = Vec::new();
        let mut i: usize = 0;
        while i < self.slots.len()
            invariant
                i <= self.slots.len(),
                values@.len() == i,
                forall|k: int|
                    0 <= k < i ==> Ok::<Value, Error>(#[trigger] values@[k]) == fetch_spec(
                        self@,
                        k,
                    ),
            decreases self.slots.len() - i,
        {
            let v = match self.slots[i] {
                Some(v) => v,
                None => Value::Int(0),
            };
            values.push(v);
            i = i + 1;
        }
        values
    }
}

/// A variable that was never written reads as zero, wherever in the scope it
/// lies; no index at or beyond the declared size can be read.
pub proof fn lemma_fetch_default(slots: Seq<Option<Value>>, index: int)
    ensures
        0 <= index < slots.len() && slots[index].is_none() ==> fetch_spec(slots, index) == Ok::<
            Value,
            Error,
        >(Value::Int(0)),
        index < 0 || index >= slots.len() ==> fetch_spec(slots, index) == Err::<Value, Error>(
            Error::OutOfBoundsVariable,
        ),
{
}

/// A stored value is what the next fetch of that index yields, and no other
/// index is affected.
pub proof fn lemma_store_then_fetch(slots: Seq<Option<Value>>, index: int, value: Value, other: int)
    requires
        0 <= index < slots.len(),
    ensures
        store_spec(slots, index, value).is_ok(),
        fetch_spec(store_spec(slots, index, value).unwrap(), index) == Ok::<Value, Error>(value),
        other != index ==> fetch_spec(store_spec(slots, index, value).unwrap(), other)
            == fetch_spec(slots, other),
{
}

/// Variables that are saved and restored read as before: a scope made from
/// the snapshot of another has the same size and yields the same value for
/// every index.
pub proof fn lemma_snapshot_round_trip(slots: Seq<Option<Value>>, values: Seq<Value>, index: int)
    requires
        values.len() == slots.len(),
        forall|i: int|
            0 <= i < slots.len() ==> Ok::<Value, Error>(#[trigger] values[i]) == fetch_spec(slots, i),
    ensures
        values.map_values(|v: Value| Some(v)).len() == slots.len(),
        fetch_spec(values.map_values(|v: Value| Some(v)), index) == fetch_spec(slots, index),
{
    if 0 <= index < slots.len() {
        assert(Ok::<Value, Error>(values[index]) == fetch_spec(slots, index));
    }
}

} // verus!
