//! Compiled scripts.

use vstd::prelude::*;
use vstd::slice::slice_subrange;
use crate::vm::value::Value;

verus! {

/// The fixed entry points that the game calls at set moments of a script's
/// life.
#[derive(Clone, Copy, Debug, PartialEq, Eq, Structural)]
pub enum PredefinedProc {
    /// Called once, before anything else in the script.
    Start,
    /// Called when the player enters the map.
    MapEnter,
    /// Called on every update of the map.
    MapUpdate,
    /// Called when the player talks to the script's object.
    Talk,
}

/// One entry of a program's procedure table.
#[derive(Debug)]
pub struct Procedure {
    /// The procedure's name.
    pub name: Vec<u8>,
    /// Where in the code stream the procedure begins.
    pub offset: usize,
    /// How many arguments a caller leaves on the data stack.
    pub arg_count: usize,
    /// The entry point that this procedure serves, if any.
    pub hook: Option<PredefinedProc>,
}

/// A compiled script. Nothing in it changes while it runs.
#[derive(Debug)]
pub struct Program {
    /// The code stream: two-byte instruction tags, most significant byte
    /// first, three of which are followed by a literal.
    pub code: Vec<u8>,
    /// The procedure table.
    pub procs: Vec<Procedure>,
    /// The constant pool: the names of the variables that the program
    /// exports, one per slot of its exported scope.
    pub pool: Vec<Vec<u8>>,
}

impl Program {
    /// The bytes that a string value stands for: the span of the code stream
    /// that it names, if the span lies within the code.
    pub open spec fn string_spec(code: Seq<u8>, value: Value) -> Option<Seq<u8>> {
        match value {
            Value::String { start, len } => if start + len <= code.len() {
                Some(code.subrange(start as int, start + len))
            } else {
                None
            },
            _ => None,
        }
    }

    /// The bytes of a string value. `None` for a value that is no string,
    /// and for a string that is not one of this program.
    pub fn string(&self, value: Value) -> (r: Option<&[u8]>)
        ensures
            match Self::string_spec(self.code@, value) {
                Some(bytes) => r.is_some() && r.unwrap()@ == bytes,
                None => r is None,
            },
    {
        match value {
            Value::String { start, len } => {
                let total = self.code.len();
                if start <= total && len <= total - start {
                    Some(slice_subrange(self.code.as_slice(), start, start + len))
                } else {
                    None
                }
            },
            _ => None,
        }
    }

    /// The first procedure of `procs` at or after `from` that serves `hook`,
    /// or `procs.len()` if there is none.
    pub open spec fn hook_index(procs: Seq<Procedure>, hook: PredefinedProc, from: int) -> int
        decreases procs.len() - from,
    {
        if from < 0 || from >= procs.len() {
            procs.len() as int
        } else if procs[from].hook == Some(hook) {
            from
        } else {
            Self::hook_index(procs, hook, from + 1)
        }
    }

    /// The search for a hook ends at a procedure that serves it, or at the
    /// end of the table.
    pub proof fn lemma_hook_index(procs: Seq<Procedure>, hook: PredefinedProc, from: int)
        requires
            0 <= from <= procs.len(),
        ensures
            from <= Self::hook_index(procs, hook, from) <= procs.len(),
            Self::hook_index(procs, hook, from) < procs.len() ==> procs[Self::hook_index(
                procs,
                hook,
                from,
            )].hook == Some(hook),
        decreases procs.len() - from,
    {
        if from < procs.len() && procs[from].hook != Some(hook) {
            Self::lemma_hook_index(procs, hook, from + 1);
        }
    }

    /// The place in the procedure table of the procedure that serves `hook`:
    /// the first one, where several do.
    pub fn find_hook(&self, hook: PredefinedProc) -> (r: Option<usize>)
        ensures
            match r {
                Some(i) => {
                    &&& i < self.procs@.len()
                    &&& self.procs@[i as int].hook == Some(hook)
                    &&& forall|k: int| 0 <= k < i ==> (#[trigger] self.procs@[k]).hook != Some(hook)
                },
                None => forall|k: int|
                    0 <= k < self.procs@.len() ==> (#[trigger] self.procs@[k]).hook != Some(hook),
            },
            r == (if Self::hook_index(self.procs@, hook, 0) < self.procs@.len() {
                Some(Self::hook_index(self.procs@, hook, 0) as usize)
            } else {
                None
            }),
    {
        let mut i: usize = 0;
        while i < self.procs.len()
            invariant
                i <= self.procs.len(),
                forall|k: int| 0 <= k < i ==> (#[trigger] self.procs@[k]).hook != Some(hook),
                Self::hook_index(self.procs@, hook, 0) == Self::hook_index(
                    self.procs@,
                    hook,
                    i as int,
                ),
            decreases self.procs.len() - i,
        {
            let found = match self.procs[i].hook {
                Some(h) => h == hook,
                None => false,
            };
            if found {
                return Some(i);
            }
            i = i + 1;
        }
        None
    }
}

} // verus!
