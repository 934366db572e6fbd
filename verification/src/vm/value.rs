//! The values that scripts compute with.

use vstd::prelude::*;

verus! {

/// A runtime value.
#[derive(Clone, Copy, Debug, PartialEq, Eq, Structural)]
pub enum Value {
    /// A 32-bit integer.
    Int(i32),
    /// A single-precision number, held as its IEEE 754 bit pattern.
    Float(u32),
    /// A string literal: the `len` bytes of the program's code stream that
    /// begin at `start`.
    String { start: usize, len: usize },
    /// A reference to an object of the game, or none.
    Object(Option<u64>),
    /// A reference to a procedure, by its place in the procedure table.
    Proc(usize),
}

impl Value {
    /// The value of a variable that was never written.
    pub open spec fn zero() -> Value {
        Value::Int(0)
    }

    /// The integer that stands for a truth value.
    pub open spec fn truth(b: bool) -> Value {
        Value::Int(
            if b {
                1
            } else {
                0
            },
        )
    }

    /// The truth value as an integer: 1 for true, 0 for false.
    pub fn from_bool(b: bool) -> (v: Value)
        ensures
            v == Value::truth(b),
    {
        if b {
            Value::Int(1)
        } else {
            Value::Int(0)
        }
    }
}

} // verus!
