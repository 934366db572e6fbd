//! The machine as a mathematical object, and what each kind of instruction
//! makes of it.
//!
//! Everything here is specification: [`Machine`] is what a
//! [`ProgramState`](crate::vm::state::ProgramState) looks like to a
//! contract, and the functions say, for every machine, what an instruction
//! leaves behind and what it reports.

use vstd::prelude::*;
use crate::vm::error::{Error, Suspend};
use crate::vm::instruction::opcode::Opcode;
use crate::vm::program::Procedure;
use crate::vm::scope::{fetch_spec, store_spec};
use crate::vm::value::Value;

verus! {

/// The record of one procedure call in progress.
#[derive(Clone, Copy, Debug, PartialEq, Eq, Structural)]
pub struct Frame {
    /// Where the caller goes on.
    pub return_pc: usize,
    /// The caller's base index.
    pub saved_base: usize,
    /// How many arguments the call was given.
    pub arg_count: usize,
    /// The machine's flags at the time of the call, put back on return.
    pub flags: u32,
}

/// What an instruction asks of the loop that runs it.
#[derive(Clone, Copy, Debug, PartialEq, Eq, Structural)]
pub enum Flow {
    /// Go on with the next instruction.
    Continue,
    /// The procedure that was invoked from outside has returned.
    Returned,
    /// The whole program has ended.
    Exited,
    /// Keep the machine as it is until it is resumed.
    Suspend(Suspend),
    /// The instruction's work lies with the game; the machine stands just
    /// behind the instruction and waits for that work to be done.
    Host(Opcode),
}

/// The operations on two integers.
#[derive(Clone, Copy, Debug, PartialEq, Eq, Structural)]
pub enum BinaryOp {
    Add,
    Sub,
    Mul,
    Div,
    Mod,
    Equal,
    NotEqual,
    Less,
    LessEqual,
    Greater,
    GreaterEqual,
    And,
    Or,
    Bwand,
    Bwor,
    Bwxor,
}

/// The operations on one integer.
#[derive(Clone, Copy, Debug, PartialEq, Eq, Structural)]
pub enum UnaryOp {
    Negate,
    Not,
    Bwnot,
}

impl BinaryOp {
    /// The result of the operation on `a` and `b`, or `None` where it has
    /// none: division by zero, and the one quotient that does not fit.
    ///
    /// Sums, differences and products wrap around; quotients truncate
    /// towards zero and remainders take the sign of `a`; comparisons and the
    /// two logical operations give 1 for true and 0 for false; the bitwise
    /// operations work on all 32 bits.
    pub open spec fn apply(self, a: i32, b: i32) -> Option<i32> {
        match self {
            BinaryOp::Add => Some(a.wrapping_add(b)),
            BinaryOp::Sub => Some(a.wrapping_sub(b)),
            BinaryOp::Mul => Some(a.wrapping_mul(b)),
            BinaryOp::Div => a.checked_div(b),
            BinaryOp::Mod => a.checked_rem(b),
            BinaryOp::Equal => Some(truth(a == b)),
            BinaryOp::NotEqual => Some(truth(a != b)),
            BinaryOp::Less => Some(truth(a < b)),
            BinaryOp::LessEqual => Some(truth(a <= b)),
            BinaryOp::Greater => Some(truth(a > b)),
            BinaryOp::GreaterEqual => Some(truth(a >= b)),
            BinaryOp::And => Some(truth(a != 0 && b != 0)),
            BinaryOp::Or => Some(truth(a != 0 || b != 0)),
            BinaryOp::Bwand => Some(a & b),
            BinaryOp::Bwor => Some(a | b),
            BinaryOp::Bwxor => Some(a ^ b),
        }
    }

    /// Computes the operation.
    pub fn eval(self, a: i32, b: i32) -> (r: Option<i32>)
        ensures
            r == self.apply(a, b),
    {
        match self {
            BinaryOp::Add => Some(a.wrapping_add(b)),
            BinaryOp::Sub => Some(a.wrapping_sub(b)),
            BinaryOp::Mul => Some(a.wrapping_mul(b)),
            BinaryOp::Div => a.checked_div(b),
            BinaryOp::Mod => a.checked_rem(b),
            BinaryOp::Equal => Some(flag(a == b)),
            BinaryOp::NotEqual => Some(flag(a != b)),
            BinaryOp::Less => Some(flag(a < b)),
            BinaryOp::LessEqual => Some(flag(a <= b)),
            BinaryOp::Greater => Some(flag(a > b)),
            BinaryOp::GreaterEqual => Some(flag(a >= b)),
            BinaryOp::And => Some(flag(a != 0 && b != 0)),
            BinaryOp::Or => Some(flag(a != 0 || b != 0)),
            BinaryOp::Bwand => Some(a & b),
            BinaryOp::Bwor => Some(a | b),
            BinaryOp::Bwxor => Some(a ^ b),
        }
    }
}

impl UnaryOp {
    /// The result of the operation on `a`: its negation, wrapping around; 1
    /// if it is zero and 0 if it is not; or its 32 bits inverted.
    pub open spec fn apply(self, a: i32) -> i32 {
        match self {
            UnaryOp::Negate => 0i32.wrapping_sub(a),
            UnaryOp::Not => truth(a == 0),
            UnaryOp::Bwnot => !a,
        }
    }

    /// Computes the operation.
    pub fn eval(self, a: i32) -> (r: i32)
        ensures
            r == self.apply(a),
    {
        match self {
            UnaryOp::Negate => 0i32.wrapping_sub(a),
            UnaryOp::Not => flag(a == 0),
            UnaryOp::Bwnot => !a,
        }
    }
}

/// 1 for true, 0 for false.
pub open spec fn truth(b: bool) -> i32 {
    if b {
        1
    } else {
        0
    }
}

/// 1 for true, 0 for false.
pub fn flag(b: bool) -> (r: i32)
    ensures
        r == truth(b),
{
    if b {
        1
    } else {
        0
    }
}

/// The number that two bytes spell, most significant first.
pub open spec fn be16(hi: u8, lo: u8) -> u16 {
    (hi * 256 + lo) as u16
}

/// The number that four bytes spell, most significant first.
pub open spec fn be32(b0: u8, b1: u8, b2: u8, b3: u8) -> u32 {
    (b0 * 0x100_0000 + b1 * 0x1_0000 + b2 * 0x100 + b3) as u32
}

/// The two-byte number at `at` in `code`.
pub open spec fn word_at(code: Seq<u8>, at: int) -> u16 {
    be16(code[at], code[at + 1])
}

/// The four-byte number at `at` in `code`.
pub open spec fn long_at(code: Seq<u8>, at: int) -> u32 {
    be32(code[at], code[at + 1], code[at + 2], code[at + 3])
}

/// The state that one script's execution consists of.
pub struct Machine {
    /// The place in the code stream of the next instruction.
    pub pc: usize,
    /// The data stack; its last element is the top.
    pub stack: Seq<Value>,
    /// The calls in progress; the last one is the innermost.
    pub frames: Seq<Frame>,
    /// Where in the data stack the current call's window begins.
    pub base: usize,
    /// The machine's flags.
    pub flags: u32,
    /// The program's exported variables.
    pub exported: Seq<Option<Value>>,
}

/// The variables that outlive a script, and the flag that a script raises to
/// take over the game's default behaviour.
pub struct Env {
    /// The variables of the current map.
    pub map_vars: Seq<Option<Value>>,
    /// The variables of the whole game.
    pub global_vars: Seq<Option<Value>>,
    /// Whether the script has overridden the default behaviour.
    pub script_overrides: bool,
}

/// What an instruction leaves behind and what it reports.
pub struct Step {
    pub machine: Machine,
    pub env: Env,
    pub result: Result<Flow, Error>,
}

impl Machine {
    /// The machine of a program that has not run yet: empty stacks, the
    /// program counter at the start of the code, no flag set, and the given
    /// number of exported variables, all unset.
    pub open spec fn fresh(exported: nat) -> Machine {
        Machine {
            pc: 0,
            stack: Seq::empty(),
            frames: Seq::empty(),
            base: 0,
            flags: 0,
            exported: crate::vm::scope::unset(exported),
        }
    }

    /// The invariant of a machine: the current window begins inside the data
    /// stack, and every call in progress began its window no later than the
    /// call inside it.
    pub open spec fn wf(self) -> bool {
        &&& self.base <= self.stack.len()
        &&& forall|i: int|
            0 <= i < self.frames.len() ==> (#[trigger] self.frames[i]).saved_base <= (if i + 1
                < self.frames.len() {
                self.frames[i + 1].saved_base
            } else {
                self.base
            })
    }

    /// How many values the current call has on the data stack.
    pub open spec fn depth(self) -> int {
        self.stack.len() - self.base
    }

    /// The value `n` places below the top of the data stack.
    pub open spec fn peek(self, n: int) -> Value {
        self.stack[self.stack.len() - 1 - n]
    }

    /// The machine without the top `n` values of its data stack.
    pub open spec fn drop(self, n: int) -> Machine {
        Machine { stack: self.stack.take(self.stack.len() - n), ..self }
    }

    /// The machine with `v` pushed on its data stack.
    pub open spec fn push(self, v: Value) -> Machine {
        Machine { stack: self.stack.push(v), ..self }
    }

    /// The machine with its program counter at `pc`.
    pub open spec fn at(self, pc: usize) -> Machine {
        Machine { pc, ..self }
    }

    /// Removes the top value.
    pub open spec fn pop_spec(self) -> (Machine, Result<Flow, Error>) {
        if self.depth() < 1 {
            (self, Err(Error::StackUnderflow))
        } else {
            (self.drop(1), Ok(Flow::Continue))
        }
    }

    /// Pushes a copy of the top value.
    pub open spec fn dup_spec(self) -> (Machine, Result<Flow, Error>) {
        if self.depth() < 1 {
            (self, Err(Error::StackUnderflow))
        } else {
            (self.push(self.peek(0)), Ok(Flow::Continue))
        }
    }

    /// Exchanges the two topmost values.
    pub open spec fn swap_spec(self) -> (Machine, Result<Flow, Error>) {
        if self.depth() < 2 {
            (self, Err(Error::StackUnderflow))
        } else {
            (self.drop(2).push(self.peek(0)).push(self.peek(1)), Ok(Flow::Continue))
        }
    }

    /// Replaces the two topmost values, both integers, by the result of `op`
    /// on them; the top is the right-hand operand.
    pub open spec fn binary_spec(self, op: BinaryOp) -> (Machine, Result<Flow, Error>) {
        if self.depth() < 2 {
            (self, Err(Error::StackUnderflow))
        } else {
            match (self.peek(1), self.peek(0)) {
                (Value::Int(a), Value::Int(b)) => match op.apply(a, b) {
                    Some(c) => (self.drop(2).push(Value::Int(c)), Ok(Flow::Continue)),
                    None => (self, Err(Error::BadOperandType)),
                },
                _ => (self, Err(Error::BadOperandType)),
            }
        }
    }

    /// Replaces the top value, an integer, by the result of `op` on it.
    pub open spec fn unary_spec(self, op: UnaryOp) -> (Machine, Result<Flow, Error>) {
        if self.depth() < 1 {
            (self, Err(Error::StackUnderflow))
        } else {
            match self.peek(0) {
                Value::Int(a) => (self.drop(1).push(Value::Int(op.apply(a))), Ok(Flow::Continue)),
                _ => (self, Err(Error::BadOperandType)),
            }
        }
    }

    /// Takes an address from the stack and goes on there.
    pub open spec fn jmp_spec(self) -> (Machine, Result<Flow, Error>) {
        if self.depth() < 1 {
            (self, Err(Error::StackUnderflow))
        } else {
            match self.peek(0) {
                Value::Int(a) if a >= 0 => (self.drop(1).at(a as usize), Ok(Flow::Continue)),
                _ => (self, Err(Error::BadOperandType)),
            }
        }
    }

    /// Takes an address and, below it, a condition from the stack, and goes
    /// on at the address if the condition is zero.
    pub open spec fn if_spec(self) -> (Machine, Result<Flow, Error>) {
        if self.depth() < 2 {
            (self, Err(Error::StackUnderflow))
        } else {
            match (self.peek(1), self.peek(0)) {
                (Value::Int(c), Value::Int(a)) if a >= 0 => (
                    if c == 0 {
                        self.drop(2).at(a as usize)
                    } else {
                        self.drop(2)
                    },
                    Ok(Flow::Continue),
                ),
                _ => (self, Err(Error::BadOperandType)),
            }
        }
    }

    /// Takes a procedure reference from the stack and calls that procedure:
    /// a frame records where to return and the caller's base and flags, the
    /// procedure's arguments, already on the stack, become the start of the
    /// new window, and execution goes on at the procedure's offset.
    pub open spec fn call_spec(self, procs: Seq<Procedure>) -> (Machine, Result<Flow, Error>) {
        if self.depth() < 1 {
            (self, Err(Error::StackUnderflow))
        } else {
            match self.peek(0) {
                Value::Proc(p) if p < procs.len() => {
                    let n = procs[p as int].arg_count;
                    if self.depth() - 1 < n {
                        (self, Err(Error::StackUnderflow))
                    } else {
                        (
                            Machine {
                                pc: procs[p as int].offset,
                                stack: self.stack.drop_last(),
                                frames: self.frames.push(
                                    Frame {
                                        return_pc: self.pc,
                                        saved_base: self.base,
                                        arg_count: n,
                                        flags: self.flags,
                                    },
                                ),
                                base: (self.stack.len() - 1 - n) as usize,
                                ..self
                            },
                            Ok(Flow::Continue),
                        )
                    }
                },
                _ => (self, Err(Error::BadOperandType)),
            }
        }
    }

    /// Leaves the innermost call.
    ///
    /// The call's whole window is dropped from the data stack, its arguments
    /// and locals with it; with `has_value` the value that was on top is put
    /// back as the call's result. The caller's base and flags are restored
    /// from the frame. With `is_exit` the whole program ends; otherwise, with
    /// `is_extern`, control goes back to whoever invoked the procedure from
    /// outside; otherwise the caller continues where the frame says.
    pub open spec fn return_spec(self, has_value: bool, is_exit: bool, is_extern: bool) -> (
        Machine,
        Result<Flow, Error>,
    ) {
        if self.frames.len() == 0 || (has_value && self.depth() < 1) {
            (self, Err(Error::StackUnderflow))
        } else {
            let f = self.frames.last();
            let kept = self.stack.take(self.base as int);
            (
                Machine {
                    pc: f.return_pc,
                    stack: if has_value {
                        kept.push(self.peek(0))
                    } else {
                        kept
                    },
                    frames: self.frames.drop_last(),
                    base: f.saved_base,
                    flags: f.flags,
                    ..self
                },
                Ok(
                    if is_exit {
                        Flow::Exited
                    } else if is_extern {
                        Flow::Returned
                    } else {
                        Flow::Continue
                    },
                ),
            )
        }
    }

    /// Takes an index from the stack and pushes the local variable it names:
    /// the value that many places above the base of the current window.
    pub open spec fn fetch_spec(self) -> (Machine, Result<Flow, Error>) {
        if self.depth() < 1 {
            (self, Err(Error::StackUnderflow))
        } else {
            match self.peek(0) {
                Value::Int(i) => if 0 <= i && i < self.depth() - 1 {
                    (self.drop(1).push(self.stack[self.base + i]), Ok(Flow::Continue))
                } else {
                    (self, Err(Error::OutOfBoundsVariable))
                },
                _ => (self, Err(Error::BadOperandType)),
            }
        }
    }

    /// Takes an index and, below it, a value from the stack and writes the
    /// value to the local variable that the index names.
    pub open spec fn store_spec(self) -> (Machine, Result<Flow, Error>) {
        if self.depth() < 2 {
            (self, Err(Error::StackUnderflow))
        } else {
            match self.peek(0) {
                Value::Int(i) => if 0 <= i && i < self.depth() - 2 {
                    (
                        Machine {
                            stack: self.stack.take(self.stack.len() - 2).update(
                                self.base + i,
                                self.peek(1),
                            ),
                            ..self
                        },
                        Ok(Flow::Continue),
                    )
                } else {
                    (self, Err(Error::OutOfBoundsVariable))
                },
                _ => (self, Err(Error::BadOperandType)),
            }
        }
    }

    /// Takes an index from the stack and pushes the variable of `slots` that
    /// it names.
    pub open spec fn fetch_var_spec(self, slots: Seq<Option<Value>>) -> (
        Machine,
        Result<Flow, Error>,
    ) {
        if self.depth() < 1 {
            (self, Err(Error::StackUnderflow))
        } else {
            match self.peek(0) {
                Value::Int(i) => match fetch_spec(slots, i as int) {
                    Ok(v) => (self.drop(1).push(v), Ok(Flow::Continue)),
                    Err(e) => (self, Err(e)),
                },
                _ => (self, Err(Error::BadOperandType)),
            }
        }
    }

    /// Takes an index and, below it, a value from the stack and writes the
    /// value to the variable of `slots` that the index names. The third
    /// component is what becomes of `slots`.
    pub open spec fn store_var_spec(self, slots: Seq<Option<Value>>) -> (
        Machine,
        Result<Flow, Error>,
        Seq<Option<Value>>,
    ) {
        if self.depth() < 2 {
            (self, Err(Error::StackUnderflow), slots)
        } else {
            match self.peek(0) {
                Value::Int(i) => match store_spec(slots, i as int, self.peek(1)) {
                    Ok(written) => (self.drop(2), Ok(Flow::Continue), written),
                    Err(e) => (self, Err(e), slots),
                },
                _ => (self, Err(Error::BadOperandType), slots),
            }
        }
    }

    /// Pushes the four-byte literal that follows the instruction, as a
    /// single-precision number with `float` and as an integer without, and
    /// steps over it.
    pub open spec fn const_long_spec(self, code: Seq<u8>, float: bool) -> (
        Machine,
        Result<Flow, Error>,
    ) {
        if self.pc + 4 > code.len() {
            (self, Err(Error::MalformedCode))
        } else {
            let bits = long_at(code, self.pc as int);
            (
                self.push(
                    if float {
                        Value::Float(bits)
                    } else {
                        Value::Int(bits as i32)
                    },
                ).at((self.pc + 4) as usize),
                Ok(Flow::Continue),
            )
        }
    }

    /// Pushes the string literal that follows the instruction, a two-byte
    /// length and then that many bytes, and steps over it.
    pub open spec fn const_string_spec(self, code: Seq<u8>) -> (Machine, Result<Flow, Error>) {
        if self.pc + 2 > code.len() {
            (self, Err(Error::MalformedCode))
        } else {
            let len = word_at(code, self.pc as int);
            if self.pc + 2 + len > code.len() {
                (self, Err(Error::MalformedCode))
            } else {
                (
                    self.push(
                        Value::String { start: (self.pc + 2) as usize, len: len as usize },
                    ).at((self.pc + 2 + len) as usize),
                    Ok(Flow::Continue),
                )
            }
        }
    }
}

} // verus!
