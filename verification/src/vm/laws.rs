//! What holds of every machine, whatever program it runs.

use vstd::prelude::*;
use crate::vm::error::Error;
use crate::vm::instruction::opcode::Opcode;
use crate::vm::instruction::Handler;
use crate::vm::machine::{Env, Flow, Machine};
use crate::vm::program::{Procedure, Program};
use crate::vm::value::Value;

verus! {

/// No instruction but a return reaches below the window of the current
/// call: the values of the callers stay as they are, the calls in progress
/// stay in progress, and the window never begins lower than it did.
pub proof fn lemma_window_protects_callers(
    h: Handler,
    op: Opcode,
    program: Program,
    m: Machine,
    env: Env,
)
    requires
        m.wf(),
        m.stack.len() <= usize::MAX,
        !(h is Return),
    ensures
        ({
            let after = h.effect(op, program, m, env).machine;
            &&& after.base >= m.base
            &&& after.stack.len() >= m.base
            &&& after.stack.take(m.base as int) == m.stack.take(m.base as int)
            &&& after.frames.len() >= m.frames.len()
            &&& after.frames.take(m.frames.len() as int) == m.frames
        }),
{
    let after = h.effect(op, program, m, env).machine;
    assert(m.frames.take(m.frames.len() as int) == m.frames);
    if after.stack != m.stack {
        assert(after.stack.take(m.base as int) =~= m.stack.take(m.base as int));
    }
    if after.frames != m.frames {
        assert(after.frames.take(m.frames.len() as int) =~= m.frames);
    }
}

/// A return undoes its call. Whatever the called procedure did inside its
/// window, once it returns the caller finds its data stack as it was below
/// the procedure reference and the arguments, with the result on top if
/// there is one, its window and flags restored, and goes on behind the call.
pub proof fn lemma_return_undoes_call(
    m: Machine,
    procs: Seq<Procedure>,
    callee: Machine,
    has_value: bool,
)
    requires
        m.wf(),
        m.stack.len() <= usize::MAX,
        m.call_spec(procs).1 is Ok,
        callee.frames == m.call_spec(procs).0.frames,
        callee.base == m.call_spec(procs).0.base,
        callee.base <= callee.stack.len(),
        callee.stack.take(callee.base as int) == m.call_spec(procs).0.stack.take(
            callee.base as int,
        ),
        has_value ==> callee.depth() >= 1,
    ensures
        ({
            let arg_count = procs[m.peek(0)->Proc_0 as int].arg_count;
            let below = m.stack.take(m.stack.len() - 1 - arg_count);
            let (back, r) = callee.return_spec(has_value, false, false);
            &&& r == Ok::<Flow, Error>(Flow::Continue)
            &&& back.pc == m.pc
            &&& back.base == m.base
            &&& back.flags == m.flags
            &&& back.frames == m.frames
            &&& back.stack == (if has_value {
                below.push(callee.peek(0))
            } else {
                below
            })
            &&& back.wf()
        }),
{
    let called = m.call_spec(procs).0;
    let arg_count = procs[m.peek(0)->Proc_0 as int].arg_count;
    let below = m.stack.take(m.stack.len() - 1 - arg_count);
    let (back, r) = callee.return_spec(has_value, false, false);
    assert(called.frames.drop_last() == m.frames);
    assert(called.stack.take(called.base as int) =~= below);
    assert(back.frames == m.frames);
}

/// The value that a string literal leaves on the stack stands for the bytes
/// of the literal: those that follow its two-byte length in the code.
pub proof fn lemma_string_literal(m: Machine, code: Seq<u8>)
    requires
        m.const_string_spec(code).1 is Ok,
        code.len() <= usize::MAX,
    ensures
        ({
            let after = m.const_string_spec(code).0;
            let len = crate::vm::machine::word_at(code, m.pc as int);
            &&& after.stack == m.stack.push(after.peek(0))
            &&& Program::string_spec(code, after.peek(0)) == Some(
                code.subrange(m.pc + 2, m.pc + 2 + len),
            )
            &&& after.pc == m.pc + 2 + len
        }),
{
    let after = m.const_string_spec(code).0;
    assert(after.peek(0) == after.stack[m.stack.len() as int]);
}

/// A variable that was never written reads as zero: the fetching
/// instruction replaces the index on the stack by the integer 0. An index
/// outside the declared size of the scope fails and leaves the machine as it
/// was.
pub proof fn lemma_variable_fetch(m: Machine, slots: Seq<Option<Value>>, index: i32)
    requires
        m.depth() >= 1,
        m.peek(0) == Value::Int(index),
    ensures
        0 <= index < slots.len() && slots[index as int].is_none() ==> m.fetch_var_spec(slots) == (
            m.drop(1).push(Value::Int(0)),
            Ok::<Flow, Error>(Flow::Continue),
        ),
        index < 0 || index >= slots.len() ==> m.fetch_var_spec(slots) == (
            m,
            Err::<Flow, Error>(Error::OutOfBoundsVariable),
        ),
{
}

/// A store outside the declared size of a scope fails and changes neither
/// the machine nor the scope; the scope never grows.
pub proof fn lemma_variable_store(m: Machine, slots: Seq<Option<Value>>, index: i32)
    requires
        m.depth() >= 2,
        m.peek(0) == Value::Int(index),
    ensures
        m.store_var_spec(slots).2.len() == slots.len(),
        index < 0 || index >= slots.len() ==> m.store_var_spec(slots) == (
            m,
            Err::<Flow, Error>(Error::OutOfBoundsVariable),
            slots,
        ),
        0 <= index < slots.len() ==> m.store_var_spec(slots) == (
            m.drop(2),
            Ok::<Flow, Error>(Flow::Continue),
            slots.update(index as int, Some(m.peek(1))),
        ),
{
}

} // verus!
