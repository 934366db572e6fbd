//! The handlers: what each kind of instruction does to the machine.
//!
//! Every handler checks all it needs before it changes anything, so that a
//! failing instruction leaves machine and environment untouched.

use vstd::prelude::*;
use crate::vm::error::{Error, Suspend};
use crate::vm::instruction::opcode::Opcode;
use crate::vm::instruction::Context;
use crate::vm::machine::{BinaryOp, Flow, Frame, Machine, UnaryOp};
use crate::vm::scope::Scope;
use crate::vm::state::ProgramState;
use crate::vm::value::Value;

verus! {

/// Removes the top `n` values from the data stack.
fn drop_values(prg: &mut ProgramState, n: usize)
    requires
        n <= old(prg)@.stack.len(),
    ensures
        final(prg)@ == old(prg)@.drop(n as int),
        final(prg).program == old(prg).program,
{
    let len = prg.data_stack.len();
    prg.data_stack.truncate(len - n);
    assert(prg.data_stack@ == old(prg).data_stack@.take(len - n));
}

/// The top of the current call's values.
fn top(prg: &ProgramState) -> (v: Value)
    requires
        prg@.wf(),
        prg@.depth() >= 1,
    ensures
        v == prg@.peek(0),
{
    prg.data_stack[prg.data_stack.len() - 1]
}

/// The value just below the top.
fn second(prg: &ProgramState) -> (v: Value)
    requires
        prg@.wf(),
        prg@.depth() >= 2,
    ensures
        v == prg@.peek(1),
{
    prg.data_stack[prg.data_stack.len() - 2]
}

/// How many values the current call has on the data stack.
fn depth(prg: &ProgramState) -> (n: usize)
    requires
        prg@.wf(),
    ensures
        n == prg@.depth(),
{
    prg.data_stack.len() - prg.base
}

/// Does nothing.
pub fn noop<S>(ctx: Context<S>) -> (r: Result<Flow, Error>)
    ensures
        r == Ok::<Flow, Error>(Flow::Continue),
        *final(ctx.prg) == *old(ctx.prg),
        *final(ctx.ext) == *old(ctx.ext),
{
    Ok(Flow::Continue)
}

/// Fails: nothing executes this instruction.
pub fn unimplemented<S>(ctx: Context<S>) -> (r: Result<Flow, Error>)
    ensures
        r == Err::<Flow, Error>(Error::UnimplementedOpcode),
        *final(ctx.prg) == *old(ctx.prg),
        *final(ctx.ext) == *old(ctx.ext),
{
    Err(Error::UnimplementedOpcode)
}

/// Hands the instruction with tag `op` to the game.
pub fn host<S>(ctx: Context<S>, op: Opcode) -> (r: Result<Flow, Error>)
    ensures
        r == Ok::<Flow, Error>(Flow::Host(op)),
        *final(ctx.prg) == *old(ctx.prg),
        *final(ctx.ext) == *old(ctx.ext),
{
    Ok(Flow::Host(op))
}

/// Asks for the script to be suspended at the end of a dialog node.
pub fn gsay_end<S>(ctx: Context<S>) -> (r: Result<Flow, Error>)
    ensures
        r == Ok::<Flow, Error>(Flow::Suspend(Suspend::GsayEnd)),
        *final(ctx.prg) == *old(ctx.prg),
        *final(ctx.ext) == *old(ctx.ext),
{
    Ok(Flow::Suspend(Suspend::GsayEnd))
}

/// Ends the program.
pub fn exit_prog<S>(ctx: Context<S>) -> (r: Result<Flow, Error>)
    ensures
        r == Ok::<Flow, Error>(Flow::Exited),
        *final(ctx.prg) == *old(ctx.prg),
        *final(ctx.ext) == *old(ctx.ext),
{
    Ok(Flow::Exited)
}

/// Raises the flag that the script overrides the game's default behaviour.
pub fn script_overrides<S>(ctx: Context<S>) -> (r: Result<Flow, Error>)
    ensures
        r == Ok::<Flow, Error>(Flow::Continue),
        *final(ctx.prg) == *old(ctx.prg),
        final(ctx.ext).state.script_overrides,
        final(ctx.ext).state.sequences == old(ctx.ext).state.sequences,
        final(ctx.ext).map_vars == old(ctx.ext).map_vars,
        final(ctx.ext).global_vars == old(ctx.ext).global_vars,
{
    ctx.ext.state.script_overrides = true;
    Ok(Flow::Continue)
}

/// Pushes the four-byte literal behind the tag, an integer or, with `float`,
/// a single-precision number, and steps over it.
pub fn const_long<S>(ctx: Context<S>, float: bool) -> (r: Result<Flow, Error>)
    ensures
        (final(ctx.prg)@, r) == old(ctx.prg)@.const_long_spec(old(ctx.prg).program.code@, float),
        final(ctx.prg).program == old(ctx.prg).program,
        *final(ctx.ext) == *old(ctx.ext),
{
    let len = ctx.prg.program.code.len();
    let pc = ctx.prg.pc;
    if pc > len || len - pc < 4 {
        return Err(Error::MalformedCode);
    }
    let b0 = ctx.prg.program.code[pc];
    let b1 = ctx.prg.program.code[pc + 1];
    let b2 = ctx.prg.program.code[pc + 2];
    let b3 = ctx.prg.program.code[pc + 3];
    let bits: u32 = (b0 as u32) * 0x100_0000 + (b1 as u32) * 0x1_0000 + (b2 as u32) * 0x100 + (
    b3 as u32);
    let value = if float {
        Value::Float(bits)
    } else {
        Value::Int(bits as i32)
    };
    ctx.prg.data_stack.push(value);
    ctx.prg.pc = pc + 4;
    Ok(Flow::Continue)
}

/// Pushes the string literal behind the tag and steps over it.
pub fn const_string<S>(ctx: Context<S>) -> (r: Result<Flow, Error>)
    ensures
        (final(ctx.prg)@, r) == old(ctx.prg)@.const_string_spec(old(ctx.prg).program.code@),
        final(ctx.prg).program == old(ctx.prg).program,
        *final(ctx.ext) == *old(ctx.ext),
{
    let total = ctx.prg.program.code.len();
    let pc = ctx.prg.pc;
    if pc > total || total - pc < 2 {
        return Err(Error::MalformedCode);
    }
    let hi = ctx.prg.program.code[pc];
    let lo = ctx.prg.program.code[pc + 1];
    let len: u16 = (hi as u16) * 256 + (lo as u16);
    if total - pc - 2 < len as usize {
        return Err(Error::MalformedCode);
    }
    ctx.prg.data_stack.push(Value::String { start: pc + 2, len: len as usize });
    ctx.prg.pc = pc + 2 + len as usize;
    Ok(Flow::Continue)
}

/// Removes the top value.
pub fn pop<S>(ctx: Context<S>) -> (r: Result<Flow, Error>)
    requires
        old(ctx.prg)@.wf(),
    ensures
        (final(ctx.prg)@, r) == old(ctx.prg)@.pop_spec(),
        final(ctx.prg).program == old(ctx.prg).program,
        *final(ctx.ext) == *old(ctx.ext),
{
    if depth(ctx.prg) < 1 {
        return Err(Error::StackUnderflow);
    }
    drop_values(ctx.prg, 1);
    Ok(Flow::Continue)
}

/// Pushes a copy of the top value.
pub fn dup<S>(ctx: Context<S>) -> (r: Result<Flow, Error>)
    requires
        old(ctx.prg)@.wf(),
    ensures
        (final(ctx.prg)@, r) == old(ctx.prg)@.dup_spec(),
        final(ctx.prg).program == old(ctx.prg).program,
        *final(ctx.ext) == *old(ctx.ext),
{
    if depth(ctx.prg) < 1 {
        return Err(Error::StackUnderflow);
    }
    let v = top(ctx.prg);
    ctx.prg.data_stack.push(v);
    Ok(Flow::Continue)
}

/// Exchanges the two topmost values.
pub fn swap<S>(ctx: Context<S>) -> (r: Result<Flow, Error>)
    requires
        old(ctx.prg)@.wf(),
    ensures
        (final(ctx.prg)@, r) == old(ctx.prg)@.swap_spec(),
        final(ctx.prg).program == old(ctx.prg).program,
        *final(ctx.ext) == *old(ctx.ext),
{
    if depth(ctx.prg) < 2 {
        return Err(Error::StackUnderflow);
    }
    let a = top(ctx.prg);
    let b = second(ctx.prg);
    drop_values(ctx.prg, 2);
    ctx.prg.data_stack.push(a);
    ctx.prg.data_stack.push(b);
    Ok(Flow::Continue)
}

/// Replaces the two topmost values by the result of `op` on them.
pub fn binary<S>(ctx: Context<S>, op: BinaryOp) -> (r: Result<Flow, Error>)
    requires
        old(ctx.prg)@.wf(),
    ensures
        (final(ctx.prg)@, r) == old(ctx.prg)@.binary_spec(op),
        final(ctx.prg).program == old(ctx.prg).program,
        *final(ctx.ext) == *old(ctx.ext),
{
    if depth(ctx.prg) < 2 {
        return Err(Error::StackUnderflow);
    }
    match (second(ctx.prg), top(ctx.prg)) {
        (Value::Int(a), Value::Int(b)) => match op.eval(a, b) {
            Some(c) => {
                drop_values(ctx.prg, 2);
                ctx.prg.data_stack.push(Value::Int(c));
                Ok(Flow::Continue)
            },
            None => Err(Error::BadOperandType),
        },
        _ => Err(Error::BadOperandType),
    }
}

/// Replaces the top value by the result of `op` on it.
pub fn unary<S>(ctx: Context<S>, op: UnaryOp) -> (r: Result<Flow, Error>)
    requires
        old(ctx.prg)@.wf(),
    ensures
        (final(ctx.prg)@, r) == old(ctx.prg)@.unary_spec(op),
        final(ctx.prg).program == old(ctx.prg).program,
        *final(ctx.ext) == *old(ctx.ext),
{
    if depth(ctx.prg) < 1 {
        return Err(Error::StackUnderflow);
    }
    match top(ctx.prg) {
        Value::Int(a) => {
            drop_values(ctx.prg, 1);
            ctx.prg.data_stack.push(Value::Int(op.eval(a)));
            Ok(Flow::Continue)
        },
        _ => Err(Error::BadOperandType),
    }
}

/// Takes an address from the stack and goes on there.
pub fn jmp<S>(ctx: Context<S>) -> (r: Result<Flow, Error>)
    requires
        old(ctx.prg)@.wf(),
    ensures
        (final(ctx.prg)@, r) == old(ctx.prg)@.jmp_spec(),
        final(ctx.prg).program == old(ctx.prg).program,
        *final(ctx.ext) == *old(ctx.ext),
{
    if depth(ctx.prg) < 1 {
        return Err(Error::StackUnderflow);
    }
    match top(ctx.prg) {
        Value::Int(a) => {
            if a >= 0 {
                drop_values(ctx.prg, 1);
                ctx.prg.pc = a as usize;
                Ok(Flow::Continue)
            } else {
                Err(Error::BadOperandType)
            }
        },
        _ => Err(Error::BadOperandType),
    }
}

/// Takes an address and a condition from the stack and goes on at the
/// address if the condition is zero.
pub fn if_<S>(ctx: Context<S>) -> (r: Result<Flow, Error>)
    requires
        old(ctx.prg)@.wf(),
    ensures
        (final(ctx.prg)@, r) == old(ctx.prg)@.if_spec(),
        final(ctx.prg).program == old(ctx.prg).program,
        *final(ctx.ext) == *old(ctx.ext),
{
    if depth(ctx.prg) < 2 {
        return Err(Error::StackUnderflow);
    }
    match (second(ctx.prg), top(ctx.prg)) {
        (Value::Int(c), Value::Int(a)) => {
            if a >= 0 {
                drop_values(ctx.prg, 2);
                if c == 0 {
                    ctx.prg.pc = a as usize;
                }
                Ok(Flow::Continue)
            } else {
                Err(Error::BadOperandType)
            }
        },
        _ => Err(Error::BadOperandType),
    }
}

/// Takes a procedure reference from the stack and calls that procedure.
pub fn call<S>(ctx: Context<S>) -> (r: Result<Flow, Error>)
    requires
        old(ctx.prg)@.wf(),
    ensures
        (final(ctx.prg)@, r) == old(ctx.prg)@.call_spec(old(ctx.prg).program.procs@),
        final(ctx.prg)@.wf(),
        final(ctx.prg).program == old(ctx.prg).program,
        *final(ctx.ext) == *old(ctx.ext),
{
    let d = depth(ctx.prg);
    if d < 1 {
        return Err(Error::StackUnderflow);
    }
    match top(ctx.prg) {
        Value::Proc(p) => {
            if p < ctx.prg.program.procs.len() {
                let n = ctx.prg.program.procs[p].arg_count;
                if d - 1 < n {
                    return Err(Error::StackUnderflow);
                }
                let frame = Frame {
                    return_pc: ctx.prg.pc,
                    saved_base: ctx.prg.base,
                    arg_count: n,
                    flags: ctx.prg.flags,
                };
                drop_values(ctx.prg, 1);
                assert(ctx.prg.data_stack@ == old(ctx.prg).data_stack@.drop_last());
                ctx.prg.frames.push(frame);
                ctx.prg.base = ctx.prg.data_stack.len() - n;
                ctx.prg.pc = ctx.prg.program.procs[p].offset;
                Ok(Flow::Continue)
            } else {
                Err(Error::BadOperandType)
            }
        },
        _ => Err(Error::BadOperandType),
    }
}

/// Leaves the innermost call: the one primitive that stands behind every
/// returning instruction.
pub fn pop_flags_return<S>(ctx: Context<S>, has_value: bool, is_exit: bool, is_extern: bool) -> (r:
    Result<Flow, Error>)
    requires
        old(ctx.prg)@.wf(),
    ensures
        (final(ctx.prg)@, r) == old(ctx.prg)@.return_spec(has_value, is_exit, is_extern),
        final(ctx.prg)@.wf(),
        final(ctx.prg).program == old(ctx.prg).program,
        *final(ctx.ext) == *old(ctx.ext),
{
    let nf = ctx.prg.frames.len();
    if nf == 0 || (has_value && depth(ctx.prg) < 1) {
        return Err(Error::StackUnderflow);
    }
    let frame = ctx.prg.frames[nf - 1];
    let ghost m = ctx.prg@;
    proof {
        assert(m.frames[nf - 1].saved_base <= m.base);
    }
    if has_value {
        let v = top(ctx.prg);
        ctx.prg.data_stack.truncate(ctx.prg.base);
        ctx.prg.data_stack.push(v);
    } else {
        ctx.prg.data_stack.truncate(ctx.prg.base);
    }
    ctx.prg.frames.truncate(nf - 1);
    ctx.prg.base = frame.saved_base;
    ctx.prg.flags = frame.flags;
    ctx.prg.pc = frame.return_pc;
    proof {
        assert(ctx.prg.frames@ == m.frames.drop_last());
        let after = ctx.prg@;
        assert forall|i: int| 0 <= i < after.frames.len() implies (#[trigger] after.frames[i]).saved_base
            <= (if i + 1 < after.frames.len() {
            after.frames[i + 1].saved_base
        } else {
            after.base
        }) by {
            assert(after.frames[i] == m.frames[i]);
            if i + 1 < after.frames.len() {
                assert(after.frames[i + 1] == m.frames[i + 1]);
            }
        }
    }
    Ok(
        if is_exit {
            Flow::Exited
        } else if is_extern {
            Flow::Returned
        } else {
            Flow::Continue
        },
    )
}

/// Takes an index from the stack and pushes the local variable it names.
pub fn fetch<S>(ctx: Context<S>) -> (r: Result<Flow, Error>)
    requires
        old(ctx.prg)@.wf(),
    ensures
        (final(ctx.prg)@, r) == old(ctx.prg)@.fetch_spec(),
        final(ctx.prg).program == old(ctx.prg).program,
        *final(ctx.ext) == *old(ctx.ext),
{
    let d = depth(ctx.prg);
    if d < 1 {
        return Err(Error::StackUnderflow);
    }
    match top(ctx.prg) {
        Value::Int(i) => {
            if 0 <= i && (i as usize) < d - 1 {
                let _ = ctx.prg.data_stack.len();
                let v = ctx.prg.data_stack[ctx.prg.base + i as usize];
                drop_values(ctx.prg, 1);
                ctx.prg.data_stack.push(v);
                Ok(Flow::Continue)
            } else {
                Err(Error::OutOfBoundsVariable)
            }
        },
        _ => Err(Error::BadOperandType),
    }
}

/// Takes an index and a value from the stack and writes the value to the
/// local variable that the index names.
pub fn store<S>(ctx: Context<S>) -> (r: Result<Flow, Error>)
    requires
        old(ctx.prg)@.wf(),
    ensures
        (final(ctx.prg)@, r) == old(ctx.prg)@.store_spec(),
        final(ctx.prg).program == old(ctx.prg).program,
        *final(ctx.ext) == *old(ctx.ext),
{
    let d = depth(ctx.prg);
    if d < 2 {
        return Err(Error::StackUnderflow);
    }
    match top(ctx.prg) {
        Value::Int(i) => {
            if 0 <= i && (i as usize) < d - 2 {
                let v = second(ctx.prg);
                drop_values(ctx.prg, 2);
                let _ = ctx.prg.data_stack.len();
                let at = ctx.prg.base + i as usize;
                ctx.prg.data_stack[at] = v;
                Ok(Flow::Continue)
            } else {
                Err(Error::OutOfBoundsVariable)
            }
        },
        _ => Err(Error::BadOperandType),
    }
}

/// Takes an index from the stack and pushes the variable of `scope` that it
/// names.
fn fetch_var(prg: &mut ProgramState, scope: &Scope) -> (r: Result<Flow, Error>)
    requires
        old(prg)@.wf(),
    ensures
        (final(prg)@, r) == old(prg)@.fetch_var_spec(scope@),
        final(prg).program == old(prg).program,
{
    if depth(prg) < 1 {
        return Err(Error::StackUnderflow);
    }
    match top(prg) {
        Value::Int(i) => {
            if i < 0 {
                return Err(Error::OutOfBoundsVariable);
            }
            match scope.fetch(i as usize) {
                Ok(v) => {
                    drop_values(prg, 1);
                    prg.data_stack.push(v);
                    Ok(Flow::Continue)
                },
                Err(e) => Err(e),
            }
        },
        _ => Err(Error::BadOperandType),
    }
}

/// Takes an index and a value from the stack and writes the value to the
/// variable of `scope` that the index names.
fn store_var(prg: &mut ProgramState, scope: &mut Scope) -> (r: Result<Flow, Error>)
    requires
        old(prg)@.wf(),
    ensures
        (final(prg)@, r, final(scope)@) == old(prg)@.store_var_spec(old(scope)@),
        final(prg).program == old(prg).program,
{
    if depth(prg) < 2 {
        return Err(Error::StackUnderflow);
    }
    match top(prg) {
        Value::Int(i) => {
            if i < 0 {
                return Err(Error::OutOfBoundsVariable);
            }
            match scope.store(i as usize, second(prg)) {
                Ok(()) => {
                    drop_values(prg, 2);
                    Ok(Flow::Continue)
                },
                Err(e) => Err(e),
            }
        },
        _ => Err(Error::BadOperandType),
    }
}

/// Reads a variable of the map.
pub fn map_var<S>(ctx: Context<S>) -> (r: Result<Flow, Error>)
    requires
        old(ctx.prg)@.wf(),
    ensures
        (final(ctx.prg)@, r) == old(ctx.prg)@.fetch_var_spec(old(ctx.ext).map_vars@),
        final(ctx.prg).program == old(ctx.prg).program,
        *final(ctx.ext) == *old(ctx.ext),
{
    fetch_var(ctx.prg, &ctx.ext.map_vars)
}

/// Reads a variable of the game.
pub fn global_var<S>(ctx: Context<S>) -> (r: Result<Flow, Error>)
    requires
        old(ctx.prg)@.wf(),
    ensures
        (final(ctx.prg)@, r) == old(ctx.prg)@.fetch_var_spec(old(ctx.ext).global_vars@),
        final(ctx.prg).program == old(ctx.prg).program,
        *final(ctx.ext) == *old(ctx.ext),
{
    fetch_var(ctx.prg, &ctx.ext.global_vars)
}

/// Writes a variable of the map.
pub fn set_map_var<S>(ctx: Context<S>) -> (r: Result<Flow, Error>)
    requires
        old(ctx.prg)@.wf(),
    ensures
        (final(ctx.prg)@, r, final(ctx.ext).map_vars@) == old(ctx.prg)@.store_var_spec(
            old(ctx.ext).map_vars@,
        ),
        final(ctx.prg).program == old(ctx.prg).program,
        final(ctx.ext).global_vars == old(ctx.ext).global_vars,
        final(ctx.ext).state == old(ctx.ext).state,
{
    store_var(ctx.prg, &mut ctx.ext.map_vars)
}

/// Writes a variable of the game.
pub fn set_global_var<S>(ctx: Context<S>) -> (r: Result<Flow, Error>)
    requires
        old(ctx.prg)@.wf(),
    ensures
        (final(ctx.prg)@, r, final(ctx.ext).global_vars@) == old(ctx.prg)@.store_var_spec(
            old(ctx.ext).global_vars@,
        ),
        final(ctx.prg).program == old(ctx.prg).program,
        final(ctx.ext).map_vars == old(ctx.ext).map_vars,
        final(ctx.ext).state == old(ctx.ext).state,
{
    store_var(ctx.prg, &mut ctx.ext.global_vars)
}

/// Reads an exported variable of the program.
pub fn fetch_external<S>(ctx: Context<S>) -> (r: Result<Flow, Error>)
    requires
        old(ctx.prg)@.wf(),
    ensures
        (final(ctx.prg)@, r) == old(ctx.prg)@.fetch_var_spec(old(ctx.prg)@.exported),
        final(ctx.prg).program == old(ctx.prg).program,
        *final(ctx.ext) == *old(ctx.ext),
{
    if depth(ctx.prg) < 1 {
        return Err(Error::StackUnderflow);
    }
    match top(ctx.prg) {
        Value::Int(i) => {
            if i < 0 {
                return Err(Error::OutOfBoundsVariable);
            }
            match ctx.prg.exported.fetch(i as usize) {
                Ok(v) => {
                    drop_values(ctx.prg, 1);
                    ctx.prg.data_stack.push(v);
                    Ok(Flow::Continue)
                },
                Err(e) => Err(e),
            }
        },
        _ => Err(Error::BadOperandType),
    }
}

/// Writes an exported variable of the program.
pub fn store_external<S>(ctx: Context<S>) -> (r: Result<Flow, Error>)
    requires
        old(ctx.prg)@.wf(),
    ensures
        ({
            let (m, expected, exported) = old(ctx.prg)@.store_var_spec(old(ctx.prg)@.exported);
            final(ctx.prg)@ == (Machine { exported, ..m }) && r == expected
        }),
        final(ctx.prg).program == old(ctx.prg).program,
        *final(ctx.ext) == *old(ctx.ext),
{
    if depth(ctx.prg) < 2 {
        return Err(Error::StackUnderflow);
    }
    match top(ctx.prg) {
        Value::Int(i) => {
            if i < 0 {
                return Err(Error::OutOfBoundsVariable);
            }
            let v = second(ctx.prg);
            match ctx.prg.exported.store(i as usize, v) {
                Ok(()) => {
                    drop_values(ctx.prg, 2);
                    Ok(Flow::Continue)
                },
                Err(e) => Err(e),
            }
        },
        _ => Err(Error::BadOperandType),
    }
}

} // verus!
