//! The state of a script in execution, and the loop that runs it.

use vstd::prelude::*;
use crate::vm::error::Error;
use crate::vm::instruction::opcode::{lemma_code_injective, Opcode};
use std::collections::HashMap;
use crate::vm::instruction::{instruction_map, is_dispatch_table, Handler, Instruction, State};
use crate::vm::machine::{word_at, Env, Flow, Frame, Machine, Step};
use crate::vm::program::Program;
use crate::vm::scope::Scope;
use crate::vm::value::Value;

verus! {

/// What lies outside a script's machine: the variables that outlive the
/// script, and what scripts have set in motion.
pub struct Context<S> {
    /// The variables of the current map.
    pub map_vars: Scope,
    /// The variables of the whole game.
    pub global_vars: Scope,
    /// The pending chains and the override flag.
    pub state: State<S>,
}

impl<S> Context<S> {
    /// The part of the context that instructions read and write.
    pub open spec fn env(&self) -> Env {
        Env {
            map_vars: self.map_vars@,
            global_vars: self.global_vars@,
            script_overrides: self.state.script_overrides,
        }
    }

    /// A context over the given variables, with nothing pending.
    pub fn new(map_vars: Scope, global_vars: Scope) -> (c: Self)
        ensures
            c.map_vars == map_vars,
            c.global_vars == global_vars,
            c.state.sequences@ == Map::<u64, crate::sequence::chain::Chain<S>>::empty(),
            !c.state.script_overrides,
    {
        Context { map_vars, global_vars, state: State::new() }
    }
}

/// One script in execution: its program, its data stack, its frame stack and
/// its program counter.
///
/// It is ordinary data. A suspended script is nothing but its execution, set
/// aside until it is resumed.
#[derive(Debug)]
pub struct ProgramState {
    /// The program that runs.
    pub program: Program,
    /// The place in the code stream of the next instruction.
    pub pc: usize,
    /// The data stack.
    pub data_stack: Vec<Value>,
    /// The calls in progress.
    pub frames: Vec<Frame>,
    /// Where in the data stack the current call's window begins.
    pub base: usize,
    /// The machine's flags.
    pub flags: u32,
    /// The program's exported variables.
    pub exported: Scope,
}

/// The execution of a script set aside: everything of a [`ProgramState`]
/// that an invocation creates and a return destroys.
#[derive(Debug)]
pub struct Execution {
    /// The place in the code stream of the next instruction.
    pub pc: usize,
    /// The data stack.
    pub data_stack: Vec<Value>,
    /// The calls in progress.
    pub frames: Vec<Frame>,
    /// Where in the data stack the current call's window begins.
    pub base: usize,
    /// The machine's flags.
    pub flags: u32,
}

impl Execution {
    /// The machine that this execution makes together with the given
    /// exported variables.
    pub open spec fn machine(&self, exported: Seq<Option<Value>>) -> Machine {
        Machine {
            pc: self.pc,
            stack: self.data_stack@,
            frames: self.frames@,
            base: self.base,
            flags: self.flags,
            exported,
        }
    }
}

impl View for ProgramState {
    type V = Machine;

    open spec fn view(&self) -> Machine {
        Machine {
            pc: self.pc,
            stack: self.data_stack@,
            frames: self.frames@,
            base: self.base,
            flags: self.flags,
            exported: self.exported@,
        }
    }
}

/// What one instruction cycle makes of machine and environment.
///
/// The tag at the program counter is read and decoded, the machine steps
/// behind it, and the tag's handler does its work. A program counter that
/// leaves no room for a tag, and a number that is no tag's code, fail as
/// malformed code. Whenever the cycle fails, machine and environment are left
/// as they were, the program counter still at the failing instruction.
pub open spec fn step_spec(program: Program, m: Machine, env: Env) -> Step {
    if m.pc + Opcode::SIZE > program.code@.len() {
        Step { machine: m, env, result: Err(Error::MalformedCode) }
    } else {
        let code = word_at(program.code@, m.pc as int);
        if !Opcode::is_code(code) {
            Step { machine: m, env, result: Err(Error::MalformedCode) }
        } else {
            let op = choose|op: Opcode| op.code() == code;
            let s = Handler::of(op).effect(op, program, m.at((m.pc + Opcode::SIZE) as usize), env);
            if s.result is Err {
                Step { machine: m, env, result: s.result }
            } else {
                s
            }
        }
    }
}

/// What running for at most `budget` instruction cycles makes of machine and
/// environment.
///
/// Cycles follow one another as long as each reports [`Flow::Continue`]. The
/// first cycle that reports anything else, or fails, ends the run, and its
/// report is the run's. A run whose budget is used up reports
/// [`Flow::Continue`]: there is more to do.
pub open spec fn run_spec(program: Program, m: Machine, env: Env, budget: nat) -> Step
    decreases budget,
{
    if budget == 0 {
        Step { machine: m, env, result: Ok(Flow::Continue) }
    } else {
        let s = step_spec(program, m, env);
        if s.result == Ok::<Flow, Error>(Flow::Continue) {
            run_spec(program, s.machine, s.env, (budget - 1) as nat)
        } else {
            s
        }
    }
}

impl ProgramState {
    /// A machine for `program` that has not run yet: empty stacks, the
    /// program counter at the start of the code, and one unset exported
    /// variable for each name in the program's constant pool.
    pub fn new(program: Program) -> (s: ProgramState)
        ensures
            s.program == program,
            s@ == Machine::fresh(program.pool@.len()),
            s@.wf(),
    {
        let exported = Scope::new(program.pool.len());
        ProgramState {
            program,
            pc: 0,
            data_stack: Vec::new(),
            frames: Vec::new(),
            base: 0,
            flags: 0,
            exported,
        }
    }

    /// Whether the machine is well formed. A machine that is only ever
    /// changed by running it is; this is for one that others have had their
    /// hands on.
    pub fn is_well_formed(&self) -> (b: bool)
        ensures
            b == self@.wf(),
    {
        if self.base > self.data_stack.len() {
            return false;
        }
        let mut i: usize = 0;
        while i < self.frames.len()
            invariant
                i <= self.frames.len(),
                forall|k: int|
                    0 <= k < i ==> (#[trigger] self.frames@[k]).saved_base <= (if k + 1
                        < self.frames@.len() {
                        self.frames@[k + 1].saved_base
                    } else {
                        self.base
                    }),
            decreases self.frames.len() - i,
        {
            let bound = if i + 1 < self.frames.len() {
                self.frames[i + 1].saved_base
            } else {
                self.base
            };
            if self.frames[i].saved_base > bound {
                assert(self@.frames[i as int] == self.frames@[i as int]);
                return false;
            }
            i = i + 1;
        }
        true
    }

    /// Pushes a value on the data stack.
    pub fn push(&mut self, value: Value)
        ensures
            final(self)@ == old(self)@.push(value),
            final(self).program == old(self).program,
    {
        self.data_stack.push(value);
    }

    /// Takes the top value of the current call from the data stack.
    pub fn pop(&mut self) -> (r: Result<Value, Error>)
        ensures
            final(self).program == old(self).program,
            match r {
                Ok(v) => old(self)@.depth() >= 1 && v == old(self)@.peek(0) && final(self)@ == old(self)@.drop(1),
                Err(e) => old(self)@.depth() < 1 && e == Error::StackUnderflow && final(self)@
                    == old(self)@,
            },
    {
        let n = self.data_stack.len();
        if self.base < n {
            let v = self.data_stack[n - 1];
            self.data_stack.truncate(n - 1);
            assert(self.data_stack@ == old(self).data_stack@.take(n - 1));
            Ok(v)
        } else {
            Err(Error::StackUnderflow)
        }
    }

    /// Prepares the machine to run the procedure at `index` of the procedure
    /// table, called from outside.
    ///
    /// Both stacks are emptied and a single frame is pushed for the call, so
    /// that the procedure's own return ends the run. Exported variables are
    /// kept. Fails, changing nothing, if the table has no such procedure.
    pub fn enter(&mut self, index: usize) -> (r: Result<(), Error>)
        ensures
            final(self).program == old(self).program,
            index >= old(self).program.procs@.len() ==> r == Err::<(), Error>(
                Error::BadOperandType,
            ) && final(self)@ == old(self)@,
            index < old(self).program.procs@.len() ==> r.is_ok() && final(self)@ == (Machine {
                pc: old(self).program.procs@[index as int].offset,
                stack: Seq::<Value>::empty(),
                frames: seq![
                    Frame { return_pc: old(self)@.pc, saved_base: 0, arg_count: 0, flags: old(self)@.flags },
                ],
                base: 0,
                ..old(self)@
            }),
            r.is_ok() ==> final(self)@.wf(),
    {
        if index < self.program.procs.len() {
            let frame = Frame { return_pc: self.pc, saved_base: 0, arg_count: 0, flags: self.flags };
            self.data_stack.clear();
            self.frames.clear();
            self.frames.push(frame);
            self.base = 0;
            self.pc = self.program.procs[index].offset;
            assert(self.frames@ == seq![frame]);
            Ok(())
        } else {
            Err(Error::BadOperandType)
        }
    }

    /// Sets the running execution aside and leaves the machine idle, with
    /// empty stacks. Program and exported variables stay.
    pub fn park(&mut self) -> (e: Execution)
        ensures
            e.machine(old(self)@.exported) == old(self)@,
            final(self).program == old(self).program,
            final(self)@ == (Machine {
                stack: Seq::<Value>::empty(),
                frames: Seq::<Frame>::empty(),
                base: 0,
                ..old(self)@
            }),
            final(self)@.wf(),
    {
        let mut data_stack: Vec<Value> = Vec::new();
        let mut frames: Vec<Frame> = Vec::new();
        std::mem::swap(&mut self.data_stack, &mut data_stack);
        std::mem::swap(&mut self.frames, &mut frames);
        let e = Execution { pc: self.pc, data_stack, frames, base: self.base, flags: self.flags };
        self.base = 0;
        e
    }

    /// Takes up an execution that was set aside, in place of whatever the
    /// machine was doing. Program and exported variables stay.
    pub fn unpark(&mut self, e: Execution)
        ensures
            final(self)@ == e.machine(old(self)@.exported),
            final(self).program == old(self).program,
    {
        self.pc = e.pc;
        self.data_stack = e.data_stack;
        self.frames = e.frames;
        self.base = e.base;
        self.flags = e.flags;
    }

    /// Reads and decodes the tag at the program counter.
    pub fn fetch(&self) -> (r: Result<Opcode, Error>)
        ensures
            match r {
                Ok(op) => {
                    &&& self@.pc + Opcode::SIZE <= self.program.code@.len()
                    &&& op.code() == word_at(self.program.code@, self@.pc as int)
                },
                Err(e) => {
                    &&& e == Error::MalformedCode
                    &&& (self@.pc + Opcode::SIZE > self.program.code@.len() || !Opcode::is_code(
                        word_at(self.program.code@, self@.pc as int),
                    ))
                },
            },
    {
        let len = self.program.code.len();
        if self.pc > len || len - self.pc < 2 {
            return Err(Error::MalformedCode);
        }
        let hi = self.program.code[self.pc];
        let lo = self.program.code[self.pc + 1];
        let code: u16 = (hi as u16) * 256 + (lo as u16);
        match Opcode::from_u16(code) {
            Some(op) => Ok(op),
            None => Err(Error::MalformedCode),
        }
    }
}

/// The engine that runs machines: the dispatch table, built once.
pub struct Vm {
    instructions: HashMap<u16, Instruction>,
}

impl Vm {
    /// An engine holds the dispatch table and nothing else.
    #[verifier::type_invariant]
    spec fn wf(self) -> bool {
        is_dispatch_table(self.instructions@)
    }

    /// The table that the engine dispatches by.
    pub closed spec fn table(&self) -> Map<u16, Instruction> {
        self.instructions@
    }

    /// A new engine, its dispatch table built.
    pub fn new() -> (vm: Vm)
        ensures
            is_dispatch_table(vm.table()),
    {
        Vm { instructions: instruction_map() }
    }

    /// Looks up the instruction of a code.
    pub fn instruction(&self, code: u16) -> (r: Option<Instruction>)
        ensures
            is_dispatch_table(self.table()),
            r == (if self.table().contains_key(code) {
                Some(self.table()[code])
            } else {
                None
            }),
            match r {
                Some(i) => i.opcode.code() == code && i == Instruction::of(i.opcode),
                None => !Opcode::is_code(code),
            },
    {
        proof {
            use_type_invariant(self);
        }
        match self.instructions.get(&code) {
            Some(i) => {
                proof {
                    assert(self.instructions@.contains_key(code));
                    assert(Opcode::is_code(code));
                    let op = choose|op: Opcode| op.code() == code;
                    assert(self.instructions@[op.code()] == Instruction::of(op));
                }
                Some(*i)
            },
            None => None,
        }
    }

    /// Performs one instruction cycle of `prg`.
    pub fn step<S>(&self, prg: &mut ProgramState, ext: &mut Context<S>) -> (r: Result<Flow, Error>)
        requires
            old(prg)@.wf(),
        ensures
            (Step { machine: final(prg)@, env: final(ext).env(), result: r }) == step_spec(
                old(prg).program,
                old(prg)@,
                old(ext).env(),
            ),
            final(prg)@.wf(),
            final(prg).program == old(prg).program,
            final(ext).state.sequences == old(ext).state.sequences,
    {
        let len = prg.program.code.len();
        if prg.pc > len || len - prg.pc < 2 {
            return Err(Error::MalformedCode);
        }
        let hi = prg.program.code[prg.pc];
        let lo = prg.program.code[prg.pc + 1];
        let code: u16 = (hi as u16) * 256 + (lo as u16);
        let instruction = match self.instruction(code) {
            Some(i) => i,
            None => {
                return Err(Error::MalformedCode);
            },
        };
        proof {
            let chosen = choose|o: Opcode| o.code() == code;
            lemma_code_injective(chosen, instruction.opcode);
        }
        let pc = prg.pc;
        prg.pc = pc + Opcode::SIZE;
        let r = instruction.execute(crate::vm::instruction::Context { prg, ext });
        if r.is_err() {
            prg.pc = pc;
        }
        r
    }

    /// Runs `prg` for at most `budget` instruction cycles.
    ///
    /// The run ends with the first cycle that does not report
    /// [`Flow::Continue`]; that cycle's report, or its failure, is returned.
    /// `Ok(Flow::Continue)` is returned when the budget is used up before
    /// that: the caller may run on.
    pub fn run<S>(&self, prg: &mut ProgramState, ext: &mut Context<S>, budget: u64) -> (r: Result<
        Flow,
        Error,
    >)
        requires
            old(prg)@.wf(),
        ensures
            (Step { machine: final(prg)@, env: final(ext).env(), result: r }) == run_spec(
                old(prg).program,
                old(prg)@,
                old(ext).env(),
                budget as nat,
            ),
            final(prg)@.wf(),
            final(prg).program == old(prg).program,
            final(ext).state.sequences == old(ext).state.sequences,
    {
        let mut left = budget;
        while left > 0
            invariant
                prg@.wf(),
                prg.program == old(prg).program,
                ext.state.sequences == old(ext).state.sequences,
                run_spec(old(prg).program, old(prg)@, old(ext).env(), budget as nat) == run_spec(
                    prg.program,
                    prg@,
                    ext.env(),
                    left as nat,
                ),
            decreases left,
        {
            let r = self.step(prg, ext);
            match r {
                Ok(Flow::Continue) => {
                    left = left - 1;
                },
                _ => {
                    return r;
                },
            }
        }
        Ok(Flow::Continue)
    }
}

/// What running for at most `budget` cycles makes of machine and environment
/// when the script is resumed at once, with no value handed to it, wherever
/// it asks to be suspended: the run of the same script without its
/// suspension points.
pub open spec fn run_through_spec(program: Program, m: Machine, env: Env, budget: nat) -> Step
    decreases budget,
{
    if budget == 0 {
        Step { machine: m, env, result: Ok(Flow::Continue) }
    } else {
        let s = step_spec(program, m, env);
        if s.result == Ok::<Flow, Error>(Flow::Continue) || s.result matches Ok(Flow::Suspend(_)) {
            run_through_spec(program, s.machine, s.env, (budget - 1) as nat)
        } else {
            s
        }
    }
}

/// Every instruction cycle keeps the machine well formed, as long as the
/// data stack is one that fits in memory.
pub proof fn lemma_step_keeps_wf(program: Program, m: Machine, env: Env)
    requires
        m.wf(),
        m.stack.len() <= usize::MAX,
    ensures
        step_spec(program, m, env).machine.wf(),
{
    let s = step_spec(program, m, env);
    if m.pc + Opcode::SIZE <= program.code@.len() && Opcode::is_code(
        word_at(program.code@, m.pc as int),
    ) {
        let op = choose|op: Opcode| op.code() == word_at(program.code@, m.pc as int);
        let m1 = m.at((m.pc + Opcode::SIZE) as usize);
        let e = Handler::of(op).effect(op, program, m1, env);
        assert(m1.wf());
        if e.result is Ok {
            assert(e.machine.wf()) by {
                lemma_effect_keeps_wf(Handler::of(op), op, program, m1, env);
            }
        }
    }
}

/// Whatever a handler does to a well-formed machine leaves it well formed,
/// as long as the data stack is one that fits in memory.
pub proof fn lemma_effect_keeps_wf(h: Handler, op: Opcode, program: Program, m: Machine, env: Env)
    requires
        m.wf(),
        m.stack.len() <= usize::MAX,
    ensures
        h.effect(op, program, m, env).machine.wf(),
{
    let after = h.effect(op, program, m, env).machine;
    match h {
        Handler::Call => {
            if after != m {
                assert(after.frames.drop_last() == m.frames);
                assert forall|i: int| 0 <= i < after.frames.len() implies (
                #[trigger] after.frames[i]).saved_base <= (if i + 1 < after.frames.len() {
                    after.frames[i + 1].saved_base
                } else {
                    after.base
                }) by {
                    let last = m.frames.len() as int;
                    assert(after.frames[last].saved_base == m.base);
                    assert(after.base >= m.base);
                    if i < last {
                        assert(after.frames[i] == m.frames[i]);
                        if i + 1 < last {
                            assert(after.frames[i + 1] == m.frames[i + 1]);
                        }
                    }
                }
            }
        },
        Handler::Return { has_value, is_exit, is_extern } => {
            if after != m {
                assert(m.frames[m.frames.len() - 1].saved_base <= m.base);
                assert forall|i: int| 0 <= i < after.frames.len() implies (
                #[trigger] after.frames[i]).saved_base <= (if i + 1 < after.frames.len() {
                    after.frames[i + 1].saved_base
                } else {
                    after.base
                }) by {
                    assert(after.frames[i] == m.frames[i]);
                    if i + 1 < after.frames.len() {
                        assert(after.frames[i + 1] == m.frames[i + 1]);
                    }
                }
            }
        },
        _ => {},
    }
}

/// A failing cycle changes nothing: machine and environment stay as they
/// were, the program counter still at the failing instruction.
pub proof fn lemma_failure_changes_nothing(program: Program, m: Machine, env: Env)
    requires
        step_spec(program, m, env).result is Err,
    ensures
        step_spec(program, m, env).machine == m,
        step_spec(program, m, env).env == env,
{
}

/// A cycle that asks for suspension leaves the machine just behind the
/// suspending instruction, with stacks, frames and variables exactly as they
/// were: what a no-op in the same place would leave. So a run that passes
/// through the suspension point goes on from the very state that is kept for
/// the resumption.
pub proof fn lemma_suspension_keeps_state(
    program: Program,
    m: Machine,
    env: Env,
    budget: nat,
)
    requires
        step_spec(program, m, env).result matches Ok(Flow::Suspend(_)),
    ensures
        step_spec(program, m, env).machine == m.at((m.pc + Opcode::SIZE) as usize),
        step_spec(program, m, env).env == env,
        step_spec(program, m, env).machine == Handler::Noop.effect(
            Opcode::Noop8000,
            program,
            m.at((m.pc + Opcode::SIZE) as usize),
            env,
        ).machine,
        run_through_spec(program, m, env, budget + 1) == run_through_spec(
            program,
            m.at((m.pc + Opcode::SIZE) as usize),
            env,
            budget,
        ),
{
    let op = choose|op: Opcode| op.code() == word_at(program.code@, m.pc as int);
    let m1 = m.at((m.pc + Opcode::SIZE) as usize);
    lemma_only_gsay_end_suspends(Handler::of(op), op, program, m1, env);
}

/// Only the handler of the dialog's end ever asks for suspension.
pub proof fn lemma_only_gsay_end_suspends(
    h: Handler,
    op: Opcode,
    program: Program,
    m: Machine,
    env: Env,
)
    requires
        h.effect(op, program, m, env).result matches Ok(Flow::Suspend(_)),
    ensures
        h.may_suspend(),
        h.effect(op, program, m, env).machine == m,
        h.effect(op, program, m, env).env == env,
{
}

/// A run that meets no suspension point is the same with and without
/// resumption.
pub proof fn lemma_run_through_without_suspension(
    program: Program,
    m: Machine,
    env: Env,
    budget: nat,
)
    requires
        !(run_spec(program, m, env, budget).result matches Ok(Flow::Suspend(_))),
    ensures
        run_through_spec(program, m, env, budget) == run_spec(program, m, env, budget),
    decreases budget,
{
    if budget > 0 {
        let s = step_spec(program, m, env);
        if s.result == Ok::<Flow, Error>(Flow::Continue) {
            lemma_run_through_without_suspension(program, s.machine, s.env, (budget - 1) as nat);
        }
    }
}

/// The number of instruction cycles that a run of at most `budget` cycles
/// performs, the one that ends it included.
pub open spec fn cycles_spec(program: Program, m: Machine, env: Env, budget: nat) -> nat
    decreases budget,
{
    if budget == 0 {
        0
    } else {
        let s = step_spec(program, m, env);
        if s.result == Ok::<Flow, Error>(Flow::Continue) {
            1 + cycles_spec(program, s.machine, s.env, (budget - 1) as nat)
        } else {
            1
        }
    }
}

/// A script that is suspended and then resumed, with no value handed to it,
/// goes the way of the same script without the suspension point: the run
/// that passes through the point reaches, in as many cycles as the run up to
/// the suspension took, exactly the machine and environment that are kept,
/// and goes on from there as the resumed run does.
pub proof fn lemma_resumed_run_is_uninterrupted_run(
    program: Program,
    m: Machine,
    env: Env,
    first: nat,
    second: nat,
)
    requires
        run_spec(program, m, env, first).result matches Ok(Flow::Suspend(_)),
    ensures
        ({
            let kept = run_spec(program, m, env, first);
            run_through_spec(program, m, env, cycles_spec(program, m, env, first) + second)
                == run_through_spec(program, kept.machine, kept.env, second)
        }),
    decreases first,
{
    let s = step_spec(program, m, env);
    if s.result == Ok::<Flow, Error>(Flow::Continue) {
        lemma_resumed_run_is_uninterrupted_run(
            program,
            s.machine,
            s.env,
            (first - 1) as nat,
            second,
        );
        let rest = cycles_spec(program, s.machine, s.env, (first - 1) as nat);
        assert((1 + rest + second - 1) as nat == rest + second);
    }
}

/// Running in two goes is running in one: a run of `first + second` cycles
/// is a run of `first` cycles followed, if that one used up its budget, by a
/// run of `second` cycles from where it stopped.
pub proof fn lemma_run_split(program: Program, m: Machine, env: Env, first: nat, second: nat)
    ensures
        run_spec(program, m, env, first + second) == ({
            let s = run_spec(program, m, env, first);
            if s.result == Ok::<Flow, Error>(Flow::Continue) {
                run_spec(program, s.machine, s.env, second)
            } else {
                s
            }
        }),
    decreases first,
{
    if first > 0 {
        let s = step_spec(program, m, env);
        if s.result == Ok::<Flow, Error>(Flow::Continue) {
            lemma_run_split(program, s.machine, s.env, (first - 1) as nat, second);
            assert((first - 1) as nat + second == (first + second - 1) as nat);
        }
    }
}

} // verus!
