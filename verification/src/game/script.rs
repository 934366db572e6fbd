//! The registry of loaded scripts and the entry points that run them.

use vstd::prelude::*;
use crate::vm::error::Error;
use crate::vm::machine::{Env, Flow, Frame, Machine, Step};
use crate::vm::program::{PredefinedProc, Program};
use crate::vm::state::{run_spec, Context, Execution, ProgramState, Vm};
use crate::vm::value::Value;

verus! {

/// A loaded script: a program instance under its identifier.
#[derive(Debug)]
pub struct Script {
    /// The script's identifier.
    pub sid: u32,
    /// The program instance. Between invocations its stacks are empty.
    pub state: ProgramState,
}

/// A script that waits to be resumed.
#[derive(Debug)]
pub struct Suspended {
    /// The place of the script in the registry.
    pub script: usize,
    /// The execution that was set aside, complete.
    pub execution: Execution,
}

/// The loaded scripts, and the one among them, if any, that is suspended.
pub struct Scripts {
    /// The engine that runs the scripts.
    pub vm: Vm,
    /// The scripts, in the order in which they were loaded.
    pub scripts: Vec<Script>,
    /// The suspended script. There is never more than one.
    pub suspended: Option<Suspended>,
}

/// The machine with its execution discarded: stacks empty, everything else
/// as it is.
pub open spec fn idle(m: Machine) -> Machine {
    Machine { stack: Seq::<Value>::empty(), frames: Seq::<Frame>::empty(), base: 0, ..m }
}

/// The machine that stands ready to run the procedure at `offset`, called
/// from outside.
pub open spec fn entered(m: Machine, offset: usize) -> Machine {
    Machine {
        pc: offset,
        stack: Seq::<Value>::empty(),
        frames: seq![Frame { return_pc: m.pc, saved_base: 0, arg_count: 0, flags: m.flags }],
        base: 0,
        ..m
    }
}

/// What becomes of a run once it has ended.
pub struct Settled {
    /// The machine that the script is left with.
    pub machine: Machine,
    /// The machine that is kept for a later resumption, if the script was
    /// suspended.
    pub kept: Option<Machine>,
    /// What the caller is told.
    pub result: Result<Flow, Error>,
}

/// How the end of a run is settled.
///
/// A script that returned or exited has its execution discarded. A script
/// that asks to be suspended has its execution set aside, whole, if
/// `may_suspend` holds; if not, the request is a failure and nothing is set
/// aside. In every other case (a failure, an instruction for the game, a
/// budget used up) the machine stays as the run left it.
pub open spec fn settle(s: Step, may_suspend: bool) -> Settled {
    match s.result {
        Ok(Flow::Returned) | Ok(Flow::Exited) => Settled {
            machine: idle(s.machine),
            kept: None,
            result: s.result,
        },
        Ok(Flow::Suspend(_)) => if may_suspend {
            Settled { machine: idle(s.machine), kept: Some(s.machine), result: s.result }
        } else {
            Settled { machine: s.machine, kept: None, result: Err(Error::IllegalSuspend) }
        },
        _ => Settled { machine: s.machine, kept: None, result: s.result },
    }
}

impl Scripts {
    /// The invariant of the registry: no identifier is used twice, every
    /// machine is well formed, and what is kept for resumption is the whole,
    /// well-formed execution of a script of the registry.
    pub open spec fn wf(&self) -> bool {
        &&& forall|i: int, j: int|
            #![trigger self.scripts@[i], self.scripts@[j]]
            0 <= i < j < self.scripts@.len() ==> self.scripts@[i].sid != self.scripts@[j].sid
        &&& forall|i: int| 0 <= i < self.scripts@.len() ==> (#[trigger] self.scripts@[i]).state@.wf()
        &&& match self.suspended {
            Some(s) => s.script < self.scripts@.len() && s.execution.machine(Seq::empty()).wf(),
            None => true,
        }
    }

    /// Whether a script with this identifier is loaded.
    pub open spec fn has_script(&self, sid: u32) -> bool {
        exists|i: int| 0 <= i < self.scripts@.len() && (#[trigger] self.scripts@[i]).sid == sid
    }

    /// The place in the registry of the script with this identifier.
    pub open spec fn index_of(&self, sid: u32) -> int {
        choose|i: int| 0 <= i < self.scripts@.len() && (#[trigger] self.scripts@[i]).sid == sid
    }

    /// Whether `other` is this registry with the script at `i` left with the
    /// machine `machine`: identifiers, programs and all other scripts are
    /// the same.
    pub open spec fn updated(&self, other: &Scripts, i: int, machine: Machine) -> bool {
        &&& other.scripts@.len() == self.scripts@.len()
        &&& forall|k: int|
            0 <= k < self.scripts@.len() && k != i ==> #[trigger] other.scripts@[k]
                == self.scripts@[k]
        &&& other.scripts@[i].sid == self.scripts@[i].sid
        &&& other.scripts@[i].state.program == self.scripts@[i].state.program
        &&& other.scripts@[i].state@ == machine
    }

    /// Whether `other` keeps what this registry kept for resumption, or, with
    /// `kept` given, keeps that machine for the script at `i`.
    pub open spec fn keeps(&self, other: &Scripts, i: int, kept: Option<Machine>) -> bool {
        match kept {
            Some(m) => other.suspended matches Some(s) && s.script == i && s.execution.machine(
                m.exported,
            ) == m,
            None => other.suspended == self.suspended,
        }
    }

    /// Whether `after`, `after_env` and `r` are what a run of the script at
    /// `i` leaves, started on the machine `start` in the environment `env`
    /// with the given budget, once its end is settled. A request for
    /// suspension counts as allowed if `may_suspend` holds and no script is
    /// waiting already.
    pub open spec fn ran(
        &self,
        after: &Scripts,
        i: int,
        start: Machine,
        env: Env,
        after_env: Env,
        budget: nat,
        may_suspend: bool,
        r: Result<Flow, Error>,
    ) -> bool {
        let s = run_spec(self.scripts@[i].state.program, start, env, budget);
        let t = settle(s, may_suspend && self.suspended is None);
        &&& r == t.result
        &&& after_env == s.env
        &&& self.updated(after, i, t.machine)
        &&& self.keeps(after, i, t.kept)
    }

    /// Whether `after`, `after_env` and `r` are what an invocation of the
    /// procedure at `proc` of the script `sid` leaves: a failure and no
    /// change at all if the script has no such procedure, and otherwise what
    /// a run leaves that starts on the machine made ready for the call, with
    /// the override flag cleared.
    pub open spec fn invoked(
        &self,
        after: &Scripts,
        sid: u32,
        proc: int,
        env: Env,
        after_env: Env,
        budget: nat,
        may_suspend: bool,
        r: Result<Flow, Error>,
    ) -> bool {
        let i = self.index_of(sid);
        let before = self.scripts@[i].state;
        if proc < 0 || proc >= before.program.procs@.len() {
            &&& r == Err::<Flow, Error>(Error::BadOperandType)
            &&& after.scripts@ == self.scripts@
            &&& after.suspended == self.suspended
            &&& after_env == env
        } else {
            self.ran(
                after,
                i,
                entered(before@, before.program.procs@[proc].offset),
                Env { script_overrides: false, ..env },
                after_env,
                budget,
                may_suspend,
                r,
            )
        }
    }

    /// Whether `after`, `after_env` and `r` are what an invocation of the
    /// procedure that serves `hook` in the script `sid` leaves: a plain
    /// return and no change at all if the script has no such procedure.
    pub open spec fn hooked(
        &self,
        after: &Scripts,
        sid: u32,
        hook: PredefinedProc,
        env: Env,
        after_env: Env,
        budget: nat,
        may_suspend: bool,
        r: Result<Flow, Error>,
    ) -> bool {
        let procs = self.scripts@[self.index_of(sid)].state.program.procs@;
        let proc = Program::hook_index(procs, hook, 0);
        if proc >= procs.len() {
            &&& r == Ok::<Flow, Error>(Flow::Returned)
            &&& after.scripts@ == self.scripts@
            &&& after.suspended == self.suspended
            &&& after_env == env
        } else {
            self.invoked(after, sid, proc, env, after_env, budget, may_suspend, r)
        }
    }

    /// Whether `after`, `after_env` and `r` are what a resumption leaves.
    ///
    /// Without a waiting script nothing changes and there is no result. With
    /// one, the run starts on exactly the machine that was kept, with `value`
    /// pushed if one is given, and what was kept is kept no longer; whether
    /// the script may be suspended anew is up to `may_suspend`.
    pub open spec fn resumed(
        &self,
        after: &Scripts,
        value: Option<Value>,
        env: Env,
        after_env: Env,
        budget: nat,
        may_suspend: bool,
        r: Option<Result<Flow, Error>>,
    ) -> bool {
        match self.suspended {
            None => {
                &&& r is None
                &&& after.scripts@ == self.scripts@
                &&& after.suspended is None
                &&& after_env == env
            },
            Some(waiting) => {
                let i = waiting.script as int;
                let before = self.scripts@[i].state;
                let kept = waiting.execution.machine(before@.exported);
                let start = match value {
                    Some(v) => kept.push(v),
                    None => kept,
                };
                let s = run_spec(before.program, start, env, budget);
                let t = settle(s, may_suspend);
                &&& r == Some(t.result)
                &&& after_env == s.env
                &&& self.updated(after, i, t.machine)
                &&& match t.kept {
                    Some(m) => after.suspended matches Some(again) && again.script == i
                        && again.execution.machine(m.exported) == m,
                    None => after.suspended is None,
                }
            },
        }
    }

    /// An empty registry.
    pub fn new() -> (s: Scripts)
        ensures
            s.scripts@ == Seq::<Script>::empty(),
            s.suspended is None,
            s.wf(),
    {
        Scripts { vm: Vm::new(), scripts: Vec::new(), suspended: None }
    }

    /// The place in the registry of the script with this identifier.
    pub fn find(&self, sid: u32) -> (r: Option<usize>)
        requires
            self.wf(),
        ensures
            match r {
                Some(i) => self.has_script(sid) && i == self.index_of(sid),
                None => !self.has_script(sid),
            },
    {
        let mut i: usize = 0;
        while i < self.scripts.len()
            invariant
                i <= self.scripts.len(),
                self.wf(),
                forall|k: int| 0 <= k < i ==> (#[trigger] self.scripts@[k]).sid != sid,
            decreases self.scripts.len() - i,
        {
            if self.scripts[i].sid == sid {
                proof {
                    let j = self.index_of(sid);
                    let _ = (self.scripts@[i as int], self.scripts@[j]);
                    if j < i {
                    } else if j > i {
                        assert(self.scripts@[i as int].sid != self.scripts@[j].sid);
                    }
                }
                return Some(i);
            }
            i = i + 1;
        }
        None
    }

    /// Loads `program` under the identifier `sid`, ready to be invoked.
    /// Fails, handing the program back, if the identifier is taken.
    pub fn insert(&mut self, sid: u32, program: Program) -> (r: Result<(), Program>)
        requires
            old(self).wf(),
        ensures
            final(self).wf(),
            final(self).suspended == old(self).suspended,
            match r {
                Ok(()) => {
                    &&& !old(self).has_script(sid)
                    &&& final(self).scripts@.len() == old(self).scripts@.len() + 1
                    &&& final(self).scripts@.take(old(self).scripts@.len() as int) == old(self).scripts@
                    &&& final(self).scripts@.last().sid == sid
                    &&& final(self).scripts@.last().state.program == program
                    &&& final(self).scripts@.last().state@ == Machine::fresh(program.pool@.len())
                },
                Err(p) => old(self).has_script(sid) && p == program && final(self).scripts@ == old(self).scripts@,
            },
    {
        if self.find(sid).is_some() {
            return Err(program);
        }
        let state = ProgramState::new(program);
        self.scripts.push(Script { sid, state });
        proof {
            let after = self.scripts@;
            let n = old(self).scripts@.len() as int;
            assert(after.take(n) == old(self).scripts@);
            assert forall|i: int, j: int|
                #![trigger after[i], after[j]]
                0 <= i < j < after.len() implies after[i].sid != after[j].sid by {
                if j < n {
                    let _ = (old(self).scripts@[i], old(self).scripts@[j]);
                } else {
                    assert(after[i] == old(self).scripts@[i]);
                }
            }
            assert forall|i: int| 0 <= i < after.len() implies (#[trigger] after[i]).state@.wf() by {
                if i < n {
                    assert(after[i] == old(self).scripts@[i]);
                }
            }
        }
        Ok(())
    }

    /// Whether a script waits to be resumed.
    pub fn can_resume(&self) -> (b: bool)
        ensures
            b == self.suspended.is_some(),
    {
        self.suspended.is_some()
    }

    /// Runs the script at `i` from where its machine stands and settles the
    /// end of the run.
    fn run_at<S>(&mut self, i: usize, ctx: &mut Context<S>, budget: u64, may_suspend: bool) -> (r:
        Result<Flow, Error>)
        requires
            old(self).wf(),
            i < old(self).scripts@.len(),
        ensures
            final(self).wf(),
            final(ctx).state.sequences == old(ctx).state.sequences,
            old(self).ran(
                final(self),
                i as int,
                old(self).scripts@[i as int].state@,
                old(ctx).env(),
                final(ctx).env(),
                budget as nat,
                may_suspend,
                r,
            ),
    {
        let r = self.vm.run(&mut self.scripts[i].state, ctx, budget);
        let ghost mid = self.scripts@;
        proof {
            assert forall|k: int| 0 <= k < mid.len() && k != i implies #[trigger] mid[k] == old(self).scripts@[k] by {}
        }
        let settled = match r {
            Ok(Flow::Returned) | Ok(Flow::Exited) => {
                let _ = self.scripts[i].state.park();
                r
            },
            Ok(Flow::Suspend(_)) => {
                if may_suspend && self.suspended.is_none() {
                    let ghost running = self.scripts@[i as int].state@;
                    let execution = self.scripts[i].state.park();
                    proof {
                        assert(execution.machine(running.exported).wf());
                        assert(execution.machine(Seq::empty()).frames == running.frames);
                        assert(execution.machine(Seq::empty()).wf());
                    }
                    self.suspended = Some(Suspended { script: i, execution });
                    r
                } else {
                    Err(Error::IllegalSuspend)
                }
            },
            _ => r,
        };
        proof {
            let after = self.scripts@;
            assert forall|k: int| 0 <= k < after.len() && k != i implies #[trigger] after[k] == old(self).scripts@[k] by {
                assert(after[k] == mid[k]);
            }
            assert forall|a: int, b: int|
                #![trigger after[a], after[b]]
                0 <= a < b < after.len() implies after[a].sid != after[b].sid by {
                let _ = (old(self).scripts@[a], old(self).scripts@[b]);
                assert(after[a].sid == old(self).scripts@[a].sid);
                assert(after[b].sid == old(self).scripts@[b].sid);
            }
            assert forall|k: int| 0 <= k < after.len() implies (#[trigger] after[k]).state@.wf() by {
                if k != i {
                    assert(after[k] == old(self).scripts@[k]);
                }
            }
        }
        settled
    }

    /// Runs the procedure at `proc` of the procedure table of the script
    /// `sid`, for at most `budget` instruction cycles.
    ///
    /// The override flag is cleared, the script's machine is made ready for
    /// the call, and the script runs. With a `proc` that the table does not
    /// have, the call fails before anything is changed. How the end of the
    /// run is settled is told by [`settle`]; a request for suspension counts
    /// as allowed if `may_suspend` holds and no script is waiting already.
    ///
    /// When `Ok(Flow::Host(_))` or `Ok(Flow::Continue)` comes back the
    /// invocation is not over: [`Scripts::proceed`] goes on with it.
    pub fn execute_proc<S>(
        &mut self,
        sid: u32,
        proc: usize,
        ctx: &mut Context<S>,
        budget: u64,
        may_suspend: bool,
    ) -> (r: Result<Flow, Error>)
        requires
            old(self).wf(),
            old(self).has_script(sid),
        ensures
            final(self).wf(),
            final(ctx).state.sequences == old(ctx).state.sequences,
            old(self).invoked(
                final(self),
                sid,
                proc as int,
                old(ctx).env(),
                final(ctx).env(),
                budget as nat,
                may_suspend,
                r,
            ),
    {
        let i = match self.find(sid) {
            Some(i) => i,
            None => {
                return Err(Error::BadOperandType);
            },
        };
        if proc >= self.scripts[i].state.program.procs.len() {
            return Err(Error::BadOperandType);
        }
        let _ = self.scripts[i].state.enter(proc);
        ctx.state.script_overrides = false;
        proof {
            let mid = self.scripts@;
            assert forall|a: int, b: int|
                #![trigger mid[a], mid[b]]
                0 <= a < b < mid.len() implies mid[a].sid != mid[b].sid by {
                let _ = (old(self).scripts@[a], old(self).scripts@[b]);
                assert(mid[a].sid == old(self).scripts@[a].sid);
                assert(mid[b].sid == old(self).scripts@[b].sid);
            }
            assert forall|k: int| 0 <= k < mid.len() implies (#[trigger] mid[k]).state@.wf() by {
                if k != i {
                    assert(mid[k] == old(self).scripts@[k]);
                }
            }
        }
        self.run_at(i, ctx, budget, may_suspend)
    }

    /// Runs the procedure of the script `sid` that serves `hook`, if the
    /// script has one, as [`Scripts::execute_proc`] would. A script without
    /// such a procedure has nothing to do: the call reports that the
    /// procedure returned and changes nothing.
    pub fn execute_predefined_proc<S>(
        &mut self,
        sid: u32,
        hook: PredefinedProc,
        ctx: &mut Context<S>,
        budget: u64,
        may_suspend: bool,
    ) -> (r: Result<Flow, Error>)
        requires
            old(self).wf(),
            old(self).has_script(sid),
        ensures
            final(self).wf(),
            final(ctx).state.sequences == old(ctx).state.sequences,
            old(self).hooked(
                final(self),
                sid,
                hook,
                old(ctx).env(),
                final(ctx).env(),
                budget as nat,
                may_suspend,
                r,
            ),
    {
        let i = match self.find(sid) {
            Some(i) => i,
            None => {
                return Ok(Flow::Returned);
            },
        };
        let _ = self.scripts[i].state.program.procs.len();
        proof {
            Program::lemma_hook_index(self.scripts@[i as int].state.program.procs@, hook, 0);
        }
        match self.scripts[i].state.program.find_hook(hook) {
            Some(proc) => self.execute_proc(sid, proc, ctx, budget, may_suspend),
            None => Ok(Flow::Returned),
        }
    }

    /// Goes on with the invocation of the script `sid` that handed an
    /// instruction to the game or used up its budget: runs the script from
    /// where its machine stands.
    pub fn proceed<S>(&mut self, sid: u32, ctx: &mut Context<S>, budget: u64, may_suspend: bool) -> (r:
        Result<Flow, Error>)
        requires
            old(self).wf(),
            old(self).has_script(sid),
        ensures
            final(self).wf(),
            final(ctx).state.sequences == old(ctx).state.sequences,
            old(self).ran(
                final(self),
                old(self).index_of(sid),
                old(self).scripts@[old(self).index_of(sid)].state@,
                old(ctx).env(),
                final(ctx).env(),
                budget as nat,
                may_suspend,
                r,
            ),
    {
        let i = match self.find(sid) {
            Some(i) => i,
            None => {
                return Err(Error::BadOperandType);
            },
        };
        self.run_at(i, ctx, budget, may_suspend)
    }

    /// Resumes the suspended script, if there is one.
    ///
    /// The execution that was set aside is taken up again exactly as it was
    /// kept, `value`, if given, is pushed on its data stack, and the script
    /// runs on from the instruction behind the one that suspended it. With
    /// `may_suspend` the script may ask to be suspended again. Without a
    /// suspended script nothing happens and `None` is returned.
    pub fn resume<S>(
        &mut self,
        ctx: &mut Context<S>,
        value: Option<Value>,
        budget: u64,
        may_suspend: bool,
    ) -> (r: Option<Result<Flow, Error>>)
        requires
            old(self).wf(),
        ensures
            final(self).wf(),
            final(ctx).state.sequences == old(ctx).state.sequences,
            old(self).resumed(
                final(self),
                value,
                old(ctx).env(),
                final(ctx).env(),
                budget as nat,
                may_suspend,
                r,
            ),
    {
        let waiting = match self.suspended.take() {
            Some(w) => w,
            None => {
                return None;
            },
        };
        let i = waiting.script;
        let execution = waiting.execution;
        proof {
            let exported = self.scripts@[i as int].state@.exported;
            assert(execution.machine(Seq::empty()).wf());
            assert(execution.machine(exported).frames == execution.machine(Seq::empty()).frames);
            assert(execution.machine(exported).wf());
        }
        self.scripts[i].state.unpark(execution);
        match value {
            Some(v) => {
                self.scripts[i].state.push(v);
            },
            None => {},
        }
        proof {
            let mid = self.scripts@;
            assert forall|a: int, b: int|
                #![trigger mid[a], mid[b]]
                0 <= a < b < mid.len() implies mid[a].sid != mid[b].sid by {
                let _ = (old(self).scripts@[a], old(self).scripts@[b]);
                assert(mid[a].sid == old(self).scripts@[a].sid);
                assert(mid[b].sid == old(self).scripts@[b].sid);
            }
            assert forall|k: int| 0 <= k < mid.len() implies (#[trigger] mid[k]).state@.wf() by {
                if k != i {
                    assert(mid[k] == old(self).scripts@[k]);
                }
            }
        }
        Some(self.run_at(i, ctx, budget, may_suspend))
    }
}

} // verus!
