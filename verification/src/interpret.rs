//! The fetch-decode-execute loop: run a program against a helper table
//! and a context value until it exits, faults, or runs forever.
//!
//! A helper's return value is outside the machine's control, so the
//! interpreter's contract is stated against `run_spec`, the machine's
//! multi-step semantics fed by an oracle sequence of helper results:
//! whatever the interpreter returns, some oracle and step count produce
//! exactly that outcome from the initial state — and everything the
//! machine itself does along the way is fixed by `step_spec`.

use vstd::prelude::*;

use crate::machine::MAX_PROG_LEN;
use crate::machine::StepTag;
use crate::machine::Vm;
use crate::machine::VmState;
use crate::machine::init_state;
use crate::machine::step_spec;
use crate::types::spec_decode;
use crate::types::Class;
use crate::types::Fault;
use crate::types::Inst;
use crate::types::Op;
use crate::types::Src;

verus! {

/// One native helper function, callable from a program through the CALL
/// instruction with registers 1 to 5 as arguments. The host supplies the
/// implementations; nothing is promised of what one returns.
pub trait Helper {
    /// Invoke the helper on the five argument registers.
    fn call(&self, a1: u64, a2: u64, a3: u64, a4: u64, a5: u64) -> u64;
}

/// Where a bounded run has arrived: still running in a given state with
/// the unconsumed rest of the oracle, terminated with a result, aborted
/// with a fault, or out of oracle entries for its helper calls.
pub enum RunOut {
    More(VmState, Seq<u64>),
    Done(u64),
    Abort(Fault),
    Stuck,
}

/// `fuel` machine steps from state `s`, against a helper table of
/// `nhelpers` entries whose successive results are drawn from `oracle`.
/// A CALL with an immediate outside the table aborts; one that outruns
/// the oracle is `Stuck` (no run of the interpreter does: its oracle is
/// exactly the results its helpers hand back).
pub open spec fn run_spec(
    prog: Seq<u64>,
    nhelpers: nat,
    oracle: Seq<u64>,
    s: VmState,
    fuel: nat,
) -> RunOut
    decreases fuel,
{
    if fuel == 0 {
        RunOut::More(s, oracle)
    } else {
        let step = step_spec(prog, s);
        match step.1 {
            StepTag::Cont => run_spec(prog, nhelpers, oracle, step.0, (fuel - 1) as nat),
            StepTag::Done(v) => RunOut::Done(v),
            StepTag::Abort(f) => RunOut::Abort(f),
            StepTag::Call(imm) => if imm < 0 || imm >= nhelpers {
                RunOut::Abort(Fault::HelperIndexOutOfRange)
            } else if oracle.len() == 0 {
                RunOut::Stuck
            } else {
                run_spec(
                    prog,
                    nhelpers,
                    oracle.drop_first(),
                    VmState { regs: step.0.regs.update(0, oracle.first()), ..step.0 },
                    (fuel - 1) as nat,
                )
            },
        }
    }
}

/// What one more unit of fuel does to a bounded run: a run that is still
/// going takes exactly one more step of the machine, consuming an oracle
/// entry if that step is a helper call; a finished run stays finished.
pub proof fn lemma_run_spec_extend(
    prog: Seq<u64>,
    nhelpers: nat,
    oracle: Seq<u64>,
    s: VmState,
    fuel: nat,
)
    ensures
        run_spec(prog, nhelpers, oracle, s, fuel + 1) == (match run_spec(
            prog,
            nhelpers,
            oracle,
            s,
            fuel,
        ) {
            RunOut::More(s1, rest) => {
                let step = step_spec(prog, s1);
                match step.1 {
                    StepTag::Cont => RunOut::More(step.0, rest),
                    StepTag::Done(v) => RunOut::Done(v),
                    StepTag::Abort(f) => RunOut::Abort(f),
                    StepTag::Call(imm) => if imm < 0 || imm >= nhelpers {
                        RunOut::Abort(Fault::HelperIndexOutOfRange)
                    } else if rest.len() == 0 {
                        RunOut::Stuck
                    } else {
                        RunOut::More(
                            VmState { regs: step.0.regs.update(0, rest.first()), ..step.0 },
                            rest.drop_first(),
                        )
                    },
                }
            },
            r => r,
        }),
    decreases fuel,
{
    let step0 = step_spec(prog, s);
    if fuel == 0 {
        assert(run_spec(prog, nhelpers, oracle, s, 0) == RunOut::More(s, oracle));
        assert(run_spec(prog, nhelpers, oracle, s, 1) == (match step0.1 {
            StepTag::Cont => run_spec(prog, nhelpers, oracle, step0.0, 0),
            StepTag::Done(v) => RunOut::Done(v),
            StepTag::Abort(f) => RunOut::Abort(f),
            StepTag::Call(imm) => if imm < 0 || imm >= nhelpers {
                RunOut::Abort(Fault::HelperIndexOutOfRange)
            } else if oracle.len() == 0 {
                RunOut::Stuck
            } else {
                run_spec(
                    prog,
                    nhelpers,
                    oracle.drop_first(),
                    VmState { regs: step0.0.regs.update(0, oracle.first()), ..step0.0 },
                    0,
                )
            },
        }));
    } else {
        match step0.1 {
            StepTag::Cont => {
                lemma_run_spec_extend(prog, nhelpers, oracle, step0.0, (fuel - 1) as nat);
                assert(run_spec(prog, nhelpers, oracle, s, fuel) == run_spec(
                    prog,
                    nhelpers,
                    oracle,
                    step0.0,
                    (fuel - 1) as nat,
                ));
                assert(run_spec(prog, nhelpers, oracle, s, fuel + 1) == run_spec(
                    prog,
                    nhelpers,
                    oracle,
                    step0.0,
                    fuel,
                ));
            },
            StepTag::Call(imm) => {
                if 0 <= imm < nhelpers && oracle.len() > 0 {
                    let s2 = VmState {
                        regs: step0.0.regs.update(0, oracle.first()),
                        ..step0.0
                    };
                    lemma_run_spec_extend(
                        prog,
                        nhelpers,
                        oracle.drop_first(),
                        s2,
                        (fuel - 1) as nat,
                    );
                    assert(run_spec(prog, nhelpers, oracle, s, fuel) == run_spec(
                        prog,
                        nhelpers,
                        oracle.drop_first(),
                        s2,
                        (fuel - 1) as nat,
                    ));
                    assert(run_spec(prog, nhelpers, oracle, s, fuel + 1) == run_spec(
                        prog,
                        nhelpers,
                        oracle.drop_first(),
                        s2,
                        fuel,
                    ));
                }
            },
            _ => {},
        }
    }
}

/// Helper-dispatch law: a CALL whose immediate names a registered helper
/// consumes exactly one helper result and places it, unchanged, in
/// register 0; every other register, the stack, and the fall-through
/// program counter are untouched.
pub proof fn lemma_call_writes_helper_result(
    prog: Seq<u64>,
    nhelpers: nat,
    oracle: Seq<u64>,
    s: VmState,
    i: Inst,
)
    requires
        s.wf(),
        s.pc < prog.len(),
        spec_decode(prog[s.pc as int]) == Ok::<Inst, Fault>(i),
        i.class == Some(Class::JMP),
        i.op == Some(Op::CALL),
        i.src == Some(Src::K),
        0 <= i.imm < nhelpers,
        oracle.len() > 0,
    ensures
        run_spec(prog, nhelpers, oracle, s, 1) == RunOut::More(
            VmState { pc: s.pc + 1, regs: s.regs.update(0, oracle.first()), stack: s.stack },
            oracle.drop_first(),
        ),
{
    let s1 = VmState { pc: s.pc + 1, ..s };
    assert(step_spec(prog, s) == (s1, StepTag::Call(i.imm)));
    let s2 = VmState { regs: s1.regs.update(0, oracle.first()), ..s1 };
    assert(run_spec(prog, nhelpers, oracle, s, 1) == run_spec(
        prog,
        nhelpers,
        oracle.drop_first(),
        s2,
        0,
    ));
    assert(s2 =~= (VmState {
        pc: s.pc + 1,
        regs: s.regs.update(0, oracle.first()),
        stack: s.stack,
    }));
}

/// Run a program against a helper table and a context value, fetching at
/// most `fuel` instructions: either some EXIT yields register 0, a
/// division by zero yields 0, or the run aborts with a fault; a program
/// still running after `fuel` steps aborts with `OutOfFuel`. Exactly the
/// outcome returned is produced by the machine semantics from the
/// initial state, under the oracle of the values the helpers actually
/// returned — and `OutOfFuel` comes back only when the machine really is
/// still running after `fuel` full steps.
pub fn interpret<H: Helper>(insts: &[u64], helpers: &[H], ctx: u64, fuel: u64) -> (r: Result<
    u64,
    Fault,
>)
    requires
        insts@.len() <= MAX_PROG_LEN,
    ensures
        (r matches Ok(v) ==> exists|oracle: Seq<u64>, n: nat|
            n <= fuel && run_spec(insts@, helpers@.len(), oracle, init_state(ctx), n)
                == RunOut::Done(v)),
        (r matches Err(f) ==> if f == Fault::OutOfFuel {
            exists|oracle: Seq<u64>, s: VmState|
                run_spec(insts@, helpers@.len(), oracle, init_state(ctx), fuel as nat)
                    == RunOut::More(s, Seq::empty())
        } else {
            exists|oracle: Seq<u64>, n: nat|
                n <= fuel && run_spec(insts@, helpers@.len(), oracle, init_state(ctx), n)
                    == RunOut::Abort(f)
        }),
{
    let mut vm = Vm::new(ctx);
    let mut left: u64 = fuel;
    let ghost nh: nat = helpers@.len();
    let ghost mut seen: Seq<u64> = Seq::empty();
    let ghost mut steps: nat = 0;
    proof {
        assert forall|rest: Seq<u64>| #[trigger] run_spec(
            insts@,
            nh,
            seen + rest,
            init_state(ctx),
            steps,
        ) == RunOut::More(vm@, rest) by {
            assert(seen + rest =~= rest);
        }
    }
    loop
        invariant
            vm@.wf(),
            insts@.len() <= MAX_PROG_LEN,
            nh == helpers@.len(),
            steps + left == fuel,
            forall|rest: Seq<u64>| #[trigger] run_spec(
                insts@,
                nh,
                seen + rest,
                init_state(ctx),
                steps,
            ) == RunOut::More(vm@, rest),
        decreases left,
    {
        if left == 0 {
            proof {
                assert(run_spec(insts@, nh, seen + Seq::<u64>::empty(), init_state(ctx), steps)
                    == RunOut::More(vm@, Seq::empty()));
                assert(seen + Seq::<u64>::empty() =~= seen);
            }
            return Err(Fault::OutOfFuel);
        }
        left = left - 1;
        let ghost prev = vm@;
        let tag = vm.step(insts);
        match tag {
            StepTag::Cont => {
                proof {
                    assert forall|rest: Seq<u64>| #[trigger] run_spec(
                        insts@,
                        nh,
                        seen + rest,
                        init_state(ctx),
                        steps + 1,
                    ) == RunOut::More(vm@, rest) by {
                        lemma_run_spec_extend(insts@, nh, seen + rest, init_state(ctx), steps);
                    }
                    steps = steps + 1;
                }
            },
            StepTag::Done(v) => {
                proof {
                    assert(run_spec(insts@, nh, seen + Seq::<u64>::empty(), init_state(ctx), steps)
                        == RunOut::More(prev, Seq::empty()));
                    assert(seen + Seq::<u64>::empty() =~= seen);
                    lemma_run_spec_extend(insts@, nh, seen, init_state(ctx), steps);
                    assert(run_spec(insts@, nh, seen, init_state(ctx), steps + 1) == RunOut::Done(
                        v,
                    ));
                }
                return Ok(v);
            },
            StepTag::Abort(f) => {
                proof {
                    assert(run_spec(insts@, nh, seen + Seq::<u64>::empty(), init_state(ctx), steps)
                        == RunOut::More(prev, Seq::empty()));
                    assert(seen + Seq::<u64>::empty() =~= seen);
                    lemma_run_spec_extend(insts@, nh, seen, init_state(ctx), steps);
                    assert(run_spec(insts@, nh, seen, init_state(ctx), steps + 1)
                        == RunOut::Abort(f));
                }
                return Err(f);
            },
            StepTag::Call(imm) => {
                if imm < 0 || imm as usize >= helpers.len() {
                    proof {
                        assert(run_spec(
                            insts@,
                            nh,
                            seen + Seq::<u64>::empty(),
                            init_state(ctx),
                            steps,
                        ) == RunOut::More(prev, Seq::empty()));
                        assert(seen + Seq::<u64>::empty() =~= seen);
                        lemma_run_spec_extend(insts@, nh, seen, init_state(ctx), steps);
                        assert(run_spec(insts@, nh, seen, init_state(ctx), steps + 1)
                            == RunOut::Abort(Fault::HelperIndexOutOfRange));
                    }
                    return Err(Fault::HelperIndexOutOfRange);
                }
                let a1 = vm.reg(1);
                let a2 = vm.reg(2);
                let a3 = vm.reg(3);
                let a4 = vm.reg(4);
                let a5 = vm.reg(5);
                let ret = helpers[imm as usize].call(a1, a2, a3, a4, a5);
                vm.set_ret(ret);
                proof {
                    assert forall|rest: Seq<u64>| #[trigger] run_spec(
                        insts@,
                        nh,
                        seen.push(ret) + rest,
                        init_state(ctx),
                        steps + 1,
                    ) == RunOut::More(vm@, rest) by {
                        let rest0 = seq![ret] + rest;
                        assert(seen + rest0 =~= seen.push(ret) + rest);
                        assert(run_spec(insts@, nh, seen + rest0, init_state(ctx), steps)
                            == RunOut::More(prev, rest0));
                        lemma_run_spec_extend(insts@, nh, seen + rest0, init_state(ctx), steps);
                        assert(rest0.first() == ret);
                        assert(rest0.drop_first() =~= rest);
                        let stepped = step_spec(insts@, prev);
                        assert(vm@ =~= (VmState {
                            regs: stepped.0.regs.update(0, ret),
                            ..stepped.0
                        }));
                    }
                    seen = seen.push(ret);
                    steps = steps + 1;
                }
            },
        }
    }
}

} // verus!
