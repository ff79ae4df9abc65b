//! The execution engine. The mathematical interpreter is the pair
//! [`step`] (one instruction's transition) and [`run_from`] (the iterated
//! fetch-execute relation); the executable loop [`execute_program`] is
//! proved to return exactly what the interpreter says.

use vstd::prelude::*;

use crate::isa::{Fault, Instruction, Opcode};
use crate::machine::{
    reg_fault2,
    reg_fault3,
    regs1_ok,
    regs2_ok,
    regs3_ok,
    MachineView,
    ProcessingUnit,
    ProcessingUnitState,
};
use crate::values;

verus! {

/// What dispatching one instruction does to the machine: fall through to
/// the next instruction in a new state, redirect the instruction pointer
/// (the state unchanged), halt, or fault.
pub enum StepOutcome {
    Next(MachineView),
    Jump(usize),
    Stop,
    Fail(Fault),
}

/// One three-register operation: `r3` becomes `op(r1, r2)`; the register
/// bounds are checked, in order, before anything is written.
pub open spec fn step_binary(
    s: MachineView,
    r1: usize,
    r2: usize,
    r3: usize,
    op: spec_fn(i32, i32) -> i32,
) -> StepOutcome {
    if regs3_ok(s, r1, r2, r3) {
        StepOutcome::Next(s.with_reg(r3, op(s.regs[r1 as int], s.regs[r2 as int])))
    } else {
        StepOutcome::Fail(reg_fault3(s, r1, r2, r3))
    }
}

/// A three-register operation that faults on a zero-valued `r2`, checked
/// after the register bounds and before anything is written.
pub open spec fn step_divlike(
    s: MachineView,
    r1: usize,
    r2: usize,
    r3: usize,
    op: spec_fn(i32, i32) -> i32,
) -> StepOutcome {
    if !regs3_ok(s, r1, r2, r3) {
        StepOutcome::Fail(reg_fault3(s, r1, r2, r3))
    } else if s.regs[r2 as int] == 0 {
        StepOutcome::Fail(Fault::DivisionByZero { reg: r2 })
    } else {
        StepOutcome::Next(s.with_reg(r3, op(s.regs[r1 as int], s.regs[r2 as int])))
    }
}

/// One two-register operation: `r2` becomes `op(r1)`.
pub open spec fn step_unary(
    s: MachineView,
    r1: usize,
    r2: usize,
    op: spec_fn(i32) -> i32,
) -> StepOutcome {
    if regs2_ok(s, r1, r2) {
        StepOutcome::Next(s.with_reg(r2, op(s.regs[r1 as int])))
    } else {
        StepOutcome::Fail(reg_fault2(s, r1, r2))
    }
}

/// One single-register operation: `r1` becomes `op(r1)`.
pub open spec fn step_inplace(s: MachineView, r1: usize, op: spec_fn(i32) -> i32) -> StepOutcome {
    if regs1_ok(s, r1) {
        StepOutcome::Next(s.with_reg(r1, op(s.regs[r1 as int])))
    } else {
        StepOutcome::Fail(Fault::OutOfBounds { index: r1 })
    }
}

/// A branch on one register: taken when the register's zeroness equals
/// `want_zero`. A taken branch redirects the pointer and never changes
/// the state; an untaken one falls through.
pub open spec fn step_branch1(
    s: MachineView,
    r1: usize,
    addr: usize,
    want_zero: bool,
) -> StepOutcome {
    if regs1_ok(s, r1) {
        if (s.regs[r1 as int] == 0) == want_zero {
            StepOutcome::Jump(addr)
        } else {
            StepOutcome::Next(s)
        }
    } else {
        StepOutcome::Fail(Fault::OutOfBounds { index: r1 })
    }
}

/// A branch on two registers: taken when their equality equals
/// `want_equal`. Taken conditional branches suppress the default pointer
/// increment uniformly, for all six jump opcodes alike.
pub open spec fn step_branch2(
    s: MachineView,
    r1: usize,
    r2: usize,
    addr: usize,
    want_equal: bool,
) -> StepOutcome {
    if regs2_ok(s, r1, r2) {
        if (s.regs[r1 as int] == s.regs[r2 as int]) == want_equal {
            StepOutcome::Jump(addr)
        } else {
            StepOutcome::Next(s)
        }
    } else {
        StepOutcome::Fail(reg_fault2(s, r1, r2))
    }
}

/// The transition rule of one instruction against machine state `s`.
pub open spec fn step(s: MachineView, i: Instruction) -> StepOutcome {
    match i.opcode {
        Opcode::Nop => StepOutcome::Next(s),
        Opcode::Add => step_binary(
            s,
            i.reg1,
            i.reg2,
            i.reg3,
            |a: i32, b: i32| values::add_value(a, b),
        ),
        Opcode::Sub => step_binary(
            s,
            i.reg1,
            i.reg2,
            i.reg3,
            |a: i32, b: i32| values::sub_value(a, b),
        ),
        Opcode::Mul => step_binary(
            s,
            i.reg1,
            i.reg2,
            i.reg3,
            |a: i32, b: i32| values::mul_value(a, b),
        ),
        Opcode::Div => step_divlike(
            s,
            i.reg1,
            i.reg2,
            i.reg3,
            |a: i32, b: i32| values::div_value(a, b),
        ),
        Opcode::Mod => step_divlike(
            s,
            i.reg1,
            i.reg2,
            i.reg3,
            |a: i32, b: i32| values::rem_value(a, b),
        ),
        Opcode::And => step_binary(
            s,
            i.reg1,
            i.reg2,
            i.reg3,
            |a: i32, b: i32| values::and_value(a, b),
        ),
        Opcode::Or => step_binary(
            s,
            i.reg1,
            i.reg2,
            i.reg3,
            |a: i32, b: i32| values::or_value(a, b),
        ),
        Opcode::Xor => step_binary(
            s,
            i.reg1,
            i.reg2,
            i.reg3,
            |a: i32, b: i32| values::xor_value(a, b),
        ),
        Opcode::Shl => step_binary(
            s,
            i.reg1,
            i.reg2,
            i.reg3,
            |a: i32, b: i32| values::shl_value(a, b),
        ),
        Opcode::Shr => step_binary(
            s,
            i.reg1,
            i.reg2,
            i.reg3,
            |a: i32, b: i32| values::shr_value(a, b),
        ),
        Opcode::Cmp => step_binary(
            s,
            i.reg1,
            i.reg2,
            i.reg3,
            |a: i32, b: i32| values::sub_value(a, b),
        ),
        Opcode::Test => step_binary(
            s,
            i.reg1,
            i.reg2,
            i.reg3,
            |a: i32, b: i32| values::and_value(a, b),
        ),
        Opcode::Neg => step_unary(s, i.reg1, i.reg2, |a: i32| values::neg_value(a)),
        Opcode::Abs => step_unary(s, i.reg1, i.reg2, |a: i32| values::abs_value(a)),
        Opcode::Not => step_unary(s, i.reg1, i.reg2, |a: i32| values::not_value(a)),
        Opcode::Inc => step_inplace(s, i.reg1, |a: i32| values::add_value(a, 1)),
        Opcode::Dec => step_inplace(s, i.reg1, |a: i32| values::sub_value(a, 1)),
        Opcode::LoadImmediate => if regs1_ok(s, i.reg1) {
            StepOutcome::Next(s.with_reg(i.reg1, i.immediate))
        } else {
            StepOutcome::Fail(Fault::OutOfBounds { index: i.reg1 })
        },
        Opcode::Mov => if regs2_ok(s, i.reg1, i.reg2) {
            StepOutcome::Next(s.with_reg(i.reg1, s.regs[i.reg2 as int]))
        } else {
            StepOutcome::Fail(reg_fault2(s, i.reg1, i.reg2))
        },
        Opcode::Load => if !regs1_ok(s, i.reg1) {
            StepOutcome::Fail(Fault::OutOfBounds { index: i.reg1 })
        } else if i.addr >= s.mem.len() {
            StepOutcome::Fail(Fault::OutOfBounds { index: i.addr })
        } else {
            StepOutcome::Next(s.with_reg(i.reg1, s.mem[i.addr as int]))
        },
        Opcode::Store => if !regs1_ok(s, i.reg1) {
            StepOutcome::Fail(Fault::OutOfBounds { index: i.reg1 })
        } else if i.addr >= s.mem.len() {
            StepOutcome::Fail(Fault::OutOfBounds { index: i.addr })
        } else {
            StepOutcome::Next(s.with_mem(i.addr, s.regs[i.reg1 as int]))
        },
        Opcode::Push => if !regs1_ok(s, i.reg1) {
            StepOutcome::Fail(Fault::OutOfBounds { index: i.reg1 })
        } else if s.sp == 0 {
            StepOutcome::Fail(Fault::StackOverflow { reg: i.reg1 })
        } else {
            StepOutcome::Next(s.pushed(i.reg1))
        },
        Opcode::Pop => if !regs1_ok(s, i.reg1) {
            StepOutcome::Fail(Fault::OutOfBounds { index: i.reg1 })
        } else if s.sp + 1 >= s.mem.len() {
            StepOutcome::Fail(Fault::StackUnderflow { reg: i.reg1 })
        } else {
            StepOutcome::Next(s.popped(i.reg1))
        },
        Opcode::Jmp => StepOutcome::Jump(i.addr),
        Opcode::B => StepOutcome::Jump(i.addr),
        Opcode::Jz => step_branch1(s, i.reg1, i.addr, true),
        Opcode::Bz => step_branch1(s, i.reg1, i.addr, true),
        Opcode::Jnz => step_branch1(s, i.reg1, i.addr, false),
        Opcode::Bnz => step_branch1(s, i.reg1, i.addr, false),
        Opcode::Je => step_branch2(s, i.reg1, i.reg2, i.addr, true),
        Opcode::Jne => step_branch2(s, i.reg1, i.reg2, i.addr, false),
        Opcode::Halt => StepOutcome::Stop,
    }
}

/// How a run ends: halted normally, or faulted; either way with the
/// machine state reached when the run ended. A fault never mutates state
/// beyond what the earlier, successful steps did.
pub enum RunOutcome {
    Halted(MachineView),
    Faulted(Fault, MachineView),
}

/// The iterated fetch-execute relation from instruction pointer `ip` with
/// `count` instructions already executed. Each step first checks the
/// budget, then whether the program is exhausted, then dispatches the
/// fetched instruction; every dispatched instruction but HALT consumes
/// one unit of budget.
pub open spec fn run_from(
    s: MachineView,
    prog: Seq<Instruction>,
    ip: nat,
    count: nat,
    budget: nat,
) -> RunOutcome
    decreases budget - count,
{
    if count >= budget {
        RunOutcome::Faulted(Fault::BudgetExceeded, s)
    } else if ip >= prog.len() {
        RunOutcome::Halted(s)
    } else {
        match step(s, prog[ip as int]) {
            StepOutcome::Next(s2) => run_from(s2, prog, ip + 1, count + 1, budget),
            StepOutcome::Jump(a) => run_from(s, prog, a as nat, count + 1, budget),
            StepOutcome::Stop => RunOutcome::Halted(s),
            StepOutcome::Fail(f) => RunOutcome::Faulted(f, s),
        }
    }
}

/// A whole run: from instruction pointer zero with the full budget.
pub open spec fn run_program(s: MachineView, prog: Seq<Instruction>, budget: nat) -> RunOutcome {
    run_from(s, prog, 0, 0, budget)
}

/// What dispatching one instruction asks of the loop: fall through,
/// redirect the pointer, or stop.
pub enum StepAction {
    Continue,
    Branch(usize),
    Halted,
}

/// Dispatches one instruction against the machine, returning exactly what
/// the transition rule [`step`] says.
pub fn dispatch(pu: &mut ProcessingUnit, instr: &Instruction) -> (r: Result<StepAction, Fault>)
    requires
        old(pu).wf(),
    ensures
        final(pu).wf(),
        (match r {
            Ok(StepAction::Continue) => step(old(pu)@, *instr) == StepOutcome::Next(final(pu)@),
            Ok(StepAction::Branch(a)) => step(old(pu)@, *instr) == StepOutcome::Jump(a)
                && final(pu)@ == old(pu)@,
            Ok(StepAction::Halted) => step(old(pu)@, *instr) == StepOutcome::Stop && final(pu)@
                == old(pu)@,
            Err(f) => step(old(pu)@, *instr) == StepOutcome::Fail(f) && final(pu)@ == old(pu)@,
        }),
{
    match instr.opcode {
        Opcode::Nop => Ok(StepAction::Continue),
        Opcode::Add => match pu.add(instr.reg1, instr.reg2, instr.reg3) {
            Ok(()) => Ok(StepAction::Continue),
            Err(f) => Err(f),
        },
        Opcode::Sub => match pu.subtract(instr.reg1, instr.reg2, instr.reg3) {
            Ok(()) => Ok(StepAction::Continue),
            Err(f) => Err(f),
        },
        Opcode::Mul => match pu.multiply(instr.reg1, instr.reg2, instr.reg3) {
            Ok(()) => Ok(StepAction::Continue),
            Err(f) => Err(f),
        },
        Opcode::Div => match pu.divide(instr.reg1, instr.reg2, instr.reg3) {
            Ok(()) => Ok(StepAction::Continue),
            Err(f) => Err(f),
        },
        Opcode::Mod => match pu.mod_op(instr.reg1, instr.reg2, instr.reg3) {
            Ok(()) => Ok(StepAction::Continue),
            Err(f) => Err(f),
        },
        Opcode::And => {
            let a = match pu.read(instr.reg1) {
                Ok(v) => v,
                Err(f) => {
                    return Err(f);
                },
            };
            let b = match pu.read(instr.reg2) {
                Ok(v) => v,
                Err(f) => {
                    return Err(f);
                },
            };
            match pu.write(instr.reg3, a & b) {
                Ok(()) => Ok(StepAction::Continue),
                Err(f) => Err(f),
            }
        },
        Opcode::Or => {
            let a = match pu.read(instr.reg1) {
                Ok(v) => v,
                Err(f) => {
                    return Err(f);
                },
            };
            let b = match pu.read(instr.reg2) {
                Ok(v) => v,
                Err(f) => {
                    return Err(f);
                },
            };
            match pu.write(instr.reg3, a | b) {
                Ok(()) => Ok(StepAction::Continue),
                Err(f) => Err(f),
            }
        },
        Opcode::Xor => {
            let a = match pu.read(instr.reg1) {
                Ok(v) => v,
                Err(f) => {
                    return Err(f);
                },
            };
            let b = match pu.read(instr.reg2) {
                Ok(v) => v,
                Err(f) => {
                    return Err(f);
                },
            };
            match pu.write(instr.reg3, a ^ b) {
                Ok(()) => Ok(StepAction::Continue),
                Err(f) => Err(f),
            }
        },
        Opcode::Shl => {
            let a = match pu.read(instr.reg1) {
                Ok(v) => v,
                Err(f) => {
                    return Err(f);
                },
            };
            let b = match pu.read(instr.reg2) {
                Ok(v) => v,
                Err(f) => {
                    return Err(f);
                },
            };
            let v = a.wrapping_shl(#[verifier::truncate] (b as u32));
            match pu.write(instr.reg3, v) {
                Ok(()) => Ok(StepAction::Continue),
                Err(f) => Err(f),
            }
        },
        Opcode::Shr => {
            let a = match pu.read(instr.reg1) {
                Ok(v) => v,
                Err(f) => {
                    return Err(f);
                },
            };
            let b = match pu.read(instr.reg2) {
                Ok(v) => v,
                Err(f) => {
                    return Err(f);
                },
            };
            let v = a.wrapping_shr(#[verifier::truncate] (b as u32));
            match pu.write(instr.reg3, v) {
                Ok(()) => Ok(StepAction::Continue),
                Err(f) => Err(f),
            }
        },
        Opcode::Cmp => {
            let a = match pu.read(instr.reg1) {
                Ok(v) => v,
                Err(f) => {
                    return Err(f);
                },
            };
            let b = match pu.read(instr.reg2) {
                Ok(v) => v,
                Err(f) => {
                    return Err(f);
                },
            };
            match pu.write(instr.reg3, a.wrapping_sub(b)) {
                Ok(()) => Ok(StepAction::Continue),
                Err(f) => Err(f),
            }
        },
        Opcode::Test => {
            let a = match pu.read(instr.reg1) {
                Ok(v) => v,
                Err(f) => {
                    return Err(f);
                },
            };
            let b = match pu.read(instr.reg2) {
                Ok(v) => v,
                Err(f) => {
                    return Err(f);
                },
            };
            match pu.write(instr.reg3, a & b) {
                Ok(()) => Ok(StepAction::Continue),
                Err(f) => Err(f),
            }
        },
        Opcode::Neg => match pu.neg(instr.reg1, instr.reg2) {
            Ok(()) => Ok(StepAction::Continue),
            Err(f) => Err(f),
        },
        Opcode::Abs => match pu.absolute(instr.reg1, instr.reg2) {
            Ok(()) => Ok(StepAction::Continue),
            Err(f) => Err(f),
        },
        Opcode::Not => {
            let a = match pu.read(instr.reg1) {
                Ok(v) => v,
                Err(f) => {
                    return Err(f);
                },
            };
            match pu.write(instr.reg2, !a) {
                Ok(()) => Ok(StepAction::Continue),
                Err(f) => Err(f),
            }
        },
        Opcode::Inc => {
            let a = match pu.read(instr.reg1) {
                Ok(v) => v,
                Err(f) => {
                    return Err(f);
                },
            };
            match pu.write(instr.reg1, a.wrapping_add(1)) {
                Ok(()) => Ok(StepAction::Continue),
                Err(f) => Err(f),
            }
        },
        Opcode::Dec => {
            let a = match pu.read(instr.reg1) {
                Ok(v) => v,
                Err(f) => {
                    return Err(f);
                },
            };
            match pu.write(instr.reg1, a.wrapping_sub(1)) {
                Ok(()) => Ok(StepAction::Continue),
                Err(f) => Err(f),
            }
        },
        Opcode::LoadImmediate => match pu.write(instr.reg1, instr.immediate) {
            Ok(()) => Ok(StepAction::Continue),
            Err(f) => Err(f),
        },
        Opcode::Mov => match pu.mov(instr.reg1, instr.reg2) {
            Ok(()) => Ok(StepAction::Continue),
            Err(f) => Err(f),
        },
        Opcode::Load => match pu.load(instr.addr, instr.reg1) {
            Ok(()) => Ok(StepAction::Continue),
            Err(f) => Err(f),
        },
        Opcode::Store => match pu.store(instr.reg1, instr.addr) {
            Ok(()) => Ok(StepAction::Continue),
            Err(f) => Err(f),
        },
        Opcode::Push => match pu.push(instr.reg1) {
            Ok(()) => Ok(StepAction::Continue),
            Err(f) => Err(f),
        },
        Opcode::Pop => match pu.pop(instr.reg1) {
            Ok(()) => Ok(StepAction::Continue),
            Err(f) => Err(f),
        },
        Opcode::Jmp => Ok(StepAction::Branch(instr.addr)),
        Opcode::B => Ok(StepAction::Branch(instr.addr)),
        Opcode::Jz => {
            let v = match pu.read(instr.reg1) {
                Ok(v) => v,
                Err(f) => {
                    return Err(f);
                },
            };
            if v == 0 {
                Ok(StepAction::Branch(instr.addr))
            } else {
                Ok(StepAction::Continue)
            }
        },
        Opcode::Bz => {
            let v = match pu.read(instr.reg1) {
                Ok(v) => v,
                Err(f) => {
                    return Err(f);
                },
            };
            if v == 0 {
                Ok(StepAction::Branch(instr.addr))
            } else {
                Ok(StepAction::Continue)
            }
        },
        Opcode::Jnz => {
            let v = match pu.read(instr.reg1) {
                Ok(v) => v,
                Err(f) => {
                    return Err(f);
                },
            };
            if v != 0 {
                Ok(StepAction::Branch(instr.addr))
            } else {
                Ok(StepAction::Continue)
            }
        },
        Opcode::Bnz => {
            let v = match pu.read(instr.reg1) {
                Ok(v) => v,
                Err(f) => {
                    return Err(f);
                },
            };
            if v != 0 {
                Ok(StepAction::Branch(instr.addr))
            } else {
                Ok(StepAction::Continue)
            }
        },
        Opcode::Je => {
            let a = match pu.read(instr.reg1) {
                Ok(v) => v,
                Err(f) => {
                    return Err(f);
                },
            };
            let b = match pu.read(instr.reg2) {
                Ok(v) => v,
                Err(f) => {
                    return Err(f);
                },
            };
            if a == b {
                Ok(StepAction::Branch(instr.addr))
            } else {
                Ok(StepAction::Continue)
            }
        },
        Opcode::Jne => {
            let a = match pu.read(instr.reg1) {
                Ok(v) => v,
                Err(f) => {
                    return Err(f);
                },
            };
            let b = match pu.read(instr.reg2) {
                Ok(v) => v,
                Err(f) => {
                    return Err(f);
                },
            };
            if a != b {
                Ok(StepAction::Branch(instr.addr))
            } else {
                Ok(StepAction::Continue)
            }
        },
        Opcode::Halt => Ok(StepAction::Halted),
    }
}

/// Runs the program to completion or fault. On a normal halt the machine
/// holds the state the interpreter reaches; on a fault the machine holds
/// the state reached just before the faulting step, and the fault is
/// returned. No instruction executes after a fault is detected.
pub fn execute_program(pu: &mut ProcessingUnit, program: &Vec<Instruction>, mic: usize) -> (r:
    Result<(), Fault>)
    requires
        old(pu).wf(),
    ensures
        final(pu).wf(),
        (match r {
            Ok(()) => run_program(old(pu)@, program@, mic as nat) == RunOutcome::Halted(
                final(pu)@,
            ),
            Err(f) => run_program(old(pu)@, program@, mic as nat) == RunOutcome::Faulted(
                f,
                final(pu)@,
            ),
        }),
{
    let ghost start = pu@;
    let mut instruction_count: usize = 0;
    let mut instruction_pointer: usize = 0;
    loop
        invariant
            start == old(pu)@,
            pu.wf(),
            instruction_count <= mic,
            run_program(start, program@, mic as nat) == run_from(
                pu@,
                program@,
                instruction_pointer as nat,
                instruction_count as nat,
                mic as nat,
            ),
        decreases mic - instruction_count,
    {
        if instruction_count >= mic {
            return Err(Fault::BudgetExceeded);
        }
        if instruction_pointer >= program.len() {
            return Ok(());
        }
        let instr = program[instruction_pointer];
        match dispatch(pu, &instr) {
            Ok(StepAction::Continue) => {
                instruction_count = instruction_count + 1;
                instruction_pointer = instruction_pointer + 1;
            },
            Ok(StepAction::Branch(a)) => {
                instruction_count = instruction_count + 1;
                instruction_pointer = a;
            },
            Ok(StepAction::Halted) => {
                return Ok(());
            },
            Err(f) => {
                return Err(f);
            },
        }
    }
}

/// Runs the program and, on a normal halt, reads back the final snapshot:
/// the registers in index order and the live stack.
pub fn run(pu: &mut ProcessingUnit, program: &Vec<Instruction>, mic: usize) -> (r: Result<
    ProcessingUnitState,
    Fault,
>)
    requires
        old(pu).wf(),
    ensures
        final(pu).wf(),
        (match r {
            Ok(st) => run_program(old(pu)@, program@, mic as nat) == RunOutcome::Halted(
                final(pu)@,
            ) && st.registers@ == final(pu)@.regs && st.stack@ == final(pu)@.stack(),
            Err(f) => run_program(old(pu)@, program@, mic as nat) == RunOutcome::Faulted(
                f,
                final(pu)@,
            ),
        }),
{
    match execute_program(pu, program, mic) {
        Ok(()) => Ok(pu.snapshot()),
        Err(f) => Err(f),
    }
}

} // verus!
