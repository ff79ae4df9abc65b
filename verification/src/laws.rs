//! Laws of the execution engine, proved against the mathematical
//! interpreter: exact arithmetic results, fault behaviour, the stack
//! round trip, branch redirection, budget exhaustion, and immediate halt.

use vstd::prelude::*;

use crate::engine::{run_from, run_program, step, RunOutcome, StepOutcome};
use crate::isa::{Fault, Instruction, Opcode};
use crate::machine::{regs3_ok, MachineView};
use crate::values;

verus! {

/// An instruction with the given opcode and three register operands.
pub open spec fn reg3_instr(op: Opcode, r1: usize, r2: usize, r3: usize) -> Instruction {
    Instruction { opcode: op, reg1: r1, reg2: r2, reg3: r3, addr: 0, immediate: 0 }
}

/// A load-immediate instruction: register `r` becomes `v`.
pub open spec fn li_instr(r: usize, v: i32) -> Instruction {
    Instruction { opcode: Opcode::LoadImmediate, reg1: r, reg2: 0, reg3: 0, addr: 0, immediate: v }
}

/// An instruction with the given opcode and one register operand.
pub open spec fn reg1_instr(op: Opcode, r: usize) -> Instruction {
    Instruction { opcode: op, reg1: r, reg2: 0, reg3: 0, addr: 0, immediate: 0 }
}

/// A control-flow instruction with one tested register and a target.
pub open spec fn jump_instr(op: Opcode, r: usize, a: usize) -> Instruction {
    Instruction { opcode: op, reg1: r, reg2: 0, reg3: 0, addr: a, immediate: 0 }
}

/// Loading `a` and `b` into two distinct registers and then executing
/// ADD, SUB or MUL on them leaves exactly the mathematical sum,
/// difference or product in the destination register, whenever that
/// result fits in a signed 32-bit register.
pub proof fn lemma_li_then_arith(
    s: MachineView,
    r1: usize,
    r2: usize,
    r3: usize,
    a: i32,
    b: i32,
    op: Opcode,
    budget: nat,
)
    requires
        s.wf(),
        r1 < s.regs.len(),
        r2 < s.regs.len(),
        r3 < s.regs.len(),
        r1 != r2,
        budget >= 4,
        op == Opcode::Add || op == Opcode::Sub || op == Opcode::Mul,
    ensures
        ({
            let prog = seq![li_instr(r1, a), li_instr(r2, b), reg3_instr(op, r1, r2, r3)];
            let expected: int = if op == Opcode::Add {
                a + b
            } else if op == Opcode::Sub {
                a - b
            } else {
                a * b
            };
            i32::MIN <= expected <= i32::MAX ==> (run_program(s, prog, budget) matches
                RunOutcome::Halted(t) && t.regs[r3 as int] == expected)
        }),
{
    let prog = seq![li_instr(r1, a), li_instr(r2, b), reg3_instr(op, r1, r2, r3)];
    let s1 = s.with_reg(r1, a);
    let s2 = s1.with_reg(r2, b);
    assert(step(s, prog[0]) == StepOutcome::Next(s1));
    assert(step(s1, prog[1]) == StepOutcome::Next(s2));
    assert(s2.regs[r1 as int] == a);
    assert(s2.regs[r2 as int] == b);
    let v = if op == Opcode::Add {
        values::add_value(a, b)
    } else if op == Opcode::Sub {
        values::sub_value(a, b)
    } else {
        values::mul_value(a, b)
    };
    let s3 = s2.with_reg(r3, v);
    assert(step(s2, prog[2]) == StepOutcome::Next(s3));
    assert(run_program(s, prog, budget) == run_from(s1, prog, 1, 1, budget));
    assert(run_from(s1, prog, 1, 1, budget) == run_from(s2, prog, 2, 2, budget));
    assert(run_from(s2, prog, 2, 2, budget) == run_from(s3, prog, 3, 3, budget));
    assert(run_from(s3, prog, 3, 3, budget) == RunOutcome::Halted(s3));
    if op == Opcode::Mul && i32::MIN <= a * b <= i32::MAX {
        values::lemma_mul_value_in_range(a, b);
    }
}

/// DIV or MOD with a zero-valued divisor register faults with
/// DivisionByZero and performs no mutation: the run ends in the very
/// state the machine held when the faulting instruction was fetched.
pub proof fn lemma_div_zero_faults(
    s: MachineView,
    prog: Seq<Instruction>,
    ip: nat,
    count: nat,
    budget: nat,
)
    requires
        s.wf(),
        ip < prog.len(),
        count < budget,
        prog[ip as int].opcode == Opcode::Div || prog[ip as int].opcode == Opcode::Mod,
        regs3_ok(s, prog[ip as int].reg1, prog[ip as int].reg2, prog[ip as int].reg3),
        s.regs[prog[ip as int].reg2 as int] == 0,
    ensures
        run_from(s, prog, ip, count, budget) == RunOutcome::Faulted(
            Fault::DivisionByZero { reg: prog[ip as int].reg2 },
            s,
        ),
{
    assert(step(s, prog[ip as int]) == StepOutcome::Fail(
        Fault::DivisionByZero { reg: prog[ip as int].reg2 },
    ));
}

/// PUSH then POP on the same register round-trips the register bank
/// unchanged and restores the stack pointer to its pre-push value.
pub proof fn lemma_push_pop_round_trip(s: MachineView, r: usize, budget: nat)
    requires
        s.wf(),
        r < s.regs.len(),
        s.sp >= 1,
        budget >= 3,
    ensures
        ({
            let prog = seq![reg1_instr(Opcode::Push, r), reg1_instr(Opcode::Pop, r)];
            run_program(s, prog, budget) matches RunOutcome::Halted(t) && t.regs == s.regs
                && t.sp == s.sp
        }),
{
    let prog = seq![reg1_instr(Opcode::Push, r), reg1_instr(Opcode::Pop, r)];
    let s1 = s.pushed(r);
    let s2 = s1.popped(r);
    assert(step(s, prog[0]) == StepOutcome::Next(s1));
    assert(step(s1, prog[1]) == StepOutcome::Next(s2));
    assert(run_program(s, prog, budget) == run_from(s1, prog, 1, 1, budget));
    assert(run_from(s1, prog, 1, 1, budget) == run_from(s2, prog, 2, 2, budget));
    assert(run_from(s2, prog, 2, 2, budget) == RunOutcome::Halted(s2));
    assert(s1.mem[s.sp as int] == s.regs[r as int]);
    assert(s2.regs =~= s.regs);
    assert(s2.sp == s.sp);
}

/// Consecutive PUSH instructions outnumbering the free stack slots drive
/// the stack pointer to the bottom of memory — each successful push
/// writing the pushed register's value — and then fault with
/// StackOverflow, the registers untouched.
proof fn lemma_push_run_overflows(
    s: MachineView,
    prog: Seq<Instruction>,
    ip: nat,
    count: nat,
    budget: nat,
    r: usize,
)
    requires
        s.wf(),
        r < s.regs.len(),
        forall|j: int| ip <= j < prog.len() ==> prog[j] == reg1_instr(Opcode::Push, r),
        s.sp < prog.len() - ip,
        count + s.sp < budget,
    ensures
        run_from(s, prog, ip, count, budget) matches RunOutcome::Faulted(f, t) && f == (
        Fault::StackOverflow { reg: r }) && t.regs == s.regs && t.sp == 0 && t.mem.len()
            == s.mem.len() && (forall|j: int|
            0 <= j < s.mem.len() ==> t.mem[j] == (if 1 <= j <= s.sp {
                s.regs[r as int]
            } else {
                s.mem[j]
            })),
    decreases s.sp,
{
    if s.sp == 0 {
        assert(step(s, prog[ip as int]) == StepOutcome::Fail(Fault::StackOverflow { reg: r }));
    } else {
        let s1 = s.pushed(r);
        assert(step(s, prog[ip as int]) == StepOutcome::Next(s1));
        lemma_push_run_overflows(s1, prog, ip + 1, count + 1, budget, r);
    }
}

/// A program of exactly `memory_size` consecutive PUSH instructions on a
/// machine with an empty stack succeeds exactly `memory_size - 1` times —
/// filling every memory cell above the bottom with the pushed register's
/// value — and the final PUSH faults with StackOverflow once the stack
/// pointer has reached the bottom.
pub proof fn lemma_push_program_overflows(s: MachineView, r: usize, budget: nat)
    requires
        s.wf(),
        r < s.regs.len(),
        s.sp == s.mem.len() - 1,
        budget >= s.mem.len(),
    ensures
        ({
            let prog = Seq::new(s.mem.len(), |j: int| reg1_instr(Opcode::Push, r));
            run_program(s, prog, budget) matches RunOutcome::Faulted(f, t) && f == (
            Fault::StackOverflow { reg: r }) && t.regs == s.regs && t.sp == 0 && t.mem.len()
                == s.mem.len() && (forall|j: int|
                1 <= j < s.mem.len() ==> t.mem[j] == s.regs[r as int])
        }),
{
    let prog = Seq::new(s.mem.len(), |j: int| reg1_instr(Opcode::Push, r));
    lemma_push_run_overflows(s, prog, 0, 0, budget, r);
}

/// JZ (or BZ) to target `a`: when the tested register is zero, the next
/// fetched instruction is `prog[a]`; when it is nonzero, execution falls
/// through to `prog[ip + 1]`. The machine state is unchanged either way,
/// and one unit of budget is consumed.
pub proof fn lemma_jz_redirects(
    s: MachineView,
    prog: Seq<Instruction>,
    ip: nat,
    count: nat,
    budget: nat,
)
    requires
        s.wf(),
        ip < prog.len(),
        count < budget,
        prog[ip as int].opcode == Opcode::Jz || prog[ip as int].opcode == Opcode::Bz,
        prog[ip as int].reg1 < s.regs.len(),
    ensures
        s.regs[prog[ip as int].reg1 as int] == 0 ==> run_from(s, prog, ip, count, budget)
            == run_from(s, prog, prog[ip as int].addr as nat, count + 1, budget),
        s.regs[prog[ip as int].reg1 as int] != 0 ==> run_from(s, prog, ip, count, budget)
            == run_from(s, prog, ip + 1, count + 1, budget),
{
    if s.regs[prog[ip as int].reg1 as int] == 0 {
        assert(step(s, prog[ip as int]) == StepOutcome::Jump(prog[ip as int].addr));
    } else {
        assert(step(s, prog[ip as int]) == StepOutcome::Next(s));
    }
}

/// JE and JNE receive the same redirect-and-skip treatment as the other
/// jumps: a taken two-register branch suppresses the default pointer
/// increment and continues at its target, an untaken one falls through,
/// and the state is unchanged either way.
pub proof fn lemma_je_jne_redirect(
    s: MachineView,
    prog: Seq<Instruction>,
    ip: nat,
    count: nat,
    budget: nat,
)
    requires
        s.wf(),
        ip < prog.len(),
        count < budget,
        prog[ip as int].opcode == Opcode::Je || prog[ip as int].opcode == Opcode::Jne,
        prog[ip as int].reg1 < s.regs.len(),
        prog[ip as int].reg2 < s.regs.len(),
    ensures
        ({
            let i = prog[ip as int];
            let taken = (s.regs[i.reg1 as int] == s.regs[i.reg2 as int]) == (i.opcode
                == Opcode::Je);
            if taken {
                run_from(s, prog, ip, count, budget) == run_from(
                    s,
                    prog,
                    i.addr as nat,
                    count + 1,
                    budget,
                )
            } else {
                run_from(s, prog, ip, count, budget) == run_from(s, prog, ip + 1, count + 1, budget)
            }
        }),
{
    let i = prog[ip as int];
    if (s.regs[i.reg1 as int] == s.regs[i.reg2 as int]) == (i.opcode == Opcode::Je) {
        assert(step(s, i) == StepOutcome::Jump(i.addr));
    } else {
        assert(step(s, i) == StepOutcome::Next(s));
    }
}

/// Exhausting the budget with a self-jump: from any executed count not
/// above the budget, the jump consumes the rest of the budget one unit
/// per step and the run faults with BudgetExceeded, the state untouched.
proof fn lemma_jmp_self_from(s: MachineView, count: nat, budget: nat)
    requires
        s.wf(),
        count <= budget,
    ensures
        run_from(s, seq![jump_instr(Opcode::Jmp, 0, 0)], 0, count, budget) == RunOutcome::Faulted(
            Fault::BudgetExceeded,
            s,
        ),
    decreases budget - count,
{
    let prog = seq![jump_instr(Opcode::Jmp, 0, 0)];
    if count < budget {
        assert(step(s, prog[0]) == StepOutcome::Jump(0));
        lemma_jmp_self_from(s, count + 1, budget);
    }
}

/// A program whose only instruction is an unconditional jump to itself
/// never completes: with budget `n` it executes exactly `n` jumps, one
/// unit of budget each, then faults with BudgetExceeded, the machine
/// state untouched.
pub proof fn lemma_jmp_self_exhausts_budget(s: MachineView, budget: nat)
    requires
        s.wf(),
    ensures
        run_program(s, seq![jump_instr(Opcode::Jmp, 0, 0)], budget) == RunOutcome::Faulted(
            Fault::BudgetExceeded,
            s,
        ),
{
    lemma_jmp_self_from(s, 0, budget);
}

/// HALT as the first instruction terminates the run before any state
/// change: the machine keeps exactly the state it started the program
/// with — on a fresh machine, all registers and the whole stack at their
/// initial zero-filled values.
pub proof fn lemma_halt_first_preserves_state(s: MachineView, prog: Seq<Instruction>, budget: nat)
    requires
        s.wf(),
        budget >= 1,
        prog.len() >= 1,
        prog[0].opcode == Opcode::Halt,
    ensures
        run_program(s, prog, budget) == RunOutcome::Halted(s),
{
    assert(step(s, prog[0]) == StepOutcome::Stop);
}

} // verus!
