use mdpu::engine::run;
use mdpu::isa::{Fault, Instruction, Opcode};
use mdpu::machine::{ProcessingUnit, ProcessingUnitState};

fn instr(
    opcode: Opcode,
    reg1: usize,
    reg2: usize,
    reg3: usize,
    addr: usize,
    immediate: i32,
) -> Instruction {
    Instruction { opcode, reg1, reg2, reg3, addr, immediate }
}

fn li(r: usize, v: i32) -> Instruction {
    instr(Opcode::LoadImmediate, r, 0, 0, 0, v)
}

fn op3(o: Opcode, r1: usize, r2: usize, r3: usize) -> Instruction {
    instr(o, r1, r2, r3, 0, 0)
}

fn run_prog(
    nregs: usize,
    mem: usize,
    prog: Vec<Instruction>,
    mic: usize,
) -> Result<ProcessingUnitState, Fault> {
    let mut pu = ProcessingUnit::initialize(nregs, mem);
    run(&mut pu, &prog, mic)
}

fn binary_result(o: Opcode, a: i32, b: i32) -> i32 {
    let st = run_prog(3, 4, vec![li(0, a), li(1, b), op3(o, 0, 1, 2)], 100).unwrap();
    st.registers[2]
}

fn unary_result(o: Opcode, a: i32) -> i32 {
    let st = run_prog(2, 4, vec![li(0, a), instr(o, 0, 1, 0, 0, 0)], 100).unwrap();
    st.registers[1]
}

#[test]
fn add_sub_mul_exact() {
    assert_eq!(binary_result(Opcode::Add, 7, 5), 12);
    assert_eq!(binary_result(Opcode::Sub, 7, 5), 2);
    assert_eq!(binary_result(Opcode::Mul, 7, 5), 35);
    assert_eq!(binary_result(Opcode::Sub, 5, 7), -2);
}

#[test]
fn arithmetic_wraps() {
    assert_eq!(binary_result(Opcode::Add, i32::MAX, 1), i32::MIN);
    assert_eq!(binary_result(Opcode::Sub, i32::MIN, 1), i32::MAX);
    assert_eq!(binary_result(Opcode::Mul, 65536, 65536), 0);
    assert_eq!(binary_result(Opcode::Mul, 65536, 32768), i32::MIN);
}

#[test]
fn div_truncates_toward_zero() {
    assert_eq!(binary_result(Opcode::Div, 7, 2), 3);
    assert_eq!(binary_result(Opcode::Div, -7, 2), -3);
    assert_eq!(binary_result(Opcode::Div, 7, -2), -3);
    assert_eq!(binary_result(Opcode::Div, -7, -2), 3);
    assert_eq!(binary_result(Opcode::Div, i32::MIN, -1), i32::MIN);
}

#[test]
fn mod_sign_follows_dividend() {
    assert_eq!(binary_result(Opcode::Mod, 7, 3), 1);
    assert_eq!(binary_result(Opcode::Mod, -7, 3), -1);
    assert_eq!(binary_result(Opcode::Mod, 7, -3), 1);
    assert_eq!(binary_result(Opcode::Mod, -7, -3), -1);
    assert_eq!(binary_result(Opcode::Mod, i32::MIN, -1), 0);
}

#[test]
fn div_by_zero_faults() {
    let r = run_prog(3, 4, vec![li(0, 9), op3(Opcode::Div, 0, 1, 2)], 100);
    assert_eq!(r.unwrap_err(), Fault::DivisionByZero { reg: 1 });
}

#[test]
fn mod_by_zero_faults() {
    let r = run_prog(3, 4, vec![li(0, 9), op3(Opcode::Mod, 0, 1, 2)], 100);
    assert_eq!(r.unwrap_err(), Fault::DivisionByZero { reg: 1 });
}

#[test]
fn push_pop_round_trip() {
    let prog = vec![
        li(0, 42),
        instr(Opcode::Push, 0, 0, 0, 0, 0),
        li(0, 0),
        instr(Opcode::Pop, 0, 0, 0, 0, 0),
    ];
    let st = run_prog(1, 4, prog, 100).unwrap();
    assert_eq!(st.registers[0], 42);
    assert!(st.stack.is_empty());
}

#[test]
fn push_fills_then_overflows() {
    let mut prog = Vec::new();
    for _ in 0..4 {
        prog.push(instr(Opcode::Push, 0, 0, 0, 0, 0));
    }
    let r = run_prog(1, 4, prog, 100);
    assert_eq!(r.unwrap_err(), Fault::StackOverflow { reg: 0 });

    let mut prog = Vec::new();
    for _ in 0..3 {
        prog.push(instr(Opcode::Push, 0, 0, 0, 0, 0));
    }
    let st = run_prog(1, 4, prog, 100).unwrap();
    assert_eq!(st.stack.len(), 3);
}

#[test]
fn pop_on_empty_underflows() {
    let r = run_prog(1, 4, vec![instr(Opcode::Pop, 0, 0, 0, 0, 0)], 100);
    assert_eq!(r.unwrap_err(), Fault::StackUnderflow { reg: 0 });
}

#[test]
fn stack_snapshot_most_recent_first() {
    let prog = vec![
        li(0, 1),
        instr(Opcode::Push, 0, 0, 0, 0, 0),
        li(0, 2),
        instr(Opcode::Push, 0, 0, 0, 0, 0),
    ];
    let st = run_prog(1, 8, prog, 100).unwrap();
    assert_eq!(st.stack, vec![2, 1]);
}

#[test]
fn jz_taken_redirects() {
    // Register 0 starts at zero, so the branch lands on HALT and the LI
    // in between never runs.
    for o in [Opcode::Jz, Opcode::Bz] {
        let prog = vec![instr(o, 0, 0, 0, 2, 0), li(1, 7), instr(Opcode::Halt, 0, 0, 0, 0, 0)];
        let st = run_prog(2, 4, prog, 100).unwrap();
        assert_eq!(st.registers[1], 0);
    }
}

#[test]
fn jz_untaken_falls_through() {
    let prog = vec![
        li(0, 1),
        instr(Opcode::Jz, 0, 0, 0, 4, 0),
        li(1, 7),
        instr(Opcode::Halt, 0, 0, 0, 0, 0),
    ];
    let st = run_prog(2, 4, prog, 100).unwrap();
    assert_eq!(st.registers[1], 7);
}

#[test]
fn jnz_and_bnz_branch_on_nonzero() {
    for o in [Opcode::Jnz, Opcode::Bnz] {
        let prog = vec![
            li(0, 1),
            instr(o, 0, 0, 0, 3, 0),
            li(1, 7),
            instr(Opcode::Halt, 0, 0, 0, 0, 0),
        ];
        let st = run_prog(2, 4, prog, 100).unwrap();
        assert_eq!(st.registers[1], 0);
    }
}

#[test]
fn je_taken_suppresses_increment() {
    // Both registers start equal (zero): JE must redirect straight to the
    // HALT at its target, skipping the LI after it.
    let prog = vec![
        instr(Opcode::Je, 0, 1, 0, 2, 0),
        li(2, 9),
        instr(Opcode::Halt, 0, 0, 0, 0, 0),
    ];
    let st = run_prog(3, 4, prog, 100).unwrap();
    assert_eq!(st.registers[2], 0);
}

#[test]
fn jne_untaken_falls_through() {
    let prog = vec![
        instr(Opcode::Jne, 0, 1, 0, 3, 0),
        li(2, 9),
        instr(Opcode::Halt, 0, 0, 0, 0, 0),
    ];
    let st = run_prog(3, 4, prog, 100).unwrap();
    assert_eq!(st.registers[2], 9);
}

#[test]
fn jmp_to_self_exhausts_budget() {
    let prog = vec![instr(Opcode::Jmp, 0, 0, 0, 0, 0)];
    let r = run_prog(1, 4, prog, 5);
    assert_eq!(r.unwrap_err(), Fault::BudgetExceeded);
}

#[test]
fn jump_past_end_halts_normally() {
    let prog = vec![instr(Opcode::B, 0, 0, 0, 100, 0)];
    let st = run_prog(2, 4, prog, 10).unwrap();
    assert_eq!(st.registers, vec![0, 0]);
}

#[test]
fn halt_first_leaves_initial_state() {
    let prog = vec![instr(Opcode::Halt, 0, 0, 0, 0, 0), li(0, 9)];
    let st = run_prog(3, 4, prog, 100).unwrap();
    assert_eq!(st.registers, vec![0, 0, 0]);
    assert!(st.stack.is_empty());
}

#[test]
fn budget_checked_before_program_end() {
    let prog = vec![instr(Opcode::Nop, 0, 0, 0, 0, 0)];
    let r = run_prog(1, 4, prog.clone(), 1);
    assert_eq!(r.unwrap_err(), Fault::BudgetExceeded);
    assert!(run_prog(1, 4, prog, 2).is_ok());
}

#[test]
fn register_out_of_bounds_faults() {
    let r = run_prog(2, 4, vec![op3(Opcode::Add, 0, 5, 1)], 100);
    assert_eq!(r.unwrap_err(), Fault::OutOfBounds { index: 5 });
}

#[test]
fn memory_out_of_bounds_faults() {
    let r = run_prog(2, 4, vec![instr(Opcode::Store, 0, 0, 0, 100, 0)], 100);
    assert_eq!(r.unwrap_err(), Fault::OutOfBounds { index: 100 });
}

#[test]
fn bitwise_exact() {
    assert_eq!(binary_result(Opcode::And, 12, 10), 8);
    assert_eq!(binary_result(Opcode::Or, 12, 10), 14);
    assert_eq!(binary_result(Opcode::Xor, 12, 10), 6);
    assert_eq!(unary_result(Opcode::Not, 12), -13);
}

#[test]
fn shifts_mask_their_count() {
    assert_eq!(binary_result(Opcode::Shl, 1, 4), 16);
    assert_eq!(binary_result(Opcode::Shl, 1, 33), 2);
    assert_eq!(binary_result(Opcode::Shl, 1, -1), i32::MIN);
    assert_eq!(binary_result(Opcode::Shr, -8, 1), -4);
    assert_eq!(binary_result(Opcode::Shr, 16, 33), 8);
}

#[test]
fn cmp_and_test_write_result_registers() {
    assert_eq!(binary_result(Opcode::Cmp, 7, 5), 2);
    assert_eq!(binary_result(Opcode::Cmp, 5, 7), -2);
    assert_eq!(binary_result(Opcode::Test, 12, 10), 8);
}

#[test]
fn inc_dec_wrap() {
    let st = run_prog(1, 4, vec![li(0, i32::MAX), instr(Opcode::Inc, 0, 0, 0, 0, 0)], 100)
        .unwrap();
    assert_eq!(st.registers[0], i32::MIN);
    let st = run_prog(1, 4, vec![li(0, i32::MIN), instr(Opcode::Dec, 0, 0, 0, 0, 0)], 100)
        .unwrap();
    assert_eq!(st.registers[0], i32::MAX);
}

#[test]
fn neg_abs_exact_and_wrapping() {
    assert_eq!(unary_result(Opcode::Neg, 5), -5);
    assert_eq!(unary_result(Opcode::Neg, -5), 5);
    assert_eq!(unary_result(Opcode::Neg, i32::MIN), i32::MIN);
    assert_eq!(unary_result(Opcode::Abs, -5), 5);
    assert_eq!(unary_result(Opcode::Abs, 5), 5);
    assert_eq!(unary_result(Opcode::Abs, i32::MIN), i32::MIN);
}

#[test]
fn mov_copies_source_into_destination() {
    let prog = vec![li(0, 5), instr(Opcode::Mov, 1, 0, 0, 0, 0)];
    let st = run_prog(2, 4, prog, 100).unwrap();
    assert_eq!(st.registers[1], 5);
}

#[test]
fn load_store_round_trip() {
    let prog = vec![
        li(0, 7),
        instr(Opcode::Store, 0, 0, 0, 2, 0),
        instr(Opcode::Load, 1, 0, 0, 2, 0),
    ];
    let st = run_prog(2, 8, prog, 100).unwrap();
    assert_eq!(st.registers[1], 7);
}

#[test]
fn nop_changes_nothing() {
    let st = run_prog(2, 4, vec![instr(Opcode::Nop, 0, 0, 0, 0, 0)], 100).unwrap();
    assert_eq!(st.registers, vec![0, 0]);
    assert!(st.stack.is_empty());
}
