//! The instruction set: opcodes, the decoded-instruction record, and the
//! fault taxonomy of the execution engine.

use vstd::prelude::*;

verus! {

/// The tag identifying which state-transition rule an instruction executes.
#[derive(Debug, Copy, Clone, PartialEq, Eq, Structural)]
pub enum Opcode {
    Nop,
    Add,
    Sub,
    Mul,
    Div,
    Store,
    Load,
    LoadImmediate,
    Push,
    Pop,
    Jmp,
    Jz,
    Jnz,
    Mov,
    Je,
    Jne,
    And,
    Or,
    Xor,
    Not,
    Shl,
    Shr,
    Cmp,
    Test,
    B,
    Bz,
    Bnz,
    Neg,
    Abs,
    Mod,
    Inc,
    Dec,
    Halt,
}

/// A decoded instruction: an opcode plus five operand slots. Not every
/// opcode uses every slot; the unused slots are ignored by its semantics.
#[derive(Debug, Copy, Clone, PartialEq, Eq, Structural)]
pub struct Instruction {
    pub opcode: Opcode,
    /// First register operand (also the only one for single-register opcodes).
    pub reg1: usize,
    /// Second register operand.
    pub reg2: usize,
    /// Third register operand (the destination of three-register opcodes).
    pub reg3: usize,
    /// Memory address operand, or the jump target of control-flow opcodes.
    pub addr: usize,
    /// Signed literal operand of the load-immediate opcode.
    pub immediate: i32,
}

/// The five engine-fatal conditions. Each one terminates the run
/// immediately; no further instruction executes after it is detected.
#[derive(Debug, Copy, Clone, PartialEq, Eq, Structural)]
pub enum Fault {
    /// A register index or memory address at or above the capacity.
    OutOfBounds { index: usize },
    /// DIV or MOD with a zero-valued divisor register.
    DivisionByZero { reg: usize },
    /// A push with no remaining stack capacity.
    StackOverflow { reg: usize },
    /// A pop from an empty stack.
    StackUnderflow { reg: usize },
    /// The executed-instruction counter reached the budget.
    BudgetExceeded,
}

} // verus!
