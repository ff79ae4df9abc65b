//! The state store: the register bank, linear memory, the downward-growing
//! stack kept in the top of memory, and the bounds-checked operations the
//! instruction set is built from.

use vstd::prelude::*;

use crate::isa::Fault;
use crate::values;

verus! {

/// The mathematical model of the machine state: the register values in
/// index order, the memory cells in address order, and the stack pointer.
pub struct MachineView {
    pub regs: Seq<i32>,
    pub mem: Seq<i32>,
    pub sp: nat,
}

impl MachineView {
    /// Well-formedness: memory is nonempty and the stack pointer is a
    /// valid memory index. Both sequence lengths are fixed at
    /// construction; every operation preserves them.
    pub open spec fn wf(self) -> bool {
        self.mem.len() >= 1 && self.sp < self.mem.len()
    }

    /// Whether `r` is a valid register index.
    pub open spec fn reg_ok(self, r: usize) -> bool {
        r < self.regs.len()
    }

    /// The state with register `r` set to `v`.
    pub open spec fn with_reg(self, r: usize, v: i32) -> MachineView
        recommends
            self.reg_ok(r),
    {
        MachineView { regs: self.regs.update(r as int, v), mem: self.mem, sp: self.sp }
    }

    /// The state with memory cell `a` set to `v`.
    pub open spec fn with_mem(self, a: usize, v: i32) -> MachineView
        recommends
            a < self.mem.len(),
    {
        MachineView { regs: self.regs, mem: self.mem.update(a as int, v), sp: self.sp }
    }

    /// The state after pushing register `r`: its value is written at the
    /// stack pointer, which then moves down by one.
    pub open spec fn pushed(self, r: usize) -> MachineView
        recommends
            self.wf(),
            self.reg_ok(r),
            self.sp >= 1,
    {
        MachineView {
            regs: self.regs,
            mem: self.mem.update(self.sp as int, self.regs[r as int]),
            sp: (self.sp - 1) as nat,
        }
    }

    /// The state after popping into register `r`: the stack pointer moves
    /// up by one and the cell it then rests on is read.
    pub open spec fn popped(self, r: usize) -> MachineView
        recommends
            self.reg_ok(r),
            self.sp + 1 < self.mem.len(),
    {
        MachineView {
            regs: self.regs.update(r as int, self.mem[self.sp + 1int]),
            mem: self.mem,
            sp: self.sp + 1,
        }
    }

    /// The live stack: the memory cells strictly above the stack pointer,
    /// in increasing address order, so the most recently pushed value
    /// comes first.
    pub open spec fn stack(self) -> Seq<i32>
        recommends
            self.wf(),
    {
        self.mem.subrange(self.sp + 1int, self.mem.len() as int)
    }
}

/// Whether one register index is in bounds.
pub open spec fn regs1_ok(s: MachineView, r1: usize) -> bool {
    s.reg_ok(r1)
}

/// Whether two register indices are in bounds.
pub open spec fn regs2_ok(s: MachineView, r1: usize, r2: usize) -> bool {
    s.reg_ok(r1) && s.reg_ok(r2)
}

/// Whether three register indices are in bounds.
pub open spec fn regs3_ok(s: MachineView, r1: usize, r2: usize, r3: usize) -> bool {
    s.reg_ok(r1) && s.reg_ok(r2) && s.reg_ok(r3)
}

/// The fault raised for two register operands, checked in order.
pub open spec fn reg_fault2(s: MachineView, r1: usize, r2: usize) -> Fault
    recommends
        !regs2_ok(s, r1, r2),
{
    if !s.reg_ok(r1) {
        Fault::OutOfBounds { index: r1 }
    } else {
        Fault::OutOfBounds { index: r2 }
    }
}

/// The fault raised for three register operands, checked in order.
pub open spec fn reg_fault3(s: MachineView, r1: usize, r2: usize, r3: usize) -> Fault
    recommends
        !regs3_ok(s, r1, r2, r3),
{
    if !s.reg_ok(r1) {
        Fault::OutOfBounds { index: r1 }
    } else if !s.reg_ok(r2) {
        Fault::OutOfBounds { index: r2 }
    } else {
        Fault::OutOfBounds { index: r3 }
    }
}

/// The machine state: a fixed-length register bank, fixed-length linear
/// memory, and the stack pointer into that memory. Both lengths are set
/// once at construction and never change.
pub struct ProcessingUnit {
    registers: Vec<i32>,
    memory: Vec<i32>,
    stack_pointer: usize,
}

/// A final-state snapshot: the full register sequence in index order and
/// the live stack, most recently pushed value first.
#[derive(Debug, Clone)]
pub struct ProcessingUnitState {
    pub registers: Vec<i32>,
    pub stack: Vec<i32>,
}

impl View for ProcessingUnit {
    type V = MachineView;

    closed spec fn view(&self) -> MachineView {
        MachineView { regs: self.registers@, mem: self.memory@, sp: self.stack_pointer as nat }
    }
}

impl ProcessingUnit {
    /// Well-formedness of the machine state; established by `initialize`
    /// and preserved by every operation.
    pub open spec fn wf(&self) -> bool {
        self@.wf()
    }

    /// A fresh machine: `num_registers` zeroed registers, `memory_size`
    /// zeroed memory cells, and the stack pointer at the highest address
    /// (the empty-stack position).
    pub fn initialize(num_registers: usize, memory_size: usize) -> (pu: ProcessingUnit)
        requires
            memory_size >= 1,
        ensures
            pu.wf(),
            pu@.regs == crate::zero_values(num_registers as nat),
            pu@.mem == crate::zero_values(memory_size as nat),
            pu@.sp == memory_size - 1,
            pu@.stack() == Seq::<i32>::empty(),
    {
        let mut registers: Vec<i32> = Vec::new();
        while registers.len() < num_registers
            invariant
                registers@.len() <= num_registers,
                registers@ =~= crate::zero_values(registers@.len()),
            decreases num_registers - registers@.len(),
        {
            registers.push(0);
        }
        let mut memory: Vec<i32> = Vec::new();
        while memory.len() < memory_size
            invariant
                memory@.len() <= memory_size,
                memory@ =~= crate::zero_values(memory@.len()),
            decreases memory_size - memory@.len(),
        {
            memory.push(0);
        }
        let pu = ProcessingUnit { registers, memory, stack_pointer: memory_size - 1 };
        proof {
            assert(pu@.regs =~= crate::zero_values(num_registers as nat));
            assert(pu@.mem =~= crate::zero_values(memory_size as nat));
            assert(pu@.stack() =~= Seq::<i32>::empty());
        }
        pu
    }

    /// Bounds-checked register read.
    pub fn read(&self, reg: usize) -> (r: Result<i32, Fault>)
        ensures
            (match r {
                Ok(v) => self@.reg_ok(reg) && v == self@.regs[reg as int],
                Err(f) => !self@.reg_ok(reg) && f == (Fault::OutOfBounds { index: reg }),
            }),
    {
        if reg < self.registers.len() {
            Ok(self.registers[reg])
        } else {
            Err(Fault::OutOfBounds { index: reg })
        }
    }

    /// Bounds-checked register write.
    pub fn write(&mut self, reg: usize, value: i32) -> (r: Result<(), Fault>)
        ensures
            (match r {
                Ok(()) => old(self)@.reg_ok(reg) && final(self)@ == old(self)@.with_reg(reg, value),
                Err(f) => !old(self)@.reg_ok(reg) && f == (Fault::OutOfBounds { index: reg })
                    && final(self)@ == old(self)@,
            }),
    {
        if reg < self.registers.len() {
            self.registers[reg] = value;
            Ok(())
        } else {
            Err(Fault::OutOfBounds { index: reg })
        }
    }

    /// Bounds-checked memory read into a register; the register bound is
    /// checked before the address.
    pub fn load(&mut self, addr: usize, reg: usize) -> (r: Result<(), Fault>)
        ensures
            (match r {
                Ok(()) => old(self)@.reg_ok(reg) && addr < old(self)@.mem.len()
                    && final(self)@ == old(self)@.with_reg(reg, old(self)@.mem[addr as int]),
                Err(f) => final(self)@ == old(self)@ && (if !old(self)@.reg_ok(reg) {
                    f == (Fault::OutOfBounds { index: reg })
                } else {
                    addr >= old(self)@.mem.len() && f == (Fault::OutOfBounds { index: addr })
                }),
            }),
    {
        if reg >= self.registers.len() {
            return Err(Fault::OutOfBounds { index: reg });
        }
        if addr < self.memory.len() {
            self.registers[reg] = self.memory[addr];
            Ok(())
        } else {
            Err(Fault::OutOfBounds { index: addr })
        }
    }

    /// Bounds-checked memory write from a register; the register bound is
    /// checked before the address.
    pub fn store(&mut self, reg: usize, addr: usize) -> (r: Result<(), Fault>)
        ensures
            (match r {
                Ok(()) => old(self)@.reg_ok(reg) && addr < old(self)@.mem.len()
                    && final(self)@ == old(self)@.with_mem(addr, old(self)@.regs[reg as int]),
                Err(f) => final(self)@ == old(self)@ && (if !old(self)@.reg_ok(reg) {
                    f == (Fault::OutOfBounds { index: reg })
                } else {
                    addr >= old(self)@.mem.len() && f == (Fault::OutOfBounds { index: addr })
                }),
            }),
    {
        if reg >= self.registers.len() {
            return Err(Fault::OutOfBounds { index: reg });
        }
        if addr < self.memory.len() {
            self.memory[addr] = self.registers[reg];
            Ok(())
        } else {
            Err(Fault::OutOfBounds { index: addr })
        }
    }

    /// Push register `reg` onto the stack: the value is written at the
    /// stack pointer, which then moves down. Pushing with the pointer
    /// already at the lowest address is a stack overflow; nothing is
    /// written then.
    pub fn push(&mut self, reg: usize) -> (r: Result<(), Fault>)
        requires
            old(self).wf(),
        ensures
            final(self).wf(),
            (match r {
                Ok(()) => old(self)@.reg_ok(reg) && old(self)@.sp >= 1 && final(self)@ == old(
                    self,
                )@.pushed(reg),
                Err(f) => final(self)@ == old(self)@ && (if !old(self)@.reg_ok(reg) {
                    f == (Fault::OutOfBounds { index: reg })
                } else {
                    old(self)@.sp == 0 && f == (Fault::StackOverflow { reg })
                }),
            }),
    {
        if reg >= self.registers.len() {
            return Err(Fault::OutOfBounds { index: reg });
        }
        if self.stack_pointer > 0 {
            let v = self.registers[reg];
            self.memory[self.stack_pointer] = v;
            self.stack_pointer = self.stack_pointer - 1;
            Ok(())
        } else {
            Err(Fault::StackOverflow { reg })
        }
    }

    /// Pop the top of the stack into register `reg`: the stack pointer
    /// moves up and the cell it then rests on is read. Popping with the
    /// pointer already at the empty-stack position is a stack underflow.
    pub fn pop(&mut self, reg: usize) -> (r: Result<(), Fault>)
        requires
            old(self).wf(),
        ensures
            final(self).wf(),
            (match r {
                Ok(()) => old(self)@.reg_ok(reg) && old(self)@.sp + 1 < old(self)@.mem.len()
                    && final(self)@ == old(self)@.popped(reg),
                Err(f) => final(self)@ == old(self)@ && (if !old(self)@.reg_ok(reg) {
                    f == (Fault::OutOfBounds { index: reg })
                } else {
                    old(self)@.sp + 1 == old(self)@.mem.len() && f == (Fault::StackUnderflow {
                        reg,
                    })
                }),
            }),
    {
        if reg >= self.registers.len() {
            return Err(Fault::OutOfBounds { index: reg });
        }
        if self.stack_pointer < self.memory.len() - 1 {
            self.stack_pointer = self.stack_pointer + 1;
            self.registers[reg] = self.memory[self.stack_pointer];
            Ok(())
        } else {
            Err(Fault::StackUnderflow { reg })
        }
    }

    /// `reg3` becomes the wrapped sum of `reg1` and `reg2`.
    pub fn add(&mut self, reg1: usize, reg2: usize, reg3: usize) -> (r: Result<(), Fault>)
        ensures
            (match r {
                Ok(()) => regs3_ok(old(self)@, reg1, reg2, reg3) && final(self)@ == old(
                    self,
                )@.with_reg(
                    reg3,
                    values::add_value(
                        old(self)@.regs[reg1 as int],
                        old(self)@.regs[reg2 as int],
                    ),
                ),
                Err(f) => !regs3_ok(old(self)@, reg1, reg2, reg3) && f == reg_fault3(
                    old(self)@,
                    reg1,
                    reg2,
                    reg3,
                ) && final(self)@ == old(self)@,
            }),
    {
        match self.check3(reg1, reg2, reg3) {
            Ok(()) => {
                let v = self.registers[reg1].wrapping_add(self.registers[reg2]);
                self.registers[reg3] = v;
                Ok(())
            },
            Err(f) => Err(f),
        }
    }

    /// `reg3` becomes the wrapped difference of `reg1` and `reg2`.
    pub fn subtract(&mut self, reg1: usize, reg2: usize, reg3: usize) -> (r: Result<(), Fault>)
        ensures
            (match r {
                Ok(()) => regs3_ok(old(self)@, reg1, reg2, reg3) && final(self)@ == old(
                    self,
                )@.with_reg(
                    reg3,
                    values::sub_value(
                        old(self)@.regs[reg1 as int],
                        old(self)@.regs[reg2 as int],
                    ),
                ),
                Err(f) => !regs3_ok(old(self)@, reg1, reg2, reg3) && f == reg_fault3(
                    old(self)@,
                    reg1,
                    reg2,
                    reg3,
                ) && final(self)@ == old(self)@,
            }),
    {
        match self.check3(reg1, reg2, reg3) {
            Ok(()) => {
                let v = self.registers[reg1].wrapping_sub(self.registers[reg2]);
                self.registers[reg3] = v;
                Ok(())
            },
            Err(f) => Err(f),
        }
    }

    /// `reg3` becomes the wrapped product of `reg1` and `reg2`.
    pub fn multiply(&mut self, reg1: usize, reg2: usize, reg3: usize) -> (r: Result<(), Fault>)
        ensures
            (match r {
                Ok(()) => regs3_ok(old(self)@, reg1, reg2, reg3) && final(self)@ == old(
                    self,
                )@.with_reg(
                    reg3,
                    values::mul_value(
                        old(self)@.regs[reg1 as int],
                        old(self)@.regs[reg2 as int],
                    ),
                ),
                Err(f) => !regs3_ok(old(self)@, reg1, reg2, reg3) && f == reg_fault3(
                    old(self)@,
                    reg1,
                    reg2,
                    reg3,
                ) && final(self)@ == old(self)@,
            }),
    {
        match self.check3(reg1, reg2, reg3) {
            Ok(()) => {
                let v = self.registers[reg1].wrapping_mul(self.registers[reg2]);
                self.registers[reg3] = v;
                Ok(())
            },
            Err(f) => Err(f),
        }
    }

    /// `reg3` becomes the truncated quotient of `reg1` by `reg2`; a zero
    /// divisor register is a fault and mutates nothing.
    pub fn divide(&mut self, reg1: usize, reg2: usize, reg3: usize) -> (r: Result<(), Fault>)
        ensures
            (match r {
                Ok(()) => regs3_ok(old(self)@, reg1, reg2, reg3)
                    && old(self)@.regs[reg2 as int] != 0 && final(self)@ == old(self)@.with_reg(
                    reg3,
                    values::div_value(
                        old(self)@.regs[reg1 as int],
                        old(self)@.regs[reg2 as int],
                    ),
                ),
                Err(f) => final(self)@ == old(self)@ && (if !regs3_ok(
                    old(self)@,
                    reg1,
                    reg2,
                    reg3,
                ) {
                    f == reg_fault3(old(self)@, reg1, reg2, reg3)
                } else {
                    old(self)@.regs[reg2 as int] == 0 && f == (Fault::DivisionByZero { reg: reg2 })
                }),
            }),
    {
        match self.check3(reg1, reg2, reg3) {
            Ok(()) => {
                let b = self.registers[reg2];
                if b == 0 {
                    return Err(Fault::DivisionByZero { reg: reg2 });
                }
                let a = self.registers[reg1];
                let v = match a.checked_div(b) {
                    Some(q) => q,
                    None => i32::MIN,
                };
                proof {
                    values::lemma_trunc_div_range(a, b);
                }
                self.registers[reg3] = v;
                Ok(())
            },
            Err(f) => Err(f),
        }
    }

    /// `reg3` becomes the truncated remainder of `reg1` by `reg2`; a zero
    /// divisor register is a fault and mutates nothing.
    pub fn mod_op(&mut self, reg1: usize, reg2: usize, reg3: usize) -> (r: Result<(), Fault>)
        ensures
            (match r {
                Ok(()) => regs3_ok(old(self)@, reg1, reg2, reg3)
                    && old(self)@.regs[reg2 as int] != 0 && final(self)@ == old(self)@.with_reg(
                    reg3,
                    values::rem_value(
                        old(self)@.regs[reg1 as int],
                        old(self)@.regs[reg2 as int],
                    ),
                ),
                Err(f) => final(self)@ == old(self)@ && (if !regs3_ok(
                    old(self)@,
                    reg1,
                    reg2,
                    reg3,
                ) {
                    f == reg_fault3(old(self)@, reg1, reg2, reg3)
                } else {
                    old(self)@.regs[reg2 as int] == 0 && f == (Fault::DivisionByZero { reg: reg2 })
                }),
            }),
    {
        match self.check3(reg1, reg2, reg3) {
            Ok(()) => {
                let b = self.registers[reg2];
                if b == 0 {
                    return Err(Fault::DivisionByZero { reg: reg2 });
                }
                let a = self.registers[reg1];
                let v = match a.checked_rem(b) {
                    Some(q) => q,
                    None => 0,
                };
                proof {
                    values::lemma_trunc_rem_range(a, b);
                }
                self.registers[reg3] = v;
                Ok(())
            },
            Err(f) => Err(f),
        }
    }

    /// `reg2` becomes the wrapped negation of `reg1`.
    pub fn neg(&mut self, reg1: usize, reg2: usize) -> (r: Result<(), Fault>)
        ensures
            (match r {
                Ok(()) => regs2_ok(old(self)@, reg1, reg2) && final(self)@ == old(self)@.with_reg(
                    reg2,
                    values::neg_value(old(self)@.regs[reg1 as int]),
                ),
                Err(f) => !regs2_ok(old(self)@, reg1, reg2) && f == reg_fault2(
                    old(self)@,
                    reg1,
                    reg2,
                ) && final(self)@ == old(self)@,
            }),
    {
        match self.check2(reg1, reg2) {
            Ok(()) => {
                let a = self.registers[reg1];
                let v = if a == i32::MIN {
                    i32::MIN
                } else {
                    -a
                };
                self.registers[reg2] = v;
                Ok(())
            },
            Err(f) => Err(f),
        }
    }

    /// `reg2` becomes the wrapped absolute value of `reg1`.
    pub fn absolute(&mut self, reg1: usize, reg2: usize) -> (r: Result<(), Fault>)
        ensures
            (match r {
                Ok(()) => regs2_ok(old(self)@, reg1, reg2) && final(self)@ == old(self)@.with_reg(
                    reg2,
                    values::abs_value(old(self)@.regs[reg1 as int]),
                ),
                Err(f) => !regs2_ok(old(self)@, reg1, reg2) && f == reg_fault2(
                    old(self)@,
                    reg1,
                    reg2,
                ) && final(self)@ == old(self)@,
            }),
    {
        match self.check2(reg1, reg2) {
            Ok(()) => {
                let a = self.registers[reg1];
                let v = if a == i32::MIN {
                    i32::MIN
                } else if a < 0 {
                    -a
                } else {
                    a
                };
                self.registers[reg2] = v;
                Ok(())
            },
            Err(f) => Err(f),
        }
    }

    /// `reg1` becomes a copy of `reg2`: the first operand is the
    /// destination, the second the source.
    pub fn mov(&mut self, reg1: usize, reg2: usize) -> (r: Result<(), Fault>)
        ensures
            (match r {
                Ok(()) => regs2_ok(old(self)@, reg1, reg2) && final(self)@ == old(self)@.with_reg(
                    reg1,
                    old(self)@.regs[reg2 as int],
                ),
                Err(f) => !regs2_ok(old(self)@, reg1, reg2) && f == reg_fault2(
                    old(self)@,
                    reg1,
                    reg2,
                ) && final(self)@ == old(self)@,
            }),
    {
        match self.check2(reg1, reg2) {
            Ok(()) => {
                let v = self.registers[reg2];
                self.registers[reg1] = v;
                Ok(())
            },
            Err(f) => Err(f),
        }
    }

    /// A snapshot of the current state: a copy of the registers and of
    /// the live stack.
    pub fn snapshot(&self) -> (st: ProcessingUnitState)
        requires
            self.wf(),
        ensures
            st.registers@ == self@.regs,
            st.stack@ == self@.stack(),
    {
        let mut registers: Vec<i32> = Vec::new();
        let mut i: usize = 0;
        while i < self.registers.len()
            invariant
                i <= self.registers@.len(),
                registers@ =~= self.registers@.subrange(0, i as int),
            decreases self.registers@.len() - i,
        {
            registers.push(self.registers[i]);
            i = i + 1;
        }
        let mut stack: Vec<i32> = Vec::new();
        proof {
            assert(self.stack_pointer < self.memory.len());
        }
        let mut j: usize = self.stack_pointer + 1;
        while j < self.memory.len()
            invariant
                self.wf(),
                self@.sp + 1 <= j <= self.memory@.len(),
                stack@ =~= self.memory@.subrange(self@.sp + 1int, j as int),
            decreases self.memory@.len() - j,
        {
            stack.push(self.memory[j]);
            j = j + 1;
        }
        proof {
            assert(registers@ =~= self@.regs);
            assert(stack@ =~= self@.stack());
        }
        ProcessingUnitState { registers, stack }
    }

    /// Checks two register operands in order, returning the first fault.
    fn check2(&self, reg1: usize, reg2: usize) -> (r: Result<(), Fault>)
        ensures
            (match r {
                Ok(()) => regs2_ok(self@, reg1, reg2),
                Err(f) => !regs2_ok(self@, reg1, reg2) && f == reg_fault2(self@, reg1, reg2),
            }),
    {
        if reg1 >= self.registers.len() {
            Err(Fault::OutOfBounds { index: reg1 })
        } else if reg2 >= self.registers.len() {
            Err(Fault::OutOfBounds { index: reg2 })
        } else {
            Ok(())
        }
    }

    /// Checks three register operands in order, returning the first fault.
    fn check3(&self, reg1: usize, reg2: usize, reg3: usize) -> (r: Result<(), Fault>)
        ensures
            (match r {
                Ok(()) => regs3_ok(self@, reg1, reg2, reg3),
                Err(f) => !regs3_ok(self@, reg1, reg2, reg3) && f == reg_fault3(
                    self@,
                    reg1,
                    reg2,
                    reg3,
                ),
            }),
    {
        if reg1 >= self.registers.len() {
            Err(Fault::OutOfBounds { index: reg1 })
        } else if reg2 >= self.registers.len() {
            Err(Fault::OutOfBounds { index: reg2 })
        } else if reg3 >= self.registers.len() {
            Err(Fault::OutOfBounds { index: reg3 })
        } else {
            Ok(())
        }
    }
}

} // verus!
