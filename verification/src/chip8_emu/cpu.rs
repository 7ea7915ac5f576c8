//! The processor: sixteen registers, 4 KiB of memory and a call stack.

use vstd::prelude::*;

verus! {

/// The state of the processor as plain values.
pub struct Machine {
    /// The sixteen registers, `V0` to `VF`.
    pub registers: Seq<u8>,
    /// The memory, 4096 bytes.
    pub memory: Seq<u8>,
    /// The address of the next instruction.
    pub pc: nat,
    /// The return addresses of the calls that are open.
    pub stack: Seq<u16>,
    /// The number of calls that are open.
    pub sp: nat,
}

/// What one instruction leads to.
pub enum Outcome {
    /// The program has ended; this is the final state.
    Halted(Machine),
    /// The instruction cannot be carried out.
    Faulted,
    /// The program goes on from this state.
    Running(Machine),
}

/// The register that the second digit of an instruction names.
pub open spec fn op_x(opcode: u16) -> u8 {
    ((opcode & 0x0F00) >> 8) as u8
}

/// The register that the third digit of an instruction names.
pub open spec fn op_y(opcode: u16) -> u8 {
    ((opcode & 0x00F0) >> 4) as u8
}

/// The address in the last three digits of an instruction.
pub open spec fn op_addr(opcode: u16) -> u16 {
    opcode & 0x0FFF
}

/// The value in the last two digits of an instruction.
pub open spec fn op_kk(opcode: u16) -> u8 {
    (opcode & 0x00FF) as u8
}

/// The last digit of an instruction.
pub open spec fn op_minor(opcode: u16) -> u8 {
    (opcode & 0x000F) as u8
}

impl Machine {
    /// The same machine with `pc` as the address of the next instruction.
    pub open spec fn at(self, pc: nat) -> Machine {
        Machine { pc, ..self }
    }

    /// The same machine with `value` in register `x`.
    pub open spec fn with_register(self, x: u8, value: u8) -> Machine {
        Machine { registers: self.registers.update(x as int, value), ..self }
    }

    /// The same machine, two bytes further on where `skip` holds.
    pub open spec fn skipping(self, skip: bool) -> Machine {
        if skip {
            self.at(self.pc + 2)
        } else {
            self
        }
    }

    /// The instruction at the address `pc`: two bytes, the high one first.
    pub open spec fn opcode(self) -> u16 {
        (self.memory[self.pc as int] as u16) << 8 | (self.memory[self.pc as int + 1] as u16)
    }

    /// `1nnn`: the program goes on at `addr`.
    pub open spec fn jmp(self, addr: u16) -> Machine {
        self.at(addr as nat)
    }

    /// `2nnn`: the address of the next instruction goes on the stack and the
    /// program goes on at `addr`. A stack that holds sixteen addresses takes
    /// no more.
    pub open spec fn call(self, addr: u16) -> Outcome {
        if self.sp >= 16 {
            Outcome::Faulted
        } else {
            Outcome::Running(
                Machine {
                    stack: self.stack.update(self.sp as int, self.pc as u16),
                    sp: self.sp + 1,
                    pc: addr as nat,
                    ..self
                },
            )
        }
    }

    /// `00EE`: the program goes on at the address on top of the stack, which
    /// is taken off. An empty stack has none, and a stack pointer beyond the
    /// stack points at none.
    pub open spec fn ret(self) -> Outcome {
        if self.sp == 0 || self.sp > 16 {
            Outcome::Faulted
        } else {
            Outcome::Running(
                Machine {
                    sp: (self.sp - 1) as nat,
                    pc: self.stack[self.sp - 1] as nat,
                    ..self
                },
            )
        }
    }

    /// `3xkk`: the next instruction is skipped where `Vx` holds `kk`.
    pub open spec fn se(self, x: u8, kk: u8) -> Machine {
        self.skipping(self.registers[x as int] == kk)
    }

    /// `5xy0`: the next instruction is skipped where `Vx` and `Vy` differ.
    pub open spec fn se_xy(self, x: u8, y: u8) -> Machine {
        self.skipping(self.registers[x as int] != self.registers[y as int])
    }

    /// `4xkk`: the next instruction is skipped where `Vx` does not hold `kk`.
    pub open spec fn sne(self, x: u8, kk: u8) -> Machine {
        self.skipping(self.registers[x as int] != kk)
    }

    /// `9xy0`: the next instruction is skipped where `Vx` and `Vy` differ.
    pub open spec fn sne_xy(self, x: u8, y: u8) -> Machine {
        self.skipping(self.registers[x as int] != self.registers[y as int])
    }

    /// `6xkk`: `Vx` takes the value `kk`.
    pub open spec fn ld(self, x: u8, kk: u8) -> Machine {
        self.with_register(x, kk)
    }

    /// `8xy0`: `Vx` takes the value of `Vy`.
    pub open spec fn ld_xy(self, x: u8, y: u8) -> Machine {
        self.with_register(x, self.registers[y as int])
    }

    /// `7xkk`: `kk` is added to `Vx`. A sum beyond 255 cannot be held.
    pub open spec fn add(self, x: u8, kk: u8) -> Outcome {
        if self.registers[x as int] + kk > 255 {
            Outcome::Faulted
        } else {
            Outcome::Running(self.with_register(x, (self.registers[x as int] + kk) as u8))
        }
    }

    /// `8xy4`: `Vy` is added to `Vx`, which keeps the low eight bits of the
    /// sum. After that, `VF` is set to one where the sum went beyond 255 and
    /// to zero where it did not.
    pub open spec fn add_xy(self, x: u8, y: u8) -> Machine {
        let sum = self.registers[x as int] + self.registers[y as int];
        self.with_register(x, (sum % 256) as u8).with_register(
            0xF,
            if sum > 255 {
                1u8
            } else {
                0u8
            },
        )
    }

    /// `8xy2`: `Vx` takes the bits that `Vx` and `Vy` share.
    pub open spec fn and_xy(self, x: u8, y: u8) -> Machine {
        self.with_register(x, self.registers[x as int] & self.registers[y as int])
    }

    /// `8xy1`: `Vx` takes the bits that `Vx` or `Vy` holds.
    pub open spec fn or_xy(self, x: u8, y: u8) -> Machine {
        self.with_register(x, self.registers[x as int] | self.registers[y as int])
    }

    /// `8xy3`: `Vx` takes the bits that one of `Vx` and `Vy` holds, not both.
    pub open spec fn xor_xy(self, x: u8, y: u8) -> Machine {
        self.with_register(x, self.registers[x as int] ^ self.registers[y as int])
    }

    /// What the instruction `opcode` leads to, once the address of the next
    /// instruction has moved past it. `0000` ends the program and `00E0`
    /// does nothing. An instruction that is not listed cannot be carried
    /// out.
    pub open spec fn execute(self, opcode: u16) -> Outcome {
        let x = op_x(opcode);
        let y = op_y(opcode);
        let addr = op_addr(opcode);
        let kk = op_kk(opcode);
        if opcode == 0x0000 {
            Outcome::Halted(self)
        } else if opcode == 0x00E0 {
            Outcome::Running(self)
        } else if opcode == 0x00EE {
            self.ret()
        } else if 0x1000 <= opcode <= 0x1FFF {
            Outcome::Running(self.jmp(addr))
        } else if 0x2000 <= opcode <= 0x2FFF {
            self.call(addr)
        } else if 0x3000 <= opcode <= 0x3FFF {
            Outcome::Running(self.se(x, kk))
        } else if 0x4000 <= opcode <= 0x4FFF {
            Outcome::Running(self.sne(x, kk))
        } else if 0x5000 <= opcode <= 0x5FFF {
            Outcome::Running(self.se_xy(x, y))
        } else if 0x6000 <= opcode <= 0x6FFF {
            Outcome::Running(self.ld(x, kk))
        } else if 0x7000 <= opcode <= 0x7FFF {
            self.add(x, kk)
        } else if 0x8000 <= opcode <= 0x8FFF {
            let minor = op_minor(opcode);
            if minor == 0 {
                Outcome::Running(self.ld_xy(x, y))
            } else if minor == 1 {
                Outcome::Running(self.or_xy(x, y))
            } else if minor == 2 {
                Outcome::Running(self.and_xy(x, y))
            } else if minor == 3 {
                Outcome::Running(self.xor_xy(x, y))
            } else if minor == 4 {
                Outcome::Running(self.add_xy(x, y))
            } else {
                Outcome::Faulted
            }
        } else if 0x9000 <= opcode <= 0x9FFF {
            Outcome::Running(self.sne_xy(x, y))
        } else {
            Outcome::Faulted
        }
    }

    /// One step of the machine: the instruction at `pc` is read and carried
    /// out. An instruction that does not lie within the memory cannot be
    /// read.
    pub open spec fn step(self) -> Outcome {
        if self.pc + 1 >= 0x1000 {
            Outcome::Faulted
        } else {
            self.at(self.pc + 2).execute(self.opcode())
        }
    }

    /// The final state of a program that ends after exactly `steps`
    /// instructions, the closing `0000` not counted; `None` where it does
    /// not.
    pub open spec fn runs(self, steps: nat) -> Option<Machine>
        decreases steps,
    {
        match self.step() {
            Outcome::Halted(last) => if steps == 0 {
                Some(last)
            } else {
                None
            },
            Outcome::Faulted => None,
            Outcome::Running(next) => if steps == 0 {
                None
            } else {
                next.runs((steps - 1) as nat)
            },
        }
    }

    /// Whether the program ends, and without an instruction that cannot be
    /// carried out.
    pub open spec fn halts(self) -> bool {
        exists|steps: nat| (#[trigger] self.runs(steps)) is Some
    }

    /// A program ends after one number of steps at most, so it has one final
    /// state at most.
    pub proof fn lemma_runs_once(self, a: nat, b: nat)
        requires
            self.runs(a) is Some,
            self.runs(b) is Some,
        ensures
            a == b,
        decreases a,
    {
        match self.step() {
            Outcome::Running(next) => {
                next.lemma_runs_once((a - 1) as nat, (b - 1) as nat);
            },
            _ => {},
        }
    }
}


/// A CHIP-8 processor.
#[derive(Debug)]
#[allow(clippy::upper_case_acronyms)]
pub struct CPU {
    /// The sixteen registers, `V0` to `VF`.
    pub registers: [u8; 16],
    /// The memory, which holds the program.
    pub memory: [u8; 0x1000],
    /// The address of the next instruction.
    pub position_in_memory: usize,
    /// The return addresses of the calls that are open.
    pub stack: [u16; 16],
    /// The number of calls that are open.
    pub stack_pointer: usize,
}

impl View for CPU {
    type V = Machine;

    open spec fn view(&self) -> Machine {
        Machine {
            registers: self.registers@,
            memory: self.memory@,
            pc: self.position_in_memory as nat,
            stack: self.stack@,
            sp: self.stack_pointer as nat,
        }
    }
}

impl Default for CPU {
    fn default() -> (cpu: Self)
        ensures
            cpu@ == CPU::blank(),
    {
        Self::new()
    }
}

impl CPU {
    /// The machine with zero in every register, memory cell and stack slot,
    /// ready to start at address zero.
    pub open spec fn blank() -> Machine {
        Machine {
            registers: Seq::new(16, |i: int| 0u8),
            memory: Seq::new(0x1000, |i: int| 0u8),
            pc: 0,
            stack: Seq::new(16, |i: int| 0u16),
            sp: 0,
        }
    }

    /// A processor with everything set to zero.
    pub fn new() -> (cpu: Self)
        ensures
            cpu@ == CPU::blank(),
    {
        let cpu = Self {
            registers: [0;16],
            memory: [0;0x1000],
            position_in_memory: 0,
            stack: [0;16],
            stack_pointer: 0,
        };
        assert(cpu@.registers =~= CPU::blank().registers);
        assert(cpu@.memory =~= CPU::blank().memory);
        assert(cpu@.stack =~= CPU::blank().stack);
        cpu
    }

    /// Runs the program in memory from the current address until it ends.
    pub fn run(&mut self)
        requires
            old(self)@.halts(),
        ensures
            exists|steps: nat| old(self)@.runs(steps) == Some(final(self)@),
    {
        let ghost mut left: nat = choose|steps: nat| (#[trigger] old(self)@.runs(steps)) is Some;
        let ghost mut done: nat = 0;
        loop
            invariant
                self@.runs(left) is Some,
                old(self)@.runs(done + left) == self@.runs(left),
            decreases left,
        {
            let opcode = self.read_opcode();
            self.position_in_memory += 2;

            assert(((opcode & 0x0F00) >> 8) < 16) by (bit_vector);
            assert(((opcode & 0x00F0) >> 4) < 16) by (bit_vector);
            assert(opcode & 0x0FFF < 0x1000) by (bit_vector);
            assert(opcode & 0x00FF < 0x100) by (bit_vector);
            assert(opcode & 0x000F < 0x10) by (bit_vector);
            let vx = ((opcode & 0x0F00) >> 8) as u8;
            let vy = ((opcode & 0x00F0) >> 4) as u8;
            let addr = opcode & 0x0FFF;
            let kk = (opcode & 0x00FF) as u8;
            let op_minor = (opcode & 0x000F) as u8;

            if opcode == 0x0000 {
                proof {
                    done = done + left;
                }
                return ;
            } else if opcode == 0x00E0 {
            } else if opcode == 0x00EE {
                self.ret();
            } else if 0x1000 <= opcode && opcode <= 0x1FFF {
                self.jmp(addr);
            } else if 0x2000 <= opcode && opcode <= 0x2FFF {
                self.call(addr);
            } else if 0x3000 <= opcode && opcode <= 0x3FFF {
                self.se(vx, kk);
            } else if 0x4000 <= opcode && opcode <= 0x4FFF {
                self.sne(vx, kk);
            } else if 0x5000 <= opcode && opcode <= 0x5FFF {
                self.se_xy(vx, vy);
            } else if 0x6000 <= opcode && opcode <= 0x6FFF {
                self.ld(vx, kk);
            } else if 0x7000 <= opcode && opcode <= 0x7FFF {
                self.add(vx, kk);
            } else if 0x8000 <= opcode && opcode <= 0x8FFF {
                if op_minor == 0x00 {
                    self.ld_xy(vx, vy);
                } else if op_minor == 0x01 {
                    self.or_xy(vx, vy);
                } else if op_minor == 0x02 {
                    self.and_xy(vx, vy);
                } else if op_minor == 0x03 {
                    self.xor_xy(vx, vy);
                } else {
                    self.add_xy(vx, vy);
                }
            } else {
                self.sne_xy(vx, vy);
            }
            proof {
                left = (left - 1) as nat;
                done = done + 1;
            }
        }
    }

    /// Reads the instruction at the current address.
    fn read_opcode(&self) -> (opcode: u16)
        requires
            self.position_in_memory + 1 < 0x1000,
        ensures
            opcode == self@.opcode(),
    {
        let p = self.position_in_memory;
        let op_byte1 = self.memory[p] as u16;
        let op_byte2 = self.memory[p + 1] as u16;
        op_byte1 << 8 | op_byte2
    }

    /// Goes on at `addr`.
    fn jmp(&mut self, addr: u16)
        ensures
            final(self)@ == old(self)@.jmp(addr),
    {
        self.position_in_memory = addr as usize;
    }

    /// Calls the subroutine at `addr`.
    fn call(&mut self, addr: u16)
        requires
            old(self).stack_pointer < 16,
            old(self).position_in_memory <= u16::MAX,
        ensures
            old(self)@.call(addr) == Outcome::Running(final(self)@),
    {
        let sp = self.stack_pointer;
        self.stack[sp] = self.position_in_memory as u16;
        self.stack_pointer = sp + 1;
        self.position_in_memory = addr as usize;
    }

    /// Returns from a subroutine.
    fn ret(&mut self)
        requires
            0 < old(self).stack_pointer <= 16,
        ensures
            old(self)@.ret() == Outcome::Running(final(self)@),
    {
        self.stack_pointer = self.stack_pointer - 1;
        let call_addr = self.stack[self.stack_pointer];
        self.position_in_memory = call_addr as usize;
    }

    /// Skips the next instruction where `Vx` holds `kk`.
    fn se(&mut self, vx: u8, kk: u8)
        requires
            vx < 16,
            old(self).position_in_memory <= 0x1000,
        ensures
            final(self)@ == old(self)@.se(vx, kk),
    {
        if self.registers[vx as usize] == kk {
            self.position_in_memory += 2;
        }
    }

    /// Skips the next instruction where `Vx` and `Vy` differ.
    fn se_xy(&mut self, vx: u8, vy: u8)
        requires
            vx < 16,
            vy < 16,
            old(self).position_in_memory <= 0x1000,
        ensures
            final(self)@ == old(self)@.se_xy(vx, vy),
    {
        if self.registers[vx as usize] != self.registers[vy as usize] {
            self.position_in_memory += 2;
        }
    }

    /// Skips the next instruction where `Vx` does not hold `kk`.
    fn sne(&mut self, vx: u8, kk: u8)
        requires
            vx < 16,
            old(self).position_in_memory <= 0x1000,
        ensures
            final(self)@ == old(self)@.sne(vx, kk),
    {
        if self.registers[vx as usize] != kk {
            self.position_in_memory += 2;
        }
    }

    /// Skips the next instruction where `Vx` and `Vy` differ.
    fn sne_xy(&mut self, vx: u8, vy: u8)
        requires
            vx < 16,
            vy < 16,
            old(self).position_in_memory <= 0x1000,
        ensures
            final(self)@ == old(self)@.sne_xy(vx, vy),
    {
        if self.registers[vx as usize] != self.registers[vy as usize] {
            self.position_in_memory += 2;
        }
    }

    /// Puts `kk` into `Vx`.
    fn ld(&mut self, vx: u8, kk: u8)
        requires
            vx < 16,
        ensures
            final(self)@ == old(self)@.ld(vx, kk),
    {
        self.registers[vx as usize] = kk;
    }

    /// Puts the value of `Vy` into `Vx`.
    fn ld_xy(&mut self, vx: u8, vy: u8)
        requires
            vx < 16,
            vy < 16,
        ensures
            final(self)@ == old(self)@.ld_xy(vx, vy),
    {
        self.registers[vx as usize] = self.registers[vy as usize];
    }

    /// Adds `kk` to `Vx`.
    fn add(&mut self, vx: u8, kk: u8)
        requires
            vx < 16,
            old(self).registers[vx as int] + kk <= 255,
        ensures
            old(self)@.add(vx, kk) == Outcome::Running(final(self)@),
    {
        self.registers[vx as usize] += kk;
    }

    /// Adds `Vy` to `Vx` and leaves the carry in `VF`.
    fn add_xy(&mut self, vx: u8, vy: u8)
        requires
            vx < 16,
            vy < 16,
        ensures
            final(self)@ == old(self)@.add_xy(vx, vy),
    {
        let arg1 = self.registers[vx as usize];
        let arg2 = self.registers[vy as usize];
        let sum: u16 = arg1 as u16 + arg2 as u16;
        let overflow = sum > 255;
        self.registers[vx as usize] = (sum % 256) as u8;

        self.registers[0xF] = if overflow {
            1
        } else {
            0
        };
    }

    /// Keeps in `Vx` the bits that `Vx` and `Vy` share.
    fn and_xy(&mut self, vx: u8, vy: u8)
        requires
            vx < 16,
            vy < 16,
        ensures
            final(self)@ == old(self)@.and_xy(vx, vy),
    {
        let x_ = self.registers[vx as usize];
        let y_ = self.registers[vy as usize];

        self.registers[vx as usize] = x_ & y_;
    }

    /// Puts into `Vx` the bits that `Vx` or `Vy` holds.
    fn or_xy(&mut self, vx: u8, vy: u8)
        requires
            vx < 16,
            vy < 16,
        ensures
            final(self)@ == old(self)@.or_xy(vx, vy),
    {
        let x_ = self.registers[vx as usize];
        let y_ = self.registers[vy as usize];

        self.registers[vx as usize] = x_ | y_;
    }

    /// Puts into `Vx` the bits that one of `Vx` and `Vy` holds, not both.
    fn xor_xy(&mut self, vx: u8, vy: u8)
        requires
            vx < 16,
            vy < 16,
        ensures
            final(self)@ == old(self)@.xor_xy(vx, vy),
    {
        let x_ = self.registers[vx as usize];
        let y_ = self.registers[vy as usize];

        self.registers[vx as usize] = x_ ^ y_;
    }
}

} // verus!
