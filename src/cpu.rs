use vstd::prelude::*;
use crate::datatypes::{mask_spec, Address, Byte};
use crate::display::{blank, Display};
use crate::fault::Fault;
use crate::instruction::{decode, operands_in_range, Instruction};
use crate::keyboard::{Key, Keyboard};
use crate::ram::{initial_memory, with_program, word_at, Ram, FONT_START, MEMORY_SIZE, PROGRAM_OFFSET};
use crate::registers::{IndexRegister, ProgramCounter, RegisterFile};
use crate::semantics::{
    cycle_outcome, execute_spec, loaded_registers, sprite_rows, stored_registers,
    MachineView, Quirks, State,
};
use crate::stack::Stack;
use crate::timers::{tick_spec, Timers};

verus! {

broadcast use Address::lemma_view_in_range, Address::lemma_from_raw;

/// Relies on `rand::random`: a value drawn from the thread-local generator.
/// Nothing is known of which value comes back.
pub assume_specification<T>[ rand::random::<T> ]() -> (r: T)
    where
        rand::distributions::Standard: rand::distributions::Distribution<T>,
;

/// The machine: registers, memory, call stack, timers, framebuffer and keypad,
/// and the engine that runs instructions on them.
pub struct Cpu {
    registers: RegisterFile,
    i: IndexRegister,
    stack: Stack,
    pc: ProgramCounter,
    timers: Timers,
    display: Display,
    ram: Ram,
    keyboard: Keyboard,
    state: State,
    quirks: Quirks,
}

/// The machine as it is after construction.
pub open spec fn initial_machine() -> MachineView {
    MachineView {
        v: Seq::new(16, |k: int| 0u8),
        i: 0,
        pc: PROGRAM_OFFSET as nat,
        stack: Seq::empty(),
        delay: 0,
        sound: 0,
        mem: initial_memory(),
        screen: blank(),
        keys: Seq::new(16, |k: int| false),
        state: State::Running,
    }
}

/// Jumps, calls, returns and screen clearing.
spec fn is_control(instruction: Instruction) -> bool {
    match instruction {
        Instruction::SYS(..)
        | Instruction::CLS
        | Instruction::RET
        | Instruction::JP(..)
        | Instruction::CALL(..) => true,
        _ => false,
    }
}

/// Conditional skips and the offset jump.
spec fn is_skip(instruction: Instruction) -> bool {
    match instruction {
        Instruction::SE(..)
        | Instruction::SNE(..)
        | Instruction::SEV(..)
        | Instruction::SNEV(..)
        | Instruction::JPVX(..)
        | Instruction::SKP(..)
        | Instruction::SKNP(..) => true,
        _ => false,
    }
}

/// Register loads, byte addition, logic operations and random bytes.
spec fn is_alu(instruction: Instruction) -> bool {
    match instruction {
        Instruction::LD(..)
        | Instruction::ADD(..)
        | Instruction::LDV(..)
        | Instruction::OR(..)
        | Instruction::AND(..)
        | Instruction::XOR(..)
        | Instruction::RND(..) => true,
        _ => false,
    }
}

/// Arithmetic and shifts that report through the flag register.
spec fn is_carry(instruction: Instruction) -> bool {
    match instruction {
        Instruction::ADDV(..)
        | Instruction::SUB(..)
        | Instruction::SHR(..)
        | Instruction::SUBN(..)
        | Instruction::SHL(..) => true,
        _ => false,
    }
}

/// Index register loads, drawing, timers and key reads.
spec fn is_device(instruction: Instruction) -> bool {
    match instruction {
        Instruction::LDI(..)
        | Instruction::DRW(..)
        | Instruction::LDDT(..)
        | Instruction::LDK(..)
        | Instruction::LDDTV(..)
        | Instruction::LDST(..) => true,
        _ => false,
    }
}

/// Index register arithmetic and memory transfers.
spec fn is_memory(instruction: Instruction) -> bool {
    match instruction {
        Instruction::ADDI(..)
        | Instruction::LDF(..)
        | Instruction::LDB(..)
        | Instruction::LDIV(..)
        | Instruction::LDVI(..) => true,
        _ => false,
    }
}

impl Cpu {
    pub closed spec fn view(&self) -> MachineView {
        MachineView {
            v: self.registers@,
            i: self.i@,
            pc: self.pc@,
            stack: self.stack@,
            delay: self.timers.delay(),
            sound: self.timers.sound(),
            mem: self.ram@,
            screen: self.display@,
            keys: self.keyboard@,
            state: self.state,
        }
    }

    /// The quirks the machine was built with.
    pub closed spec fn config(&self) -> Quirks {
        self.quirks
    }

    /// The parts agree with one another: sizes, the display's edge policy,
    /// and a parked engine holds a key read of a valid register.
    pub closed spec fn wf(&self) -> bool {
        &&& self.display.wraps() == self.quirks.wrap_sprites
        &&& self.registers@.len() == 16
        &&& self.ram@.len() == MEMORY_SIZE
        &&& self.keyboard@.len() == 16
        &&& self.display@.len() == 2048
        &&& self.stack@.len() <= 16
        &&& self.i@ < 4096
        &&& self.pc@ < 4096
        &&& (self.state matches State::WaitingForKey(ins) ==> (ins matches Instruction::LDK(x)
            && x < 16))
    }

    /// A machine with the font loaded, all registers zero, the program
    /// counter at the program offset, and nothing on screen.
    pub fn new(quirks: Quirks) -> (r: Cpu)
        ensures
            r.wf(),
            r.config() == quirks,
            r@ == initial_machine(),
    {
        Cpu {
            registers: RegisterFile::new(),
            i: IndexRegister::new(),
            stack: Stack::new(),
            pc: ProgramCounter::new(),
            timers: Timers::new(),
            display: Display::with_wrap(quirks.wrap_sprites),
            ram: Ram::new(),
            keyboard: Keyboard::new(),
            state: State::Running,
            quirks,
        }
    }

    /// Reads the word at the program counter and moves past it.
    fn fetch(&mut self) -> (r: u16)
        requires
            old(self).wf(),
        ensures
            final(self).wf(),
            final(self).config() == old(self).config(),
            r == word_at(old(self)@.mem, old(self)@.pc as int),
            final(self)@ == (MachineView { pc: mask_spec(old(self)@.pc as int + 2) as nat, ..old(self)@ }),
    {
        let word = self.ram.read_word(&self.pc.value());
        self.pc.increment();
        word
    }

    /// `DRW Vx, Vy, n`: draws the `n` bytes at I as a sprite at `(Vx, Vy)`;
    /// the flag register reports a collision.
    fn draw(&mut self, x: usize, y: usize, n: u8)
        requires
            old(self).wf(),
            x < 16,
            y < 16,
            n < 16,
        ensures
            final(self).wf(),
            final(self).config() == old(self).config(),
            execute_spec(old(self)@, Instruction::DRW(x, y, crate::datatypes::Nibble(n)), old(self).config(), 0)
                == Ok::<MachineView, Fault>(final(self)@),
    {
        let vx = self.registers.get(x).as_usize();
        let vy = self.registers.get(y).as_usize();
        let base = self.i.value();
        let mut rows: Vec<u8> = Vec::new();
        let mut k: u8 = 0;
        while k < n
            invariant
                k <= n < 16,
                base@ == self.i@,
                rows@ == sprite_rows(self.ram@, self.i@, k as nat),
            decreases n - k,
        {
            let row = self.ram.read(base.add(k as u16));
            rows.push(row.0);
            k = k + 1;
            assert(rows@ =~= sprite_rows(self.ram@, self.i@, k as nat));
        }
        let collision = self.display.draw_sprite(vx, vy, rows.as_slice());
        if collision {
            self.registers.set_flag();
        } else {
            self.registers.clear_flag();
        }
    }

    /// `LD B, Vx`: stores the hundreds, tens and units of Vx at I, I+1, I+2.
    fn store_bcd(&mut self, x: usize)
        requires
            old(self).wf(),
            x < 16,
        ensures
            final(self).wf(),
            final(self).config() == old(self).config(),
            execute_spec(old(self)@, Instruction::LDB(x), old(self).config(), 0)
                == Ok::<MachineView, Fault>(final(self)@),
    {
        let value = self.registers.get(x).0;
        let base = self.i.value();
        self.ram.load(base, Byte(value / 100));
        self.ram.load(base.add(1), Byte((value / 10) % 10));
        self.ram.load(base.add(2), Byte(value % 10));
    }

    /// `LD [I], Vx`: stores V0..=Vx from I on, advancing I past them.
    fn store_registers(&mut self, x: usize)
        requires
            old(self).wf(),
            x < 16,
        ensures
            final(self).wf(),
            final(self).config() == old(self).config(),
            execute_spec(old(self)@, Instruction::LDIV(x), old(self).config(), 0)
                == Ok::<MachineView, Fault>(final(self)@),
    {
        let ghost s = self@;
        let mut k: usize = 0;
        assert(stored_registers(s.mem, s.v, s.i, -1) =~= s.mem);
        while k <= x
            invariant
                x < 16,
                k <= x + 1,
                self.wf(),
                self.config() == old(self).config(),
                self@ == (MachineView {
                    mem: stored_registers(s.mem, s.v, s.i, k - 1),
                    i: mask_spec(s.i + k) as nat,
                    ..s
                }),
            decreases x + 1 - k,
        {
            let value = self.registers.get(k);
            let at = self.i.value();
            self.ram.load(at, value);
            self.i.increment();
            proof {
                assert forall|a: int| 0 <= a < MEMORY_SIZE implies #[trigger] self.ram@[a]
                    == stored_registers(s.mem, s.v, s.i, k as int)[a] by {
                    if a == mask_spec(s.i + k) {
                        assert(mask_spec(a - s.i as int + 4096) == k);
                    } else {
                        assert(mask_spec(a - s.i as int + 4096) != k);
                    }
                }
                assert(self.ram@ =~= stored_registers(s.mem, s.v, s.i, k as int));
            }
            k = k + 1;
        }
    }

    /// `LD Vx, [I]`: loads V0..=Vx from I on, advancing I past them.
    fn load_registers(&mut self, x: usize)
        requires
            old(self).wf(),
            x < 16,
        ensures
            final(self).wf(),
            final(self).config() == old(self).config(),
            execute_spec(old(self)@, Instruction::LDVI(x), old(self).config(), 0)
                == Ok::<MachineView, Fault>(final(self)@),
    {
        let ghost s = self@;
        let mut k: usize = 0;
        assert(loaded_registers(s.mem, s.v, s.i, -1) =~= s.v);
        while k <= x
            invariant
                x < 16,
                k <= x + 1,
                self.wf(),
                self.config() == old(self).config(),
                self@ == (MachineView {
                    v: loaded_registers(s.mem, s.v, s.i, k - 1),
                    i: mask_spec(s.i + k) as nat,
                    ..s
                }),
            decreases x + 1 - k,
        {
            let at = self.i.value();
            let value = self.ram.read(at);
            self.registers.set(k, value);
            self.i.increment();
            assert(self.registers@ =~= loaded_registers(s.mem, s.v, s.i, k as int));
            k = k + 1;
        }
    }

    /// `LD Vx, K`: loads the lowest key that is down into Vx and runs on; with
    /// no key down, parks on this instruction.
    fn wait_for_key(&mut self, x: usize)
        requires
            old(self).wf(),
            x < 16,
        ensures
            final(self).wf(),
            final(self).config() == old(self).config(),
            execute_spec(old(self)@, Instruction::LDK(x), old(self).config(), 0)
                == Ok::<MachineView, Fault>(final(self)@),
    {
        match self.keyboard.first_pressed() {
            Some(key) => {
                self.registers.set(x, Byte(key));
                self.state = State::Running;
            },
            None => {
                self.state = State::WaitingForKey(Instruction::LDK(x));
            },
        }
    }

    /// Jumps, calls, returns and screen clearing.
    #[verifier::rlimit(50)]
    fn execute_control(&mut self, instruction: Instruction, random: u8) -> (r: Result<(), Fault>)
        requires
            old(self).wf(),
            operands_in_range(instruction),
            is_control(instruction),
        ensures
            final(self).wf(),
            final(self).config() == old(self).config(),
            match execute_spec(old(self)@, instruction, old(self).config(), random) {
                Ok(s) => r == Ok::<(), Fault>(()) && final(self)@ == s,
                Err(f) => r == Err::<(), Fault>(f),
            },
    {
        match instruction {
            Instruction::SYS(addr) => {
                self.pc.jump(addr);
            },
            Instruction::CLS => {
                self.display.clear();
            },
            Instruction::RET => {
                match self.stack.pop() {
                    Some(addr) => self.pc.jump(addr),
                    None => return Err(Fault::StackUnderflow),
                }
            },
            Instruction::JP(addr) => {
                self.pc.jump(addr);
            },
            Instruction::CALL(addr) => {
                let here = self.pc.value();
                match self.stack.push(here) {
                    Ok(()) => self.pc.jump(addr),
                    Err(fault) => return Err(fault),
                }
            },
            _ => {},
        }
        Ok(())
    }

    /// Conditional skips and the offset jump.
    #[verifier::rlimit(50)]
    fn execute_skip(&mut self, instruction: Instruction, random: u8) -> (r: Result<(), Fault>)
        requires
            old(self).wf(),
            operands_in_range(instruction),
            is_skip(instruction),
        ensures
            final(self).wf(),
            final(self).config() == old(self).config(),
            match execute_spec(old(self)@, instruction, old(self).config(), random) {
                Ok(s) => r == Ok::<(), Fault>(()) && final(self)@ == s,
                Err(f) => r == Err::<(), Fault>(f),
            },
    {
        match instruction {
            Instruction::SE(x, byte) => {
                if self.registers.get(x).0 == byte.0 {
                    self.pc.increment();
                }
            },
            Instruction::SNE(x, byte) => {
                if self.registers.get(x).0 != byte.0 {
                    self.pc.increment();
                }
            },
            Instruction::SEV(x, y) => {
                if self.registers.get(x).0 == self.registers.get(y).0 {
                    self.pc.increment();
                }
            },
            Instruction::SNEV(x, y) => {
                if self.registers.get(x).0 != self.registers.get(y).0 {
                    self.pc.increment();
                }
            },
            Instruction::JPVX(x, addr) => {
                let offset = if self.quirks.jump_uses_vx {
                    self.registers.get(x)
                } else {
                    self.registers.get(0)
                };
                self.pc.jump(addr.add(offset.0 as u16));
            },
            Instruction::SKP(x) => {
                if self.keyboard.is_pressed(self.registers.get(x).0) {
                    self.pc.increment();
                }
            },
            Instruction::SKNP(x) => {
                if !self.keyboard.is_pressed(self.registers.get(x).0) {
                    self.pc.increment();
                }
            },
            _ => {},
        }
        Ok(())
    }

    /// Register loads, byte addition, logic operations and random bytes.
    #[verifier::rlimit(50)]
    fn execute_alu(&mut self, instruction: Instruction, random: u8) -> (r: Result<(), Fault>)
        requires
            old(self).wf(),
            operands_in_range(instruction),
            is_alu(instruction),
        ensures
            final(self).wf(),
            final(self).config() == old(self).config(),
            match execute_spec(old(self)@, instruction, old(self).config(), random) {
                Ok(s) => r == Ok::<(), Fault>(()) && final(self)@ == s,
                Err(f) => r == Err::<(), Fault>(f),
            },
    {
        match instruction {
            Instruction::LD(x, byte) => {
                self.registers.set(x, byte);
            },
            Instruction::ADD(x, byte) => {
                match self.registers.get(x).add(byte) {
                    Ok(value) => self.registers.set(x, value),
                    Err(value) => self.registers.set(x, value),
                }
            },
            Instruction::LDV(x, y) => {
                let value = self.registers.get(y);
                self.registers.set(x, value);
            },
            Instruction::OR(x, y) => {
                let value = self.registers.get(x).0 | self.registers.get(y).0;
                self.registers.set(x, Byte(value));
                if self.quirks.logic_clears_flag {
                    self.registers.clear_flag();
                }
            },
            Instruction::AND(x, y) => {
                let value = self.registers.get(x).0 & self.registers.get(y).0;
                self.registers.set(x, Byte(value));
                if self.quirks.logic_clears_flag {
                    self.registers.clear_flag();
                }
            },
            Instruction::XOR(x, y) => {
                let value = self.registers.get(x).0 ^ self.registers.get(y).0;
                self.registers.set(x, Byte(value));
                if self.quirks.logic_clears_flag {
                    self.registers.clear_flag();
                }
            },
            Instruction::RND(x, byte) => {
                self.registers.set(x, Byte(random & byte.0));
            },
            _ => {},
        }
        Ok(())
    }

    /// Arithmetic and shifts that report through the flag register.
    #[verifier::rlimit(50)]
    fn execute_carry(&mut self, instruction: Instruction, random: u8) -> (r: Result<(), Fault>)
        requires
            old(self).wf(),
            operands_in_range(instruction),
            is_carry(instruction),
        ensures
            final(self).wf(),
            final(self).config() == old(self).config(),
            match execute_spec(old(self)@, instruction, old(self).config(), random) {
                Ok(s) => r == Ok::<(), Fault>(()) && final(self)@ == s,
                Err(f) => r == Err::<(), Fault>(f),
            },
    {
        match instruction {
            Instruction::ADDV(x, y) => {
                match self.registers.get(x).add(self.registers.get(y)) {
                    Ok(value) => {
                        self.registers.set(x, value);
                        self.registers.clear_flag();
                    },
                    Err(value) => {
                        self.registers.set(x, value);
                        self.registers.set_flag();
                    },
                }
            },
            Instruction::SUB(x, y) => {
                match self.registers.get(x).sub(self.registers.get(y)) {
                    Ok(value) => {
                        self.registers.set(x, value);
                        self.registers.set_flag();
                    },
                    Err(value) => {
                        self.registers.set(x, value);
                        self.registers.clear_flag();
                    },
                }
            },
            Instruction::SHR(x, y) => {
                let source = if self.quirks.shift_reads_vy {
                    self.registers.get(y).0
                } else {
                    self.registers.get(x).0
                };
                assert(source >> 1u8 == source / 2 && source & 1u8 == source % 2) by (bit_vector);
                self.registers.set(x, Byte(source >> 1));
                if source & 1 == 1 {
                    self.registers.set_flag();
                } else {
                    self.registers.clear_flag();
                }
            },
            Instruction::SUBN(x, y) => {
                match self.registers.get(y).sub(self.registers.get(x)) {
                    Ok(value) => {
                        self.registers.set(x, value);
                        self.registers.set_flag();
                    },
                    Err(value) => {
                        self.registers.set(x, value);
                        self.registers.clear_flag();
                    },
                }
            },
            Instruction::SHL(x, y) => {
                let source = if self.quirks.shift_reads_vy {
                    self.registers.get(y).0
                } else {
                    self.registers.get(x).0
                };
                assert(source << 1u8 == (source * 2) % 256 && source >> 7u8 == source / 128)
                    by (bit_vector);
                self.registers.set(x, Byte(source << 1));
                if source >> 7 == 1 {
                    self.registers.set_flag();
                } else {
                    self.registers.clear_flag();
                }
            },
            _ => {},
        }
        Ok(())
    }

    /// Index register loads, drawing, timers and key reads.
    #[verifier::rlimit(50)]
    fn execute_device(&mut self, instruction: Instruction, random: u8) -> (r: Result<(), Fault>)
        requires
            old(self).wf(),
            operands_in_range(instruction),
            is_device(instruction),
        ensures
            final(self).wf(),
            final(self).config() == old(self).config(),
            match execute_spec(old(self)@, instruction, old(self).config(), random) {
                Ok(s) => r == Ok::<(), Fault>(()) && final(self)@ == s,
                Err(f) => r == Err::<(), Fault>(f),
            },
    {
        match instruction {
            Instruction::LDI(addr) => {
                self.i.load(addr);
            },
            Instruction::DRW(x, y, nibble) => {
                self.draw(x, y, nibble.0);
            },
            Instruction::LDDT(x) => {
                let value = self.timers.get_delay_timer();
                self.registers.set(x, Byte(value));
            },
            Instruction::LDK(x) => {
                self.wait_for_key(x);
            },
            Instruction::LDDTV(x) => {
                let value = self.registers.get(x).0;
                self.timers.set_delay_timer(value);
            },
            Instruction::LDST(x) => {
                let value = self.registers.get(x).0;
                self.timers.set_sound_timer(value);
            },
            _ => {},
        }
        Ok(())
    }

    /// Index register arithmetic and memory transfers.
    #[verifier::rlimit(50)]
    fn execute_memory(&mut self, instruction: Instruction, random: u8) -> (r: Result<(), Fault>)
        requires
            old(self).wf(),
            operands_in_range(instruction),
            is_memory(instruction),
        ensures
            final(self).wf(),
            final(self).config() == old(self).config(),
            match execute_spec(old(self)@, instruction, old(self).config(), random) {
                Ok(s) => r == Ok::<(), Fault>(()) && final(self)@ == s,
                Err(f) => r == Err::<(), Fault>(f),
            },
    {
        match instruction {
            Instruction::ADDI(x) => {
                let value = self.registers.get(x).0;
                let addr = self.i.value().add(value as u16);
                self.i.load(addr);
            },
            Instruction::LDF(x) => {
                let digit = self.registers.get(x).0 as u16;
                self.i.load(Address::new(FONT_START + digit * 5));
            },
            Instruction::LDB(x) => {
                self.store_bcd(x);
            },
            Instruction::LDIV(x) => {
                self.store_registers(x);
            },
            Instruction::LDVI(x) => {
                self.load_registers(x);
            },
            _ => {},
        }
        Ok(())
    }

    /// Executes one decoded instruction.
    fn execute(&mut self, instruction: Instruction, random: u8) -> (r: Result<(), Fault>)
        requires
            old(self).wf(),
            operands_in_range(instruction),
        ensures
            final(self).wf(),
            final(self).config() == old(self).config(),
            match execute_spec(old(self)@, instruction, old(self).config(), random) {
                Ok(s) => r == Ok::<(), Fault>(()) && final(self)@ == s,
                Err(f) => r == Err::<(), Fault>(f),
            },
    {
        match instruction {
            Instruction::SYS(..)
            | Instruction::CLS
            | Instruction::RET
            | Instruction::JP(..)
            | Instruction::CALL(..) => self.execute_control(instruction, random),
            Instruction::SE(..)
            | Instruction::SNE(..)
            | Instruction::SEV(..)
            | Instruction::SNEV(..)
            | Instruction::JPVX(..)
            | Instruction::SKP(..)
            | Instruction::SKNP(..) => self.execute_skip(instruction, random),
            Instruction::LD(..)
            | Instruction::ADD(..)
            | Instruction::LDV(..)
            | Instruction::OR(..)
            | Instruction::AND(..)
            | Instruction::XOR(..)
            | Instruction::RND(..) => self.execute_alu(instruction, random),
            Instruction::ADDV(..)
            | Instruction::SUB(..)
            | Instruction::SHR(..)
            | Instruction::SUBN(..)
            | Instruction::SHL(..) => self.execute_carry(instruction, random),
            Instruction::LDI(..)
            | Instruction::DRW(..)
            | Instruction::LDDT(..)
            | Instruction::LDK(..)
            | Instruction::LDDTV(..)
            | Instruction::LDST(..) => self.execute_device(instruction, random),
            Instruction::ADDI(..)
            | Instruction::LDF(..)
            | Instruction::LDB(..)
            | Instruction::LDIV(..)
            | Instruction::LDVI(..) => self.execute_memory(instruction, random),
            _ => Err(Fault::Unsupported(instruction)),
        }
    }

    /// One cycle with a given random byte (used only by RND): when running,
    /// fetch, decode and execute the next instruction; when parked on a key
    /// read, try it again.
    pub fn step(&mut self, random: u8) -> (r: Result<(), Fault>)
        requires
            old(self).wf(),
        ensures
            final(self).wf(),
            final(self).config() == old(self).config(),
            cycle_outcome(old(self)@, old(self).config(), random, final(self)@, r),
    {
        match self.state {
            State::Running => {
                let opcode = self.fetch();
                match decode(opcode) {
                    Ok(instruction) => self.execute(instruction, random),
                    Err(fault) => Err(fault),
                }
            },
            State::WaitingForKey(instruction) => self.execute(instruction, random),
        }
    }

    /// One cycle, drawing a fresh random byte for RND.
    pub fn cycle(&mut self) -> (r: Result<(), Fault>)
        requires
            old(self).wf(),
        ensures
            final(self).wf(),
            final(self).config() == old(self).config(),
            exists|random: u8| cycle_outcome(old(self)@, old(self).config(), random, final(self)@, r),
    {
        let random: u8 = rand::random::<u8>();
        self.step(random)
    }

    /// One timer tick: each of the two timers that is above zero goes down by one.
    pub fn update_timers(&mut self)
        requires
            old(self).wf(),
        ensures
            final(self).wf(),
            final(self).config() == old(self).config(),
            final(self)@ == (MachineView {
                delay: tick_spec(old(self)@.delay),
                sound: tick_spec(old(self)@.sound),
                ..old(self)@
            }),
    {
        self.timers.decrement();
    }

    /// Whether the host should sound its beep: the sound timer is above zero.
    pub fn should_beep(&self) -> (r: bool)
        ensures
            r == (self@.sound > 0),
    {
        self.timers.is_sound_active()
    }

    /// Copies a program into memory at the program offset; a program that
    /// does not fit before the end of memory is refused and nothing changes.
    pub fn load_program(&mut self, program: &[u8]) -> (r: Result<(), Fault>)
        requires
            old(self).wf(),
        ensures
            final(self).wf(),
            final(self).config() == old(self).config(),
            program@.len() <= MEMORY_SIZE - PROGRAM_OFFSET ==> r == Ok::<(), Fault>(())
                && final(self)@ == (MachineView { mem: with_program(old(self)@.mem, program@), ..old(self)@ }),
            program@.len() > MEMORY_SIZE - PROGRAM_OFFSET ==> r == Err::<(), Fault>(
                Fault::ProgramTooLarge,
            ) && final(self)@ == old(self)@,
    {
        self.ram.load_program(program)
    }

    /// The host reports a key going down.
    pub fn press_key(&mut self, key: Key)
        requires
            old(self).wf(),
        ensures
            final(self).wf(),
            final(self).config() == old(self).config(),
            final(self)@ == (MachineView {
                keys: old(self)@.keys.update(key.spec_index() as int, true),
                ..old(self)@
            }),
    {
        self.keyboard.press_key(key);
    }

    /// The host reports a key going up.
    pub fn release_key(&mut self, key: Key)
        requires
            old(self).wf(),
        ensures
            final(self).wf(),
            final(self).config() == old(self).config(),
            final(self)@ == (MachineView {
                keys: old(self)@.keys.update(key.spec_index() as int, false),
                ..old(self)@
            }),
    {
        self.keyboard.release_key(key);
    }

    /// The 64x32 pixels, row-major, 1 for on.
    pub fn get_display(&self) -> (r: &[u8])
        ensures
            r@ == self@.screen,
    {
        self.display.get_display()
    }

    /// The value of general register `x`.
    pub fn register(&self, x: usize) -> (r: u8)
        requires
            x < 16,
        ensures
            r == self@.v[x as int],
    {
        self.registers.get(x).0
    }

    /// The byte of memory at `address` (reduced to 12 bits).
    pub fn read_memory(&self, address: u16) -> (r: u8)
        ensures
            r == self@.mem[mask_spec(address as int)],
    {
        self.ram.read(Address::new(address)).0
    }

    /// The program counter.
    pub fn program_counter(&self) -> (r: u16)
        ensures
            r == self@.pc,
    {
        self.pc.value().as_u16()
    }

    /// The index register.
    pub fn index_register(&self) -> (r: u16)
        ensures
            r == self@.i,
    {
        self.i.value().as_u16()
    }

    pub fn delay_timer(&self) -> (r: u8)
        ensures
            r == self@.delay,
    {
        self.timers.get_delay_timer()
    }

    pub fn sound_timer(&self) -> (r: u8)
        ensures
            r == self@.sound,
    {
        self.timers.get_sound_timer()
    }

    /// Whether the engine is parked on a key read.
    pub fn is_waiting_for_key(&self) -> (r: bool)
        ensures
            r == (self@.state is WaitingForKey),
    {
        match self.state {
            State::Running => false,
            State::WaitingForKey(_) => true,
        }
    }
}

} // verus!
