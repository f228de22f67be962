use vstd::prelude::*;
use crate::datatypes::{mask_spec, Address, Byte};

verus! {

/// Index of the flag register.
pub const FLAG_REGISTER: usize = 15;

/// Number of general registers.
pub const REGISTER_COUNT: usize = 16;

/// One general 8-bit register and its index.
#[derive(Clone, Copy, Debug, PartialEq, Eq, Structural)]
pub struct Register {
    index: usize,
    value: Byte,
}

impl Register {
    pub closed spec fn spec_index(self) -> usize {
        self.index
    }

    pub closed spec fn spec_value(self) -> u8 {
        self.value.0
    }

    /// A register with the given index, holding zero.
    pub fn new(index: usize) -> (r: Register)
        ensures
            r.spec_index() == index,
            r.spec_value() == 0,
    {
        Register { index, value: Byte(0) }
    }

    pub fn index(&self) -> (r: usize)
        ensures
            r == self.spec_index(),
    {
        self.index
    }

    pub fn value(&self) -> (r: Byte)
        ensures
            r.0 == self.spec_value(),
    {
        self.value
    }

    pub fn load(&mut self, value: Byte)
        ensures
            final(self).spec_index() == old(self).spec_index(),
            final(self).spec_value() == value.0,
    {
        self.value = value;
    }

    /// Adds one, wrapping from 255 to 0.
    pub fn increment(&mut self)
        ensures
            final(self).spec_index() == old(self).spec_index(),
            final(self).spec_value() == (old(self).spec_value() + 1) % 256,
    {
        self.value = Byte(self.value.0.wrapping_add(1));
    }

    /// Subtracts one, wrapping from 0 to 255.
    pub fn decrement(&mut self)
        ensures
            final(self).spec_index() == old(self).spec_index(),
            final(self).spec_value() == (old(self).spec_value() + 255) % 256,
    {
        self.value = Byte(self.value.0.wrapping_sub(1));
    }
}

/// The sixteen general registers; the last one doubles as the flag register.
pub struct RegisterFile {
    registers: Vec<Register>,
}

impl RegisterFile {
    #[verifier::type_invariant]
    spec fn well_formed(self) -> bool {
        self.registers@.len() == REGISTER_COUNT
    }

    /// The register values, by index.
    pub closed spec fn view(&self) -> Seq<u8> {
        Seq::new(REGISTER_COUNT as nat, |k: int| self.registers@[k].spec_value())
    }

    /// Sixteen registers, all zero.
    pub fn new() -> (r: RegisterFile)
        ensures
            r@ == Seq::new(REGISTER_COUNT as nat, |k: int| 0u8),
    {
        let mut registers: Vec<Register> = Vec::new();
        let mut k: usize = 0;
        while k < REGISTER_COUNT
            invariant
                k <= REGISTER_COUNT,
                registers@.len() == k,
                forall|j: int| 0 <= j < k ==> (#[trigger] registers@[j]).spec_value() == 0,
            decreases REGISTER_COUNT - k,
        {
            registers.push(Register::new(k));
            k = k + 1;
        }
        let r = RegisterFile { registers };
        assert(r@ =~= Seq::new(REGISTER_COUNT as nat, |k: int| 0u8));
        r
    }

    pub fn get(&self, index: usize) -> (r: Byte)
        requires
            index < REGISTER_COUNT,
        ensures
            r.0 == self@[index as int],
    {
        proof {
            use_type_invariant(self);
        }
        self.registers[index].value()
    }

    pub fn set(&mut self, index: usize, value: Byte)
        requires
            index < REGISTER_COUNT,
        ensures
            final(self)@ == old(self)@.update(index as int, value.0),
    {
        proof {
            use_type_invariant(&*self);
        }
        let mut register = self.registers[index];
        register.load(value);
        self.registers[index] = register;
        assert(self@ =~= old(self)@.update(index as int, value.0));
    }

    /// Writes 1 into the flag register.
    pub fn set_flag(&mut self)
        ensures
            final(self)@ == old(self)@.update(FLAG_REGISTER as int, 1u8),
    {
        self.set(FLAG_REGISTER, Byte(1));
    }

    /// Writes 0 into the flag register.
    pub fn clear_flag(&mut self)
        ensures
            final(self)@ == old(self)@.update(FLAG_REGISTER as int, 0u8),
    {
        self.set(FLAG_REGISTER, Byte(0));
    }
}

/// The 16-bit index register; it always holds a 12-bit address.
pub struct IndexRegister {
    value: Address,
}

impl IndexRegister {
    pub closed spec fn view(&self) -> nat {
        self.value@
    }

    /// An index register holding address zero.
    pub fn new() -> (r: IndexRegister)
        ensures
            r@ == 0,
    {
        IndexRegister { value: Address::new(0) }
    }

    pub fn value(&self) -> (r: Address)
        ensures
            r@ == self@,
    {
        self.value
    }

    pub fn load(&mut self, address: Address)
        ensures
            final(self)@ == address@,
    {
        self.value = address;
    }

    /// Moves to the next address, wrapping at the end of memory.
    pub fn increment(&mut self)
        ensures
            final(self)@ == mask_spec(old(self)@ as int + 1),
    {
        self.value = self.value.add(1);
    }
}

/// The program counter; it always holds a 12-bit address.
pub struct ProgramCounter {
    value: Address,
}

/// Where programs are loaded and execution starts.
pub const PROGRAM_START: u16 = 0x200;

impl ProgramCounter {
    pub closed spec fn view(&self) -> nat {
        self.value@
    }

    /// A program counter at the program load offset.
    pub fn new() -> (r: ProgramCounter)
        ensures
            r@ == PROGRAM_START,
    {
        ProgramCounter { value: Address::new(PROGRAM_START) }
    }

    pub fn value(&self) -> (r: Address)
        ensures
            r@ == self@,
    {
        self.value
    }

    /// Moves past one instruction (two bytes), wrapping at the end of memory.
    pub fn increment(&mut self)
        ensures
            final(self)@ == mask_spec(old(self)@ as int + 2),
    {
        self.value = self.value.add(2);
    }

    pub fn jump(&mut self, address: Address)
        ensures
            final(self)@ == address@,
    {
        self.value = address;
    }

    pub fn as_usize(&self) -> (r: usize)
        ensures
            r == self@,
    {
        self.value.as_usize()
    }
}

} // verus!
