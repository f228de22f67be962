use vstd::prelude::*;
use crate::datatypes::{mask_spec, Address, Byte};
use crate::digits::{glyph, Digits};
use crate::fault::Fault;

verus! {

/// Number of bytes of memory.
pub const MEMORY_SIZE: usize = 4096;

/// Where the font glyphs start.
pub const FONT_START: u16 = 0x50;

/// Where programs are loaded.
pub const PROGRAM_OFFSET: usize = 0x200;

/// Byte `k` of the built-in font: sixteen glyphs of five rows each.
pub open spec fn font_byte(k: int) -> u8 {
    glyph(k / 5)[k % 5]
}

/// Memory as it is after construction: the font at its offset, zero elsewhere.
pub open spec fn initial_memory() -> Seq<u8> {
    Seq::new(
        MEMORY_SIZE as nat,
        |a: int| if FONT_START <= a < FONT_START + 80 { font_byte(a - FONT_START) } else { 0u8 },
    )
}

/// The big-endian word at `a` and the address after it (wrapping).
pub open spec fn word_at(mem: Seq<u8>, a: int) -> int {
    mem[a] as int * 256 + mem[mask_spec(a + 1)] as int
}

/// `mem` with `program` copied in from the program offset.
pub open spec fn with_program(mem: Seq<u8>, program: Seq<u8>) -> Seq<u8> {
    Seq::new(
        mem.len(),
        |a: int|
            if PROGRAM_OFFSET <= a < PROGRAM_OFFSET + program.len() {
                program[a - PROGRAM_OFFSET]
            } else {
                mem[a]
            },
    )
}

/// The machine's 4096 bytes of memory.
pub struct Ram {
    memory: Vec<u8>,
}

impl Ram {
    #[verifier::type_invariant]
    spec fn well_formed(self) -> bool {
        self.memory@.len() == MEMORY_SIZE
    }

    pub closed spec fn view(&self) -> Seq<u8> {
        self.memory@
    }

    /// Memory with the font loaded and every other byte zero.
    pub fn new() -> (r: Ram)
        ensures
            r@ == initial_memory(),
    {
        let mut memory: Vec<u8> = Vec::new();
        let mut k: usize = 0;
        while k < MEMORY_SIZE
            invariant
                k <= MEMORY_SIZE,
                memory@.len() == k,
                forall|j: int| 0 <= j < k ==> memory@[j] == 0,
            decreases MEMORY_SIZE - k,
        {
            memory.push(0);
            k = k + 1;
        }
        let mut ram = Ram { memory };
        Ram::load_font(&mut ram);
        ram
    }

    /// Writes the sixteen glyphs from the font offset on.
    fn load_font(ram: &mut Ram)
        requires
            forall|a: int| 0 <= a < MEMORY_SIZE ==> old(ram)@[a] == 0,
        ensures
            final(ram)@ == initial_memory(),
    {
        proof {
            use_type_invariant(&*ram);
        }
        let mut i: usize = 0;
        while i < 16
            invariant
                i <= 16,
                ram@.len() == MEMORY_SIZE,
                forall|a: int|
                    0 <= a < MEMORY_SIZE ==> #[trigger] ram@[a] == if FONT_START <= a < FONT_START
                        + 5 * i { font_byte(a - FONT_START) } else { 0u8 },
            decreases 16 - i,
        {
            let sprite = Digits::from_usize(i).sprite();
            let mut j: usize = 0;
            while j < 5
                invariant
                    i < 16,
                    j <= 5,
                    sprite@ == glyph(i as int),
                    ram@.len() == MEMORY_SIZE,
                    forall|a: int|
                        0 <= a < MEMORY_SIZE ==> #[trigger] ram@[a] == if FONT_START <= a
                            < FONT_START + 5 * i + j { font_byte(a - FONT_START) } else { 0u8 },
                decreases 5 - j,
            {
                let at = FONT_START + i as u16 * 5 + j as u16;
                ram.load(Address::new(at), Byte(sprite[j]));
                proof {
                    let k = 5 * i + j;
                    assert(k / 5 == i && k % 5 == j) by (nonlinear_arith)
                        requires k == 5 * i + j, j < 5;
                }
                j = j + 1;
            }
            i = i + 1;
        }
        assert(ram@ =~= initial_memory());
    }

    /// Writes one byte.
    pub fn load(&mut self, address: Address, value: Byte)
        ensures
            final(self)@ == old(self)@.update(address@ as int, value.0),
            final(self)@.len() == MEMORY_SIZE,
    {
        proof {
            use_type_invariant(&*self);
        }
        let a = address.as_usize();
        self.memory[a] = value.0;
    }

    /// Reads one byte.
    pub fn read(&self, address: Address) -> (r: Byte)
        ensures
            r.0 == self@[address@ as int],
            self@.len() == MEMORY_SIZE,
    {
        proof {
            use_type_invariant(self);
        }
        Byte(self.memory[address.as_usize()])
    }

    /// Reads the big-endian word at `address` and the address after it.
    pub fn read_word(&self, address: &Address) -> (r: u16)
        ensures
            r == word_at(self@, address@ as int),
    {
        let (first, second) = self.read_word_as_bytes(address);
        let r = (first.0 as u16) * 256 + second.0 as u16;
        r
    }

    /// The two bytes of the word at `address`, high byte first.
    pub fn read_word_as_bytes(&self, address: &Address) -> (r: (Byte, Byte))
        ensures
            r.0.0 == self@[address@ as int],
            r.1.0 == self@[mask_spec(address@ as int + 1)],
    {
        let first = self.read(*address);
        let second = self.read(address.add(1));
        (first, second)
    }

    /// Copies `program` into memory from the program offset on. A program
    /// longer than the space up to the end of memory is refused and memory is
    /// left as it was.
    pub fn load_program(&mut self, program: &[u8]) -> (r: Result<(), Fault>)
        ensures
            program@.len() <= MEMORY_SIZE - PROGRAM_OFFSET ==> r == Ok::<(), Fault>(())
                && final(self)@ == with_program(old(self)@, program@),
            program@.len() > MEMORY_SIZE - PROGRAM_OFFSET ==> r == Err::<(), Fault>(
                Fault::ProgramTooLarge,
            ) && final(self)@ == old(self)@,
    {
        proof {
            use_type_invariant(&*self);
        }
        if program.len() > MEMORY_SIZE - PROGRAM_OFFSET {
            return Err(Fault::ProgramTooLarge);
        }
        let mut k: usize = 0;
        while k < program.len()
            invariant
                k <= program@.len() <= MEMORY_SIZE - PROGRAM_OFFSET,
                self.memory@.len() == MEMORY_SIZE,
                forall|a: int|
                    0 <= a < MEMORY_SIZE ==> #[trigger] self.memory@[a] == if PROGRAM_OFFSET <= a
                        < PROGRAM_OFFSET + k { program@[a - PROGRAM_OFFSET] } else { old(self)@[a] },
            decreases program@.len() - k,
        {
            self.memory[PROGRAM_OFFSET + k] = program[k];
            k = k + 1;
        }
        assert(self@ =~= with_program(old(self)@, program@));
        Ok(())
    }
}

} // verus!
