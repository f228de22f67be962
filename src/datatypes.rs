use vstd::prelude::*;

verus! {

/// Number of addressable bytes; every address is reduced modulo this.
pub const ADDRESS_SPACE: u16 = 4096;

/// The effective 12-bit address of a raw 16-bit value.
pub open spec fn mask_spec(v: int) -> int {
    v % 4096
}

/// An 8-bit value; arithmetic on it wraps unless checked.
#[derive(Clone, Copy, Debug, PartialEq, Eq, Structural, Default)]
pub struct Byte(pub u8);

/// A 4-bit value (sprite heights, opcode fields).
#[derive(Clone, Copy, Debug, PartialEq, Eq, Structural, Default)]
pub struct Nibble(pub u8);

/// A 12-bit memory address; the stored value never exceeds 0xFFF.
#[derive(Clone, Copy, Debug, PartialEq, Eq, Structural)]
pub struct Address(u16);

impl Byte {
    pub fn as_u8(self) -> (r: u8)
        ensures
            r == self.0,
    {
        self.0
    }

    pub fn as_usize(self) -> (r: usize)
        ensures
            r == self.0 as usize,
            r < 256,
    {
        self.0 as usize
    }

    /// Checked addition: `Ok` with the sum when it fits in a byte, otherwise
    /// `Err` with the sum modulo 256.
    pub fn add(self, rhs: Byte) -> (r: Result<Byte, Byte>)
        ensures
            self.0 + rhs.0 <= 255 ==> r == Ok::<Byte, Byte>(Byte((self.0 + rhs.0) as u8)),
            self.0 + rhs.0 > 255 ==> r == Err::<Byte, Byte>(Byte(((self.0 + rhs.0) % 256) as u8)),
    {
        match self.0.checked_add(rhs.0) {
            Some(result) => Ok(Byte(result)),
            None => Err(Byte(self.0.wrapping_add(rhs.0))),
        }
    }

    /// Checked subtraction: `Ok` with the difference when `self >= rhs`,
    /// otherwise `Err` with the difference modulo 256.
    pub fn sub(self, rhs: Byte) -> (r: Result<Byte, Byte>)
        ensures
            self.0 >= rhs.0 ==> r == Ok::<Byte, Byte>(Byte((self.0 - rhs.0) as u8)),
            self.0 < rhs.0 ==> r == Err::<Byte, Byte>(Byte((self.0 - rhs.0 + 256) as u8)),
    {
        match self.0.checked_sub(rhs.0) {
            Some(result) => Ok(Byte(result)),
            None => Err(Byte(self.0.wrapping_sub(rhs.0))),
        }
    }
}

impl Address {
    #[verifier::type_invariant]
    spec fn in_range(self) -> bool {
        self.0 <= 0xFFF
    }

    /// The address as a number in `0..4096`.
    pub closed spec fn view(self) -> nat {
        (self.0 % 4096) as nat
    }

    /// An address is always below 4096.
    pub broadcast proof fn lemma_view_in_range(a: Address)
        ensures
            #[trigger] a@ < 4096,
    {
    }

    /// The address that `Address::new(value)` builds.
    pub closed spec fn from_raw(value: u16) -> Address {
        Address((value % 4096) as u16)
    }

    /// The address built from a raw value is that value reduced to 12 bits.
    pub broadcast proof fn lemma_from_raw(value: u16)
        ensures
            #[trigger] Address::from_raw(value)@ == mask_spec(value as int),
    {
    }

    /// Builds an address from any 16-bit value by keeping its low 12 bits.
    pub fn new(value: u16) -> (r: Address)
        ensures
            r == Address::from_raw(value),
            r@ == mask_spec(value as int),
            r@ <= 0xFFF,
    {
        Address(Address::mask(value))
    }

    pub fn as_u16(self) -> (r: u16)
        ensures
            r == self@,
            r <= 0xFFF,
    {
        proof {
            use_type_invariant(self);
        }
        self.0
    }

    pub fn as_usize(self) -> (r: usize)
        ensures
            r == self@,
            r < 4096,
    {
        proof {
            use_type_invariant(self);
        }
        self.0 as usize
    }

    /// The low 12 bits of a 16-bit value.
    pub fn mask(value: u16) -> (r: u16)
        ensures
            r == mask_spec(value as int),
            r <= 0xFFF,
    {
        let r = value & 0xFFF;
        assert(value & 0xFFF == value % 4096 && value & 0xFFF <= 0xFFF) by (bit_vector);
        r
    }

    /// The address `offset` bytes further on, wrapping around the address space.
    pub fn add(self, offset: u16) -> (r: Address)
        ensures
            r@ == mask_spec(self@ + offset),
    {
        proof {
            use_type_invariant(self);
        }
        let sum: u32 = self.0 as u32 + offset as u32;
        Address((sum % 4096) as u16)
    }
}

} // verus!
