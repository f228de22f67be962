use vstd::prelude::*;

verus! {

/// The hex digits that have a built-in font glyph.
#[derive(Clone, Copy, Debug, PartialEq, Eq, Structural)]
pub enum Digits {
    Zero,
    One,
    Two,
    Three,
    Four,
    Five,
    Six,
    Seven,
    Eight,
    Nine,
    A,
    B,
    C,
    D,
    E,
    F,
}

/// The five rows of the glyph for hex digit `d`.
pub open spec fn glyph(d: int) -> Seq<u8> {
    if d == 0 {
        seq![0xF0u8, 0x90, 0x90, 0x90, 0xF0]
    } else if d == 1 {
        seq![0x20u8, 0x60, 0x20, 0x20, 0x70]
    } else if d == 2 {
        seq![0xF0u8, 0x10, 0xF0, 0x80, 0xF0]
    } else if d == 3 {
        seq![0xF0u8, 0x10, 0xF0, 0x10, 0xF0]
    } else if d == 4 {
        seq![0x90u8, 0x90, 0xF0, 0x10, 0x10]
    } else if d == 5 {
        seq![0xF0u8, 0x80, 0xF0, 0x10, 0xF0]
    } else if d == 6 {
        seq![0xF0u8, 0x80, 0xF0, 0x90, 0xF0]
    } else if d == 7 {
        seq![0xF0u8, 0x10, 0x20, 0x40, 0x40]
    } else if d == 8 {
        seq![0xF0u8, 0x90, 0xF0, 0x90, 0xF0]
    } else if d == 9 {
        seq![0xF0u8, 0x90, 0xF0, 0x10, 0xF0]
    } else if d == 10 {
        seq![0xF0u8, 0x90, 0xF0, 0x90, 0x90]
    } else if d == 11 {
        seq![0xE0u8, 0x90, 0xE0, 0x90, 0xE0]
    } else if d == 12 {
        seq![0xF0u8, 0x80, 0x80, 0x80, 0xF0]
    } else if d == 13 {
        seq![0xE0u8, 0x90, 0x90, 0x90, 0xE0]
    } else if d == 14 {
        seq![0xF0u8, 0x80, 0xF0, 0x80, 0xF0]
    } else {
        seq![0xF0u8, 0x80, 0xF0, 0x80, 0x80]
    }
}

impl Digits {
    /// The digit's value, `0..16`.
    pub open spec fn spec_value(self) -> int {
        match self {
            Digits::Zero => 0,
            Digits::One => 1,
            Digits::Two => 2,
            Digits::Three => 3,
            Digits::Four => 4,
            Digits::Five => 5,
            Digits::Six => 6,
            Digits::Seven => 7,
            Digits::Eight => 8,
            Digits::Nine => 9,
            Digits::A => 10,
            Digits::B => 11,
            Digits::C => 12,
            Digits::D => 13,
            Digits::E => 14,
            Digits::F => 15,
        }
    }

    /// The digit's five-row glyph.
    pub fn sprite(&self) -> (r: [u8; 5])
        ensures
            r@ == glyph(self.spec_value()),
    {
        let r: [u8; 5] = match self {
            Digits::Zero => [0xF0, 0x90, 0x90, 0x90, 0xF0],
            Digits::One => [0x20, 0x60, 0x20, 0x20, 0x70],
            Digits::Two => [0xF0, 0x10, 0xF0, 0x80, 0xF0],
            Digits::Three => [0xF0, 0x10, 0xF0, 0x10, 0xF0],
            Digits::Four => [0x90, 0x90, 0xF0, 0x10, 0x10],
            Digits::Five => [0xF0, 0x80, 0xF0, 0x10, 0xF0],
            Digits::Six => [0xF0, 0x80, 0xF0, 0x90, 0xF0],
            Digits::Seven => [0xF0, 0x10, 0x20, 0x40, 0x40],
            Digits::Eight => [0xF0, 0x90, 0xF0, 0x90, 0xF0],
            Digits::Nine => [0xF0, 0x90, 0xF0, 0x10, 0xF0],
            Digits::A => [0xF0, 0x90, 0xF0, 0x90, 0x90],
            Digits::B => [0xE0, 0x90, 0xE0, 0x90, 0xE0],
            Digits::C => [0xF0, 0x80, 0x80, 0x80, 0xF0],
            Digits::D => [0xE0, 0x90, 0x90, 0x90, 0xE0],
            Digits::E => [0xF0, 0x80, 0xF0, 0x80, 0xF0],
            Digits::F => [0xF0, 0x80, 0xF0, 0x80, 0x80],
        };
        assert(r@ =~= glyph(self.spec_value()));
        r
    }

    /// The digit with value `value`.
    pub fn from_usize(value: usize) -> (r: Digits)
        requires
            value < 16,
        ensures
            r.spec_value() == value,
    {
        match value {
            0 => Digits::Zero,
            1 => Digits::One,
            2 => Digits::Two,
            3 => Digits::Three,
            4 => Digits::Four,
            5 => Digits::Five,
            6 => Digits::Six,
            7 => Digits::Seven,
            8 => Digits::Eight,
            9 => Digits::Nine,
            10 => Digits::A,
            11 => Digits::B,
            12 => Digits::C,
            13 => Digits::D,
            14 => Digits::E,
            _ => Digits::F,
        }
    }
}

} // verus!
