use vstd::prelude::*;
use crate::datatypes::{Address, Byte, Nibble};
use crate::fault::Fault;
use crate::util::{get_hex_digit, get_hex_digit_u8, get_hex_digit_usize};

verus! {

/// Index of a general register, `0..16`.
pub type VRegisterNumber = usize;

/// A decoded instruction: the base set, then the extended set, which is
/// recognised but never executed.
#[derive(Clone, Copy, Debug, PartialEq, Eq, Structural)]
pub enum Instruction {
    SYS(Address),
    CLS,
    RET,
    JP(Address),
    CALL(Address),
    SE(VRegisterNumber, Byte),
    SNE(VRegisterNumber, Byte),
    SEV(VRegisterNumber, VRegisterNumber),
    LD(VRegisterNumber, Byte),
    ADD(VRegisterNumber, Byte),
    LDV(VRegisterNumber, VRegisterNumber),
    OR(VRegisterNumber, VRegisterNumber),
    AND(VRegisterNumber, VRegisterNumber),
    XOR(VRegisterNumber, VRegisterNumber),
    ADDV(VRegisterNumber, VRegisterNumber),
    SUB(VRegisterNumber, VRegisterNumber),
    SHR(VRegisterNumber, VRegisterNumber),
    SUBN(VRegisterNumber, VRegisterNumber),
    SHL(VRegisterNumber, VRegisterNumber),
    SNEV(VRegisterNumber, VRegisterNumber),
    LDI(Address),
    JPVX(VRegisterNumber, Address),
    RND(VRegisterNumber, Byte),
    DRW(VRegisterNumber, VRegisterNumber, Nibble),
    SKP(VRegisterNumber),
    SKNP(VRegisterNumber),
    LDDT(VRegisterNumber),
    LDK(VRegisterNumber),
    LDDTV(VRegisterNumber),
    LDST(VRegisterNumber),
    ADDI(VRegisterNumber),
    LDF(VRegisterNumber),
    LDB(VRegisterNumber),
    LDIV(VRegisterNumber),
    LDVI(VRegisterNumber),
    SCU(Nibble),
    SCR,
    SCL,
    EXIT,
    LOW,
    HIGH,
    DRW0(VRegisterNumber, VRegisterNumber),
    LDHF(VRegisterNumber),
    LDR(VRegisterNumber),
    LDRV(VRegisterNumber),
}

/// The most significant hex digit of an opcode.
pub open spec fn op_class(op: u16) -> int {
    op as int / 4096
}

/// The `x` register field (second hex digit).
pub open spec fn op_x(op: u16) -> usize {
    ((op as int / 256) % 16) as usize
}

/// The `y` register field (third hex digit).
pub open spec fn op_y(op: u16) -> usize {
    ((op as int / 16) % 16) as usize
}

/// The low hex digit.
pub open spec fn op_n(op: u16) -> u8 {
    (op as int % 16) as u8
}

/// The low byte.
pub open spec fn op_kk(op: u16) -> u8 {
    (op as int % 256) as u8
}

/// What each opcode means: the documented encodings, the extended ones, and
/// a decode fault for every other word.
pub open spec fn decode_spec(op: u16) -> Result<Instruction, Fault> {
    let x = op_x(op);
    let y = op_y(op);
    let kk = op_kk(op);
    let addr = Address::from_raw(op);
    if op == 0x00E0 {
        Ok(Instruction::CLS)
    } else if op == 0x00EE {
        Ok(Instruction::RET)
    } else if op as int / 16 == 0x00C {
        Ok(Instruction::SCU(Nibble(op_n(op))))
    } else if op == 0x00FB {
        Ok(Instruction::SCR)
    } else if op == 0x00FC {
        Ok(Instruction::SCL)
    } else if op == 0x00FD {
        Ok(Instruction::EXIT)
    } else if op == 0x00FE {
        Ok(Instruction::LOW)
    } else if op == 0x00FF {
        Ok(Instruction::HIGH)
    } else if op_class(op) == 0x0 {
        Ok(Instruction::SYS(addr))
    } else if op_class(op) == 0x1 {
        Ok(Instruction::JP(addr))
    } else if op_class(op) == 0x2 {
        Ok(Instruction::CALL(addr))
    } else if op_class(op) == 0x3 {
        Ok(Instruction::SE(x, Byte(kk)))
    } else if op_class(op) == 0x4 {
        Ok(Instruction::SNE(x, Byte(kk)))
    } else if op_class(op) == 0x5 {
        Ok(Instruction::SEV(x, y))
    } else if op_class(op) == 0x6 {
        Ok(Instruction::LD(x, Byte(kk)))
    } else if op_class(op) == 0x7 {
        Ok(Instruction::ADD(x, Byte(kk)))
    } else if op_class(op) == 0x8 {
        let n = op_n(op);
        if n == 0x0 {
            Ok(Instruction::LDV(x, y))
        } else if n == 0x1 {
            Ok(Instruction::OR(x, y))
        } else if n == 0x2 {
            Ok(Instruction::AND(x, y))
        } else if n == 0x3 {
            Ok(Instruction::XOR(x, y))
        } else if n == 0x4 {
            Ok(Instruction::ADDV(x, y))
        } else if n == 0x5 {
            Ok(Instruction::SUB(x, y))
        } else if n == 0x6 {
            Ok(Instruction::SHR(x, y))
        } else if n == 0x7 {
            Ok(Instruction::SUBN(x, y))
        } else if n == 0xE {
            Ok(Instruction::SHL(x, y))
        } else {
            Err(Fault::InvalidOpcode(op))
        }
    } else if op_class(op) == 0x9 {
        Ok(Instruction::SNEV(x, y))
    } else if op_class(op) == 0xA {
        Ok(Instruction::LDI(addr))
    } else if op_class(op) == 0xB {
        Ok(Instruction::JPVX(x, addr))
    } else if op_class(op) == 0xC {
        Ok(Instruction::RND(x, Byte(kk)))
    } else if op_class(op) == 0xD {
        if op_n(op) == 0 {
            Ok(Instruction::DRW0(x, y))
        } else {
            Ok(Instruction::DRW(x, y, Nibble(op_n(op))))
        }
    } else if op_class(op) == 0xE {
        if kk == 0x9E {
            Ok(Instruction::SKP(x))
        } else if kk == 0xA1 {
            Ok(Instruction::SKNP(x))
        } else {
            Err(Fault::InvalidOpcode(op))
        }
    } else {
        if kk == 0x07 {
            Ok(Instruction::LDDT(x))
        } else if kk == 0x0A {
            Ok(Instruction::LDK(x))
        } else if kk == 0x15 {
            Ok(Instruction::LDDTV(x))
        } else if kk == 0x18 {
            Ok(Instruction::LDST(x))
        } else if kk == 0x1E {
            Ok(Instruction::ADDI(x))
        } else if kk == 0x29 {
            Ok(Instruction::LDF(x))
        } else if kk == 0x30 {
            Ok(Instruction::LDHF(x))
        } else if kk == 0x33 {
            Ok(Instruction::LDB(x))
        } else if kk == 0x55 {
            Ok(Instruction::LDIV(x))
        } else if kk == 0x65 {
            Ok(Instruction::LDVI(x))
        } else if kk == 0x75 {
            Ok(Instruction::LDR(x))
        } else if kk == 0x85 {
            Ok(Instruction::LDRV(x))
        } else {
            Err(Fault::InvalidOpcode(op))
        }
    }
}

/// Every register index that a decoded instruction carries is below 16, and
/// a sprite height is a nibble.
pub open spec fn operands_in_range(ins: Instruction) -> bool {
    match ins {
        Instruction::SE(x, _) | Instruction::SNE(x, _) | Instruction::LD(x, _)
        | Instruction::ADD(x, _) | Instruction::JPVX(x, _) | Instruction::RND(x, _)
        | Instruction::SKP(x) | Instruction::SKNP(x) | Instruction::LDDT(x)
        | Instruction::LDK(x) | Instruction::LDDTV(x) | Instruction::LDST(x)
        | Instruction::ADDI(x) | Instruction::LDF(x) | Instruction::LDB(x)
        | Instruction::LDIV(x) | Instruction::LDVI(x) | Instruction::LDHF(x)
        | Instruction::LDR(x) | Instruction::LDRV(x) => x < 16,
        Instruction::SEV(x, y) | Instruction::LDV(x, y) | Instruction::OR(x, y)
        | Instruction::AND(x, y) | Instruction::XOR(x, y) | Instruction::ADDV(x, y)
        | Instruction::SUB(x, y) | Instruction::SHR(x, y) | Instruction::SUBN(x, y)
        | Instruction::SHL(x, y) | Instruction::SNEV(x, y) | Instruction::DRW0(x, y) => x < 16
            && y < 16,
        Instruction::DRW(x, y, n) => x < 16 && y < 16 && n.0 < 16,
        _ => true,
    }
}

/// Decodes a 16-bit opcode.
pub fn decode(opcode: u16) -> (r: Result<Instruction, Fault>)
    ensures
        r == decode_spec(opcode),
        r matches Ok(ins) ==> operands_in_range(ins),
{
    let class = get_hex_digit(opcode, 0, 1);
    let x = get_hex_digit_usize(opcode, 1, 1);
    let y = get_hex_digit_usize(opcode, 2, 1);
    let n = get_hex_digit_u8(opcode, 3, 1);
    let kk = get_hex_digit_u8(opcode, 2, 2);
    assert(class == opcode as int / 4096);
    assert(kk == opcode as int % 256);
    assert(n == opcode as int % 16);
    if opcode == 0x00E0 {
        Ok(Instruction::CLS)
    } else if opcode == 0x00EE {
        Ok(Instruction::RET)
    } else if opcode >= 0x00C0 && opcode <= 0x00CF {
        Ok(Instruction::SCU(Nibble(n)))
    } else if opcode == 0x00FB {
        Ok(Instruction::SCR)
    } else if opcode == 0x00FC {
        Ok(Instruction::SCL)
    } else if opcode == 0x00FD {
        Ok(Instruction::EXIT)
    } else if opcode == 0x00FE {
        Ok(Instruction::LOW)
    } else if opcode == 0x00FF {
        Ok(Instruction::HIGH)
    } else if class == 0x0 {
        Ok(Instruction::SYS(Address::new(opcode)))
    } else if class == 0x1 {
        Ok(Instruction::JP(Address::new(opcode)))
    } else if class == 0x2 {
        Ok(Instruction::CALL(Address::new(opcode)))
    } else if class == 0x3 {
        Ok(Instruction::SE(x, Byte(kk)))
    } else if class == 0x4 {
        Ok(Instruction::SNE(x, Byte(kk)))
    } else if class == 0x5 {
        Ok(Instruction::SEV(x, y))
    } else if class == 0x6 {
        Ok(Instruction::LD(x, Byte(kk)))
    } else if class == 0x7 {
        Ok(Instruction::ADD(x, Byte(kk)))
    } else if class == 0x8 {
        match n {
            0x0 => Ok(Instruction::LDV(x, y)),
            0x1 => Ok(Instruction::OR(x, y)),
            0x2 => Ok(Instruction::AND(x, y)),
            0x3 => Ok(Instruction::XOR(x, y)),
            0x4 => Ok(Instruction::ADDV(x, y)),
            0x5 => Ok(Instruction::SUB(x, y)),
            0x6 => Ok(Instruction::SHR(x, y)),
            0x7 => Ok(Instruction::SUBN(x, y)),
            0xE => Ok(Instruction::SHL(x, y)),
            _ => Err(Fault::InvalidOpcode(opcode)),
        }
    } else if class == 0x9 {
        Ok(Instruction::SNEV(x, y))
    } else if class == 0xA {
        Ok(Instruction::LDI(Address::new(opcode)))
    } else if class == 0xB {
        Ok(Instruction::JPVX(x, Address::new(opcode)))
    } else if class == 0xC {
        Ok(Instruction::RND(x, Byte(kk)))
    } else if class == 0xD {
        if n == 0 {
            Ok(Instruction::DRW0(x, y))
        } else {
            Ok(Instruction::DRW(x, y, Nibble(n)))
        }
    } else if class == 0xE {
        match kk {
            0x9E => Ok(Instruction::SKP(x)),
            0xA1 => Ok(Instruction::SKNP(x)),
            _ => Err(Fault::InvalidOpcode(opcode)),
        }
    } else {
        match kk {
            0x07 => Ok(Instruction::LDDT(x)),
            0x0A => Ok(Instruction::LDK(x)),
            0x15 => Ok(Instruction::LDDTV(x)),
            0x18 => Ok(Instruction::LDST(x)),
            0x1E => Ok(Instruction::ADDI(x)),
            0x29 => Ok(Instruction::LDF(x)),
            0x30 => Ok(Instruction::LDHF(x)),
            0x33 => Ok(Instruction::LDB(x)),
            0x55 => Ok(Instruction::LDIV(x)),
            0x65 => Ok(Instruction::LDVI(x)),
            0x75 => Ok(Instruction::LDR(x)),
            0x85 => Ok(Instruction::LDRV(x)),
            _ => Err(Fault::InvalidOpcode(opcode)),
        }
    }
}

} // verus!
