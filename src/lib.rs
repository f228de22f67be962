//! A CHIP-8 virtual machine core: memory, registers, call stack, timers,
//! framebuffer, instruction decoder and execution engine, with their
//! behaviour stated as contracts.

pub mod datatypes;
pub mod util;
pub mod fault;
pub mod instruction;
pub mod registers;
pub mod stack;
pub mod timers;
pub mod keyboard;
pub mod digits;
pub mod ram;
pub mod display;
pub mod semantics;
pub mod cpu;
pub mod settings;

pub use cpu::Cpu;
pub use datatypes::{Address, Byte, Nibble};
pub use digits::Digits;
pub use display::Display;
pub use fault::Fault;
pub use instruction::{decode, Instruction};
pub use keyboard::{Key, Keyboard};
pub use ram::Ram;
pub use registers::{IndexRegister, ProgramCounter, Register, RegisterFile};
pub use semantics::{Quirks, State};
pub use settings::ChipSettings;
pub use stack::Stack;
pub use timers::Timers;
pub use util::{get_hex_digit, get_hex_digit_u8, get_hex_digit_usize};
