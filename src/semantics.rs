use vstd::prelude::*;
use crate::datatypes::mask_spec;
use crate::display::{blank, collides, drawn};
use crate::fault::Fault;
use crate::instruction::{decode_spec, Instruction};
use crate::keyboard::{first_down, key_down};
use crate::ram::{word_at, FONT_START};

verus! {

/// Points where CHIP-8 interpreters historically differ, chosen when the
/// machine is built.
#[derive(Clone, Copy, Debug, PartialEq, Eq, Structural)]
pub struct Quirks {
    /// SHR and SHL read the second operand register (the original machine);
    /// otherwise they read and write the first.
    pub shift_reads_vy: bool,
    /// `Bnnn` adds the register named by its `x` digit; otherwise (the
    /// original machine) it adds V0.
    pub jump_uses_vx: bool,
    /// OR, AND and XOR clear the flag register; otherwise they leave it.
    pub logic_clears_flag: bool,
    /// Sprites wrap around the screen edges; otherwise they are clipped.
    pub wrap_sprites: bool,
}

impl Quirks {
    /// The original machine's behaviour: shifts read the second register,
    /// `Bnnn` adds V0, logic operations leave the flag register, sprites are
    /// clipped at the edges.
    pub fn new() -> (r: Quirks)
        ensures
            r == (Quirks {
                shift_reads_vy: true,
                jump_uses_vx: false,
                logic_clears_flag: false,
                wrap_sprites: false,
            }),
    {
        Quirks { shift_reads_vy: true, jump_uses_vx: false, logic_clears_flag: false, wrap_sprites: false }
    }
}

impl Default for Quirks {
    fn default() -> (r: Quirks)
        ensures
            r == (Quirks {
                shift_reads_vy: true,
                jump_uses_vx: false,
                logic_clears_flag: false,
                wrap_sprites: false,
            }),
    {
        Quirks::new()
    }
}

/// Whether the engine runs or is parked on a key read.
#[derive(Clone, Copy, Debug, PartialEq, Eq, Structural)]
pub enum State {
    Running,
    /// Parked on `LD Vx, K` until some key is down.
    WaitingForKey(Instruction),
}

/// The whole machine state, as mathematical values.
pub struct MachineView {
    /// General registers V0..VF.
    pub v: Seq<u8>,
    /// Index register.
    pub i: nat,
    /// Program counter.
    pub pc: nat,
    /// Return addresses, oldest first.
    pub stack: Seq<nat>,
    pub delay: u8,
    pub sound: u8,
    pub mem: Seq<u8>,
    /// Pixels, row-major, 1 for on.
    pub screen: Seq<u8>,
    /// Which logical keys are down.
    pub keys: Seq<bool>,
    pub state: State,
}

/// `s` with register `x` set to `value`.
pub open spec fn set_v(s: MachineView, x: int, value: u8) -> MachineView {
    MachineView { v: s.v.update(x, value), ..s }
}

/// `s` with the flag register set to 1 when `f` holds, else to 0.
pub open spec fn set_flag(s: MachineView, f: bool) -> MachineView {
    set_v(s, 15, if f { 1u8 } else { 0u8 })
}

/// `s` with the program counter moved past one more instruction when `c`.
pub open spec fn skip_if(s: MachineView, c: bool) -> MachineView {
    if c {
        MachineView { pc: mask_spec(s.pc as int + 2) as nat, ..s }
    } else {
        s
    }
}

/// The flag effect of OR, AND and XOR.
pub open spec fn logic_flag(s: MachineView, q: Quirks) -> MachineView {
    if q.logic_clears_flag {
        set_v(s, 15, 0u8)
    } else {
        s
    }
}

/// The register that SHR and SHL read.
pub open spec fn shift_source(s: MachineView, q: Quirks, x: int, y: int) -> u8 {
    if q.shift_reads_vy {
        s.v[y]
    } else {
        s.v[x]
    }
}

/// The `n` bytes of memory from `i` on (wrapping): a sprite's rows.
pub open spec fn sprite_rows(mem: Seq<u8>, i: nat, n: nat) -> Seq<u8> {
    Seq::new(n, |k: int| mem[mask_spec(i as int + k)])
}

/// Memory after registers `0..=x` are stored from `i` on (wrapping).
pub open spec fn stored_registers(mem: Seq<u8>, v: Seq<u8>, i: nat, x: int) -> Seq<u8> {
    Seq::new(
        mem.len(),
        |a: int|
            {
                let k = mask_spec(a - i as int + 4096);
                if k <= x {
                    v[k]
                } else {
                    mem[a]
                }
            },
    )
}

/// Registers after `0..=x` are loaded from memory at `i` on (wrapping).
pub open spec fn loaded_registers(mem: Seq<u8>, v: Seq<u8>, i: nat, x: int) -> Seq<u8> {
    Seq::new(v.len(), |k: int| if k <= x { mem[mask_spec(i as int + k)] } else { v[k] })
}

/// What executing `ins` does to `s`; `rnd` is the random byte that RND uses.
pub open spec fn execute_spec(s: MachineView, ins: Instruction, q: Quirks, rnd: u8) -> Result<
    MachineView,
    Fault,
> {
    match ins {
        Instruction::SYS(a) => Ok(MachineView { pc: a@, ..s }),
        Instruction::CLS => Ok(MachineView { screen: blank(), ..s }),
        Instruction::RET => if s.stack.len() == 0 {
            Err(Fault::StackUnderflow)
        } else {
            Ok(MachineView { pc: s.stack.last(), stack: s.stack.drop_last(), ..s })
        },
        Instruction::JP(a) => Ok(MachineView { pc: a@, ..s }),
        Instruction::CALL(a) => if s.stack.len() >= 16 {
            Err(Fault::StackOverflow)
        } else {
            Ok(MachineView { pc: a@, stack: s.stack.push(s.pc), ..s })
        },
        Instruction::SE(x, b) => Ok(skip_if(s, s.v[x as int] == b.0)),
        Instruction::SNE(x, b) => Ok(skip_if(s, s.v[x as int] != b.0)),
        Instruction::SEV(x, y) => Ok(skip_if(s, s.v[x as int] == s.v[y as int])),
        Instruction::LD(x, b) => Ok(set_v(s, x as int, b.0)),
        Instruction::ADD(x, b) => Ok(set_v(s, x as int, ((s.v[x as int] + b.0) % 256) as u8)),
        Instruction::LDV(x, y) => Ok(set_v(s, x as int, s.v[y as int])),
        Instruction::OR(x, y) => Ok(logic_flag(set_v(s, x as int, s.v[x as int] | s.v[y as int]), q)),
        Instruction::AND(x, y) => Ok(logic_flag(set_v(s, x as int, s.v[x as int] & s.v[y as int]), q)),
        Instruction::XOR(x, y) => Ok(logic_flag(set_v(s, x as int, s.v[x as int] ^ s.v[y as int]), q)),
        Instruction::ADDV(x, y) => {
            let sum = s.v[x as int] + s.v[y as int];
            Ok(set_flag(set_v(s, x as int, (sum % 256) as u8), sum > 255))
        },
        Instruction::SUB(x, y) => Ok(
            set_flag(
                set_v(s, x as int, ((s.v[x as int] - s.v[y as int] + 256) % 256) as u8),
                s.v[x as int] >= s.v[y as int],
            ),
        ),
        Instruction::SHR(x, y) => {
            let src = shift_source(s, q, x as int, y as int);
            Ok(set_v(set_v(s, x as int, src / 2), 15, src % 2))
        },
        Instruction::SUBN(x, y) => Ok(
            set_flag(
                set_v(s, x as int, ((s.v[y as int] - s.v[x as int] + 256) % 256) as u8),
                s.v[y as int] >= s.v[x as int],
            ),
        ),
        Instruction::SHL(x, y) => {
            let src = shift_source(s, q, x as int, y as int);
            Ok(set_v(set_v(s, x as int, ((src * 2) % 256) as u8), 15, src / 128))
        },
        Instruction::SNEV(x, y) => Ok(skip_if(s, s.v[x as int] != s.v[y as int])),
        Instruction::LDI(a) => Ok(MachineView { i: a@, ..s }),
        Instruction::JPVX(x, a) => {
            let offset = if q.jump_uses_vx {
                s.v[x as int]
            } else {
                s.v[0]
            };
            Ok(MachineView { pc: mask_spec(a@ as int + offset) as nat, ..s })
        },
        Instruction::RND(x, b) => Ok(set_v(s, x as int, rnd & b.0)),
        Instruction::DRW(x, y, n) => {
            let rows = sprite_rows(s.mem, s.i, n.0 as nat);
            let vx = s.v[x as int] as int;
            let vy = s.v[y as int] as int;
            Ok(
                set_flag(
                    MachineView { screen: drawn(s.screen, vx, vy, rows, q.wrap_sprites), ..s },
                    collides(s.screen, vx, vy, rows, q.wrap_sprites),
                ),
            )
        },
        Instruction::SKP(x) => Ok(skip_if(s, key_down(s.keys, s.v[x as int] as int))),
        Instruction::SKNP(x) => Ok(skip_if(s, !key_down(s.keys, s.v[x as int] as int))),
        Instruction::LDDT(x) => Ok(set_v(s, x as int, s.delay)),
        Instruction::LDK(x) => match first_down(s.keys) {
            Some(k) => Ok(MachineView { state: State::Running, ..set_v(s, x as int, k) }),
            None => Ok(MachineView { state: State::WaitingForKey(ins), ..s }),
        },
        Instruction::LDDTV(x) => Ok(MachineView { delay: s.v[x as int], ..s }),
        Instruction::LDST(x) => Ok(MachineView { sound: s.v[x as int], ..s }),
        Instruction::ADDI(x) => Ok(MachineView { i: mask_spec(s.i as int + s.v[x as int]) as nat, ..s }),
        Instruction::LDF(x) => Ok(MachineView { i: (FONT_START + 5 * s.v[x as int]) as nat, ..s }),
        Instruction::LDB(x) => {
            let value = s.v[x as int];
            Ok(
                MachineView {
                    mem: s.mem.update(s.i as int, value / 100).update(
                        mask_spec(s.i as int + 1),
                        (value / 10) % 10,
                    ).update(mask_spec(s.i as int + 2), value % 10),
                    ..s
                },
            )
        },
        Instruction::LDIV(x) => Ok(
            MachineView {
                mem: stored_registers(s.mem, s.v, s.i, x as int),
                i: mask_spec(s.i as int + x + 1) as nat,
                ..s
            },
        ),
        Instruction::LDVI(x) => Ok(
            MachineView {
                v: loaded_registers(s.mem, s.v, s.i, x as int),
                i: mask_spec(s.i as int + x + 1) as nat,
                ..s
            },
        ),
        _ => Err(Fault::Unsupported(ins)),
    }
}

/// One cycle from `s`: when running, fetch the word at the program counter,
/// move past it, decode and execute; when parked, execute the held key read
/// again.
pub open spec fn step_spec(s: MachineView, q: Quirks, rnd: u8) -> Result<MachineView, Fault> {
    match s.state {
        State::Running => {
            let fetched = MachineView { pc: mask_spec(s.pc as int + 2) as nat, ..s };
            match decode_spec(word_at(s.mem, s.pc as int) as u16) {
                Ok(ins) => execute_spec(fetched, ins, q, rnd),
                Err(f) => Err(f),
            }
        },
        State::WaitingForKey(ins) => execute_spec(s, ins, q, rnd),
    }
}

/// `after` and `r` are what one cycle from `before` gives with random byte `rnd`.
pub open spec fn cycle_outcome(
    before: MachineView,
    q: Quirks,
    rnd: u8,
    after: MachineView,
    r: Result<(), Fault>,
) -> bool {
    match step_spec(before, q, rnd) {
        Ok(s) => r == Ok::<(), Fault>(()) && after == s,
        Err(f) => r == Err::<(), Fault>(f),
    }
}

/// A key read (`Fx0A`) met while running with no key down parks the engine on
/// that instruction; the program counter has moved past it and nothing else
/// changes.
pub proof fn lemma_key_wait_parks(s: MachineView, q: Quirks, rnd: u8, x: usize)
    requires
        s.state == State::Running,
        x < 16,
        word_at(s.mem, s.pc as int) == 0xF00A + 256 * x,
        first_down(s.keys) is None,
    ensures
        step_spec(s, q, rnd) == Ok::<MachineView, Fault>(
            MachineView {
                pc: mask_spec(s.pc as int + 2) as nat,
                state: State::WaitingForKey(Instruction::LDK(x)),
                ..s
            },
        ),
{
    let op = word_at(s.mem, s.pc as int) as u16;
    assert(op as int / 4096 == 15 && (op as int / 256) % 16 == x && op as int % 256 == 0x0A);
}

/// While no key is down a parked engine stays exactly as it is.
pub proof fn lemma_key_wait_holds(s: MachineView, q: Quirks, rnd: u8, x: usize)
    requires
        s.state == State::WaitingForKey(Instruction::LDK(x)),
        first_down(s.keys) is None,
    ensures
        step_spec(s, q, rnd) == Ok::<MachineView, Fault>(s),
{
}

/// Once some key is down a parked engine loads the lowest such key into the
/// register of its key read and runs again; the program counter stays where
/// it was, so the next cycle fetches the next instruction.
pub proof fn lemma_key_wait_resumes(s: MachineView, q: Quirks, rnd: u8, x: usize, key: u8)
    requires
        s.state == State::WaitingForKey(Instruction::LDK(x)),
        first_down(s.keys) == Some(key),
    ensures
        step_spec(s, q, rnd) == Ok::<MachineView, Fault>(
            MachineView { v: s.v.update(x as int, key), state: State::Running, ..s },
        ),
{
}

} // verus!
