//! What each instruction does to the machine, as functions on the model.

use vstd::prelude::*;
use crate::action::Fault;
use crate::decode::{address_of, byte_of, nibble};
use crate::frame::{collides, draw_frame};
use crate::state::{blank_frame, CpuState};

verus! {

/// `memory` with `value` put at `address` by the host; a write past the end
/// of memory is dropped.
pub open spec fn write_byte(memory: Seq<u8>, address: int, value: u8) -> Seq<u8> {
    if 0 <= address < 4096 {
        memory.update(address, value)
    } else {
        memory
    }
}

/// `memory` with `value` stored at `address` by an instruction; a store into
/// the font or past the end of memory is dropped.
pub open spec fn store_byte(memory: Seq<u8>, address: int, value: u8) -> Seq<u8> {
    if 80 <= address < 4096 {
        memory.update(address, value)
    } else {
        memory
    }
}

/// Memory after a program has been loaded at `0x200`; what does not fit
/// below the end of memory is dropped.
pub open spec fn loaded(memory: Seq<u8>, program: Seq<u8>) -> Seq<u8> {
    Seq::new(
        4096,
        |a: int|
            if 0x200 <= a < 0x200 + program.len() {
                program[a - 0x200]
            } else {
                memory[a]
            },
    )
}

/// `k` is the lowest key that is pressed.
pub open spec fn is_first_pressed(keys: Seq<bool>, k: int) -> bool {
    &&& 0 <= k < 16
    &&& keys[k]
    &&& forall|j: int| 0 <= j < k ==> !keys[j]
}

/// Some key is pressed.
pub open spec fn any_pressed(keys: Seq<bool>) -> bool {
    exists|k: int| 0 <= k < 16 && keys[k]
}

/// The lowest key that is pressed, where one is.
pub open spec fn first_pressed(keys: Seq<bool>) -> int {
    choose|k: int| is_first_pressed(keys, k)
}

/// The state after an instruction or a cycle, and the fault that stopped it, if one did.
pub struct Step {
    /// The state the machine is left in.
    pub state: CpuState,
    /// The fault, where the program image is at fault.
    pub fault: Option<Fault>,
}

impl Step {
    /// A step that went through.
    pub open spec fn done(state: CpuState) -> Step {
        Step { state, fault: None }
    }

    /// A step that a fault stopped, the machine left as it was.
    pub open spec fn stopped(state: CpuState, fault: Fault) -> Step {
        Step { state, fault: Some(fault) }
    }

    /// What the caller of the executable machine gets back.
    pub open spec fn outcome(self) -> Result<(), Fault> {
        match self.fault {
            Some(fault) => Err(fault),
            None => Ok(()),
        }
    }
}

impl CpuState {
    // ---- registers ----

    /// `Vx` set to `value`.
    pub open spec fn with_register(self, x: int, value: u8) -> CpuState {
        CpuState { v: self.v.update(x, value), ..self }
    }

    /// `VF` set to `flag`, and after it `Vx` to `value`: where `x` is 15 the value stays.
    pub open spec fn with_flag_and_register(self, flag: u8, x: int, value: u8) -> CpuState {
        CpuState { v: self.v.update(0xF, flag).update(x, value), ..self }
    }

    // ---- the program counter ----

    /// The program counter on the following instruction.
    pub open spec fn next(self) -> CpuState {
        CpuState { pc: self.pc + 2, ..self }
    }

    /// The program counter past the following instruction.
    pub open spec fn skip(self) -> CpuState {
        CpuState { pc: self.pc + 4, ..self }
    }

    /// The program counter past the following instruction where `condition`
    /// holds, on it where it does not.
    pub open spec fn skip_if(self, condition: bool) -> CpuState {
        if condition {
            self.skip()
        } else {
            self.next()
        }
    }

    /// The program counter at `address`.
    pub open spec fn jump(self, address: nat) -> CpuState {
        CpuState { pc: address, ..self }
    }

    // ---- instructions, the program counter left alone ----

    /// `00E0`: every pixel off, the frame marked dirty.
    pub open spec fn cleared(self) -> CpuState {
        CpuState { vram: blank_frame(), vram_changed: true, ..self }
    }

    /// `00EE`: the top of the stack taken off.
    pub open spec fn popped(self) -> CpuState {
        CpuState { sp: (self.sp - 1) as nat, ..self }
    }

    /// The address on top of the stack.
    pub open spec fn return_address(self) -> nat {
        self.stack[self.sp - 1]
    }

    /// `2nnn`: the address of the following instruction put on the stack.
    pub open spec fn pushed(self) -> CpuState {
        CpuState { stack: self.stack.update(self.sp as int, self.pc + 2), sp: self.sp + 1, ..self }
    }

    /// `6xkk`: `Vx = kk`.
    pub open spec fn load_immediate(self, x: int, kk: u8) -> CpuState {
        self.with_register(x, kk)
    }

    /// `7xkk`: `Vx = (Vx + kk) mod 256`, no flag touched.
    pub open spec fn add_immediate(self, x: int, kk: u8) -> CpuState {
        self.with_register(x, ((self.v[x] + kk) % 256) as u8)
    }

    /// `8xy0`: `Vx = Vy`.
    pub open spec fn copy_register(self, x: int, y: int) -> CpuState {
        self.with_register(x, self.v[y])
    }

    /// `8xy1`: `Vx = Vx | Vy`.
    pub open spec fn or_registers(self, x: int, y: int) -> CpuState {
        self.with_register(x, self.v[x] | self.v[y])
    }

    /// `8xy2`: `Vx = Vx & Vy`.
    pub open spec fn and_registers(self, x: int, y: int) -> CpuState {
        self.with_register(x, self.v[x] & self.v[y])
    }

    /// `8xy3`: `Vx = Vx ^ Vy`.
    pub open spec fn xor_registers(self, x: int, y: int) -> CpuState {
        self.with_register(x, self.v[x] ^ self.v[y])
    }

    /// `8xy4`: `VF` = carry of `Vx + Vy`, `Vx = (Vx + Vy) mod 256`.
    pub open spec fn add_registers(self, x: int, y: int) -> CpuState {
        let sum = self.v[x] + self.v[y];
        self.with_flag_and_register(if sum > 255 { 1 } else { 0 }, x, (sum % 256) as u8)
    }

    /// `8xy5`: `VF` = 1 where `Vx > Vy`, `Vx = (Vx - Vy) mod 256`.
    pub open spec fn sub_registers(self, x: int, y: int) -> CpuState {
        let a = self.v[x];
        let b = self.v[y];
        self.with_flag_and_register(if a > b { 1 } else { 0 }, x, ((a - b) % 256) as u8)
    }

    /// `8xy6`: `VF` = lowest bit of `Vx`, `Vx` halved.
    pub open spec fn shift_right(self, x: int) -> CpuState {
        let a = self.v[x];
        self.with_flag_and_register(a % 2, x, a / 2)
    }

    /// `8xy7`: `VF` = 1 where `Vy > Vx`, `Vx = (Vy - Vx) mod 256`.
    pub open spec fn sub_reversed(self, x: int, y: int) -> CpuState {
        let a = self.v[x];
        let b = self.v[y];
        self.with_flag_and_register(if b > a { 1 } else { 0 }, x, ((b - a) % 256) as u8)
    }

    /// `8xyE`: `VF` = highest bit of `Vx`, `Vx = (2 * Vx) mod 256`.
    pub open spec fn shift_left(self, x: int) -> CpuState {
        let a = self.v[x];
        self.with_flag_and_register(a / 128, x, ((2 * a) % 256) as u8)
    }

    /// `Annn`: `I = nnn`.
    pub open spec fn load_index(self, nnn: nat) -> CpuState {
        CpuState { i: nnn, ..self }
    }

    /// `Cxkk`: `Vx = random & kk`.
    pub open spec fn load_random(self, x: int, kk: u8, random: u8) -> CpuState {
        self.with_register(x, random & kk)
    }

    /// The `n` bytes of the sprite that `I` points at.
    pub open spec fn sprite(self, n: int) -> Seq<u8> {
        self.memory.subrange(self.i as int, self.i + n)
    }

    /// `Dxyn`: the sprite drawn at `(Vx, Vy)`, `VF` = 1 where a pixel went
    /// off and 0 where none did, the frame marked dirty. The coordinates are
    /// what the two registers hold before the instruction.
    pub open spec fn drawn(self, x: int, y: int, n: int) -> CpuState {
        let sprite = self.sprite(n);
        let vx = self.v[x] as int;
        let vy = self.v[y] as int;
        CpuState {
            v: self.v.update(0xF, if collides(self.vram, sprite, vx, vy) { 1u8 } else { 0u8 }),
            vram: draw_frame(self.vram, sprite, vx, vy),
            vram_changed: true,
            ..self
        }
    }

    /// Whether key `k` is pressed; a number that names no key is not.
    pub open spec fn key_down(self, k: int) -> bool {
        0 <= k < 16 && self.keys[k]
    }

    /// `Fx07`: `Vx` = delay timer.
    pub open spec fn read_delay(self, x: int) -> CpuState {
        self.with_register(x, self.delay_timer)
    }

    /// `Fx0A`: execution suspended until a key is pressed, `Vx` to receive it.
    pub open spec fn awaiting(self, x: int) -> CpuState {
        CpuState { wait_for_input: true, input_address: x as nat, ..self }
    }

    /// `Fx15`: delay timer = `Vx`.
    pub open spec fn write_delay(self, x: int) -> CpuState {
        CpuState { delay_timer: self.v[x], ..self }
    }

    /// `Fx18`: sound timer = `Vx`.
    pub open spec fn write_sound(self, x: int) -> CpuState {
        CpuState { sound_timer: self.v[x], ..self }
    }

    /// `Fx1E`: `I = (I + Vx) mod 65536`, no flag touched.
    pub open spec fn add_index(self, x: int) -> CpuState {
        CpuState { i: ((self.i + self.v[x]) % 0x10000) as nat, ..self }
    }

    /// `Fx29`: `I` = address of the glyph for `Vx`, the font starting at 0.
    pub open spec fn point_at_glyph(self, x: int) -> CpuState {
        CpuState { i: (self.v[x] * 5) as nat, ..self }
    }

    /// `Fx33`: hundreds, tens and ones of `Vx` at `I`, `I + 1` and `I + 2`;
    /// what falls into the font or past the end of memory is dropped.
    pub open spec fn store_decimal(self, x: int) -> CpuState {
        let a = self.v[x];
        let i = self.i as int;
        CpuState {
            memory: store_byte(
                store_byte(store_byte(self.memory, i, a / 100), i + 1, (a / 10) % 10),
                i + 2,
                a % 10,
            ),
            ..self
        }
    }

    /// `Fx55`: `V0` to `Vx` at `I` to `I + x`; what falls into the font or
    /// past the end of memory is dropped.
    pub open spec fn store_registers(self, x: int) -> CpuState {
        CpuState {
            memory: Seq::new(
                4096,
                |a: int|
                    if 80 <= a && self.i <= a <= self.i + x {
                        self.v[a - self.i]
                    } else {
                        self.memory[a]
                    },
            ),
            ..self
        }
    }

    /// `Fx65`: `V0` to `Vx` from `I` to `I + x`.
    pub open spec fn load_registers(self, x: int) -> CpuState {
        CpuState {
            v: Seq::new(
                16,
                |k: int|
                    if k <= x {
                        self.memory[self.i + k]
                    } else {
                        self.v[k]
                    },
            ),
            ..self
        }
    }

    // ---- dispatch ----

    /// One instruction: what it does to the machine and to the program
    /// counter. A pattern that is no instruction only moves the program
    /// counter on. `random` is the byte that `Cxkk` draws.
    pub open spec fn execute(self, opcode: u16, random: u8) -> Step {
        let family = nibble(opcode, 0);
        let x = nibble(opcode, 1);
        let y = nibble(opcode, 2);
        let n = nibble(opcode, 3);
        let nnn = address_of(opcode);
        let kk = byte_of(opcode);
        if family == 0x0 && x == 0x0 && y == 0xE && n == 0x0 {
            Step::done(self.cleared().next())
        } else if family == 0x0 && x == 0x0 && y == 0xE && n == 0xE {
            if self.sp == 0 {
                Step::stopped(self, Fault::StackUnderflow)
            } else {
                Step::done(self.popped().jump(self.return_address()))
            }
        } else if family == 0x1 {
            Step::done(self.jump(nnn))
        } else if family == 0x2 {
            if self.sp >= 16 {
                Step::stopped(self, Fault::StackOverflow)
            } else {
                Step::done(self.pushed().jump(nnn))
            }
        } else if family == 0x3 {
            Step::done(self.skip_if(self.v[x] == kk))
        } else if family == 0x4 {
            Step::done(self.skip_if(self.v[x] != kk))
        } else if family == 0x5 && n == 0 {
            Step::done(self.skip_if(self.v[x] == self.v[y]))
        } else if family == 0x6 {
            Step::done(self.load_immediate(x, kk).next())
        } else if family == 0x7 {
            Step::done(self.add_immediate(x, kk).next())
        } else if family == 0x8 && n == 0x0 {
            Step::done(self.copy_register(x, y).next())
        } else if family == 0x8 && n == 0x1 {
            Step::done(self.or_registers(x, y).next())
        } else if family == 0x8 && n == 0x2 {
            Step::done(self.and_registers(x, y).next())
        } else if family == 0x8 && n == 0x3 {
            Step::done(self.xor_registers(x, y).next())
        } else if family == 0x8 && n == 0x4 {
            Step::done(self.add_registers(x, y).next())
        } else if family == 0x8 && n == 0x5 {
            Step::done(self.sub_registers(x, y).next())
        } else if family == 0x8 && n == 0x6 {
            Step::done(self.shift_right(x).next())
        } else if family == 0x8 && n == 0x7 {
            Step::done(self.sub_reversed(x, y).next())
        } else if family == 0x8 && n == 0xE {
            Step::done(self.shift_left(x).next())
        } else if family == 0x9 && n == 0 {
            Step::done(self.skip_if(self.v[x] != self.v[y]))
        } else if family == 0xA {
            Step::done(self.load_index(nnn).next())
        } else if family == 0xB {
            Step::done(self.jump(nnn + self.v[0] as nat))
        } else if family == 0xC {
            Step::done(self.load_random(x, kk, random).next())
        } else if family == 0xD {
            if self.i + n > 4096 {
                Step::stopped(self, Fault::AddressOutOfRange)
            } else {
                Step::done(self.drawn(x, y, n).next())
            }
        } else if family == 0xE && y == 0x9 && n == 0xE {
            Step::done(self.skip_if(self.key_down(self.v[x] as int)))
        } else if family == 0xE && y == 0xA && n == 0x1 {
            Step::done(self.skip_if(!self.key_down(self.v[x] as int)))
        } else if family == 0xF && y == 0x0 && n == 0x7 {
            Step::done(self.read_delay(x).next())
        } else if family == 0xF && y == 0x0 && n == 0xA {
            Step::done(self.awaiting(x).next())
        } else if family == 0xF && y == 0x1 && n == 0x5 {
            Step::done(self.write_delay(x).next())
        } else if family == 0xF && y == 0x1 && n == 0x8 {
            Step::done(self.write_sound(x).next())
        } else if family == 0xF && y == 0x1 && n == 0xE {
            Step::done(self.add_index(x).next())
        } else if family == 0xF && y == 0x2 && n == 0x9 {
            Step::done(self.point_at_glyph(x).next())
        } else if family == 0xF && y == 0x3 && n == 0x3 {
            Step::done(self.store_decimal(x).next())
        } else if family == 0xF && y == 0x5 && n == 0x5 {
            Step::done(self.store_registers(x).next())
        } else if family == 0xF && y == 0x6 && n == 0x5 {
            if self.i + x >= 4096 {
                Step::stopped(self, Fault::AddressOutOfRange)
            } else {
                Step::done(self.load_registers(x).next())
            }
        } else {
            Step::done(self.next())
        }
    }

    // ---- the cycle ----

    /// Both timers one lower, each staying at zero once there.
    pub open spec fn ticked(self) -> CpuState {
        CpuState {
            delay_timer: if self.delay_timer > 0 { (self.delay_timer - 1) as u8 } else { 0 },
            sound_timer: if self.sound_timer > 0 { (self.sound_timer - 1) as u8 } else { 0 },
            ..self
        }
    }

    /// The instruction word at the program counter, high byte first.
    pub open spec fn word_at_pc(self) -> u16 {
        (self.memory[self.pc as int] * 256 + self.memory[self.pc as int + 1]) as u16
    }

    /// A suspended machine after it has looked at the keypad: with no key
    /// pressed nothing changes; with one pressed, the lowest such key goes to
    /// the register that waits for it and the machine runs again.
    pub open spec fn polled(self) -> CpuState {
        if any_pressed(self.keys) {
            CpuState {
                wait_for_input: false,
                v: self.v.update(self.input_address as int, first_pressed(self.keys) as u8),
                ..self
            }
        } else {
            self
        }
    }

    /// The state with the instruction word at the program counter kept as
    /// the word fetched last.
    pub open spec fn fetched(self) -> CpuState {
        CpuState { opcode: self.word_at_pc(), ..self }
    }

    /// The state a cycle begins with: the dirty flag cleared.
    pub open spec fn cycle_start(self) -> CpuState {
        CpuState { vram_changed: false, ..self }
    }

    /// One cycle. The dirty flag is cleared. A suspended machine only looks
    /// at the keypad, its timers standing still. A running machine ticks its
    /// timers, fetches the instruction at the program counter and executes it.
    pub open spec fn cycle(self, random: u8) -> Step {
        let start = self.cycle_start();
        if self.wait_for_input {
            Step::done(start.polled())
        } else if self.pc + 1 >= 4096 {
            Step::stopped(start.ticked(), Fault::AddressOutOfRange)
        } else {
            let fetched = start.ticked().fetched();
            fetched.execute(fetched.opcode, random)
        }
    }
}

} // verus!
