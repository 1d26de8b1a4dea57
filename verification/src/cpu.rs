//! The executable machine.

use vstd::prelude::*;
use crate::action::{Fault, PointerAction};
use crate::decode::{nibble, split};
use crate::font::{initial_memory, FONT_SET};
use crate::frame::{draw_sprite, frame_view};
use crate::random::random_byte;
use crate::semantics::{
    any_pressed, first_pressed, is_first_pressed, loaded, store_byte, write_byte,
};
use crate::state::{blank_frame, CpuState};

verus! {

/// What the host needs to know after a cycle.
pub struct CycleState<'a> {
    /// Whether the framebuffer changed in this cycle and has to be redrawn.
    pub vram_changed: bool,
    /// The framebuffer: 32 rows of 64 pixels.
    pub vram: &'a [[u8; 64]; 32],
    /// Whether the tone is on.
    pub sound: bool,
}

impl<'a> CycleState<'a> {
    /// The snapshot shows the machine in state `state`.
    pub open spec fn shows(self, state: CpuState) -> bool {
        &&& self.vram_changed == state.vram_changed
        &&& frame_view(*self.vram) == state.vram
        &&& self.sound == (state.sound_timer > 0)
    }
}

/// The machine: registers, memory, stack, timers, framebuffer and keypad.
pub struct Cpu {
    opcode: u16,
    memory: [u8; 4096],
    v: [u8; 16],
    pc: usize,
    i: u16,
    vram: [[u8; 64]; 32],
    vram_changed: bool,
    delay_timer: u8,
    sound_timer: u8,
    stack: [usize; 16],
    sp: usize,
    keys: [bool; 16],
    wait_for_input: bool,
    input_address: usize,
}

impl View for Cpu {
    type V = CpuState;

    closed spec fn view(&self) -> CpuState {
        CpuState {
            opcode: self.opcode,
            memory: self.memory@,
            v: self.v@,
            i: self.i as nat,
            pc: self.pc as nat,
            stack: Seq::new(16, |k: int| self.stack[k] as nat),
            sp: self.sp as nat,
            delay_timer: self.delay_timer,
            sound_timer: self.sound_timer,
            vram: frame_view(self.vram),
            vram_changed: self.vram_changed,
            keys: self.keys@,
            wait_for_input: self.wait_for_input,
            input_address: self.input_address as nat,
        }
    }
}

impl Cpu {
    /// The stack pointer stays within the stack and the waiting register is a register.
    #[verifier::type_invariant]
    spec fn inv(self) -> bool {
        self.sp <= 16 && self.input_address < 16
    }

    /// Every machine has the shape of the model. The call does nothing at
    /// run time; it hands the fact to a caller that holds a machine it did
    /// not make.
    pub fn well_formed(&self)
        ensures
            self@.wf(),
    {
        proof {
            use_type_invariant(self);
        }
    }

    /// A machine with the font loaded, everything else zero and the program
    /// counter at the start of program memory.
    pub fn new() -> (cpu: Cpu)
        ensures
            cpu@ == CpuState::initial(),
            cpu@.wf(),
    {
        let mut memory = [0u8; 4096];
        let mut k: usize = 0;
        while k < 80
            invariant
                k <= 80,
                forall|a: int| 0 <= a < k ==> memory[a] == FONT_SET[a],
                forall|a: int| k <= a < 4096 ==> memory[a] == 0,
            decreases 80 - k,
        {
            memory[k] = FONT_SET[k];
            k += 1;
        }
        let cpu = Cpu {
            opcode: 0,
            memory,
            v: [0; 16],
            pc: 0x200,
            i: 0,
            vram: [[0; 64]; 32],
            vram_changed: false,
            delay_timer: 0,
            sound_timer: 0,
            stack: [0; 16],
            sp: 0,
            keys: [false; 16],
            wait_for_input: false,
            input_address: 0,
        };
        proof {
            assert(cpu@.memory =~= initial_memory());
            assert(cpu@.v =~= CpuState::initial().v);
            assert(cpu@.stack =~= CpuState::initial().stack);
            assert(cpu@.keys =~= CpuState::initial().keys);
            assert(cpu@.vram =~~= blank_frame());
        }
        cpu
    }

    /// `00E0`: clear the display.
    pub fn op_00e0(&mut self) -> (action: PointerAction)
        ensures
            final(self)@ == old(self)@.cleared(),
            action == PointerAction::Next,
    {
        proof {
            use_type_invariant(&*self);
        }
        self.vram = [[0; 64]; 32];
        self.vram_changed = true;
        proof {
            assert(self@.vram =~~= blank_frame());
        }
        PointerAction::Next
    }

    /// `00EE`: return from a subroutine.
    pub fn op_00ee(&mut self) -> (result: Result<PointerAction, Fault>)
        ensures
            old(self)@.sp == 0 ==> result == Err::<PointerAction, Fault>(Fault::StackUnderflow)
                && final(self)@ == old(self)@,
            old(self)@.sp > 0 ==> final(self)@ == old(self)@.popped() && (result matches Ok(
                PointerAction::Jump(address),
            ) && address == old(self)@.return_address()),
    {
        proof {
            use_type_invariant(&*self);
        }
        if self.sp == 0 {
            return Err(Fault::StackUnderflow);
        }
        self.sp -= 1;
        Ok(PointerAction::Jump(self.stack[self.sp]))
    }

    /// `1nnn`: jump to `nnn`.
    pub fn op_1nnn(&mut self, nnn: usize) -> (action: PointerAction)
        ensures
            final(self)@ == old(self)@,
            action == PointerAction::Jump(nnn),
    {
        PointerAction::Jump(nnn)
    }

    /// `2nnn`: call the subroutine at `nnn`.
    pub fn op_2nnn(&mut self, nnn: usize) -> (result: Result<PointerAction, Fault>)
        requires
            old(self)@.pc + 2 <= usize::MAX,
        ensures
            old(self)@.sp >= 16 ==> result == Err::<PointerAction, Fault>(Fault::StackOverflow)
                && final(self)@ == old(self)@,
            old(self)@.sp < 16 ==> final(self)@ == old(self)@.pushed() && result == Ok::<
                PointerAction,
                Fault,
            >(PointerAction::Jump(nnn)),
    {
        proof {
            use_type_invariant(&*self);
        }
        if self.sp >= 16 {
            return Err(Fault::StackOverflow);
        }
        self.stack[self.sp] = self.pc + 2;
        self.sp += 1;
        proof {
            assert(self@.stack =~= old(self)@.pushed().stack);
        }
        Ok(PointerAction::Jump(nnn))
    }

    /// `3xkk`: skip the next instruction where `Vx == kk`.
    pub fn op_3xkk(&mut self, x: usize, kk: u8) -> (action: PointerAction)
        requires
            x < 16,
        ensures
            final(self)@ == old(self)@,
            action == PointerAction::skip_or_next_of(old(self)@.v[x as int] == kk),
    {
        PointerAction::skip_or_next(self.v[x] == kk)
    }

    /// `6xkk`: `Vx = kk`.
    pub fn op_6xkk(&mut self, x: usize, kk: u8) -> (action: PointerAction)
        requires
            x < 16,
        ensures
            final(self)@ == old(self)@.load_immediate(x as int, kk),
            action == PointerAction::Next,
    {
        proof {
            use_type_invariant(&*self);
        }
        self.v[x] = kk;
        PointerAction::Next
    }

    /// `7xkk`: `Vx = Vx + kk`, wrapping.
    pub fn op_7xkk(&mut self, x: usize, kk: u8) -> (action: PointerAction)
        requires
            x < 16,
        ensures
            final(self)@ == old(self)@.add_immediate(x as int, kk),
            action == PointerAction::Next,
    {
        proof {
            use_type_invariant(&*self);
        }
        self.v[x] = self.v[x].wrapping_add(kk);
        PointerAction::Next
    }

    /// `8xy4`: `Vx = Vx + Vy`, `VF` = carry.
    pub fn op_8xy4(&mut self, x: usize, y: usize) -> (action: PointerAction)
        requires
            x < 16,
            y < 16,
        ensures
            final(self)@ == old(self)@.add_registers(x as int, y as int),
            action == PointerAction::Next,
    {
        proof {
            use_type_invariant(&*self);
        }
        let value: u16 = self.v[x] as u16 + self.v[y] as u16;
        if value > 0xFF {
            self.v[0x0F] = 1;
        } else {
            self.v[0x0F] = 0;
        }
        self.v[x] = (value % 256) as u8;
        PointerAction::Next
    }

    /// `4xkk`: skip the next instruction where `Vx != kk`.
    pub fn op_4xkk(&mut self, x: usize, kk: u8) -> (action: PointerAction)
        requires
            x < 16,
        ensures
            final(self)@ == old(self)@,
            action == PointerAction::skip_or_next_of(old(self)@.v[x as int] != kk),
    {
        PointerAction::skip_or_next(self.v[x] != kk)
    }

    /// `5xy0`: skip the next instruction where `Vx == Vy`.
    pub fn op_5xy0(&mut self, x: usize, y: usize) -> (action: PointerAction)
        requires
            x < 16,
            y < 16,
        ensures
            final(self)@ == old(self)@,
            action == PointerAction::skip_or_next_of(old(self)@.v[x as int] == old(self)@.v[y as int]),
    {
        PointerAction::skip_or_next(self.v[x] == self.v[y])
    }

    /// `8xy0`: `Vx = Vy`.
    pub fn op_8xy0(&mut self, x: usize, y: usize) -> (action: PointerAction)
        requires
            x < 16,
            y < 16,
        ensures
            final(self)@ == old(self)@.copy_register(x as int, y as int),
            action == PointerAction::Next,
    {
        proof {
            use_type_invariant(&*self);
        }
        self.v[x] = self.v[y];
        PointerAction::Next
    }

    /// `8xy1`: `Vx = Vx | Vy`.
    pub fn op_8xy1(&mut self, x: usize, y: usize) -> (action: PointerAction)
        requires
            x < 16,
            y < 16,
        ensures
            final(self)@ == old(self)@.or_registers(x as int, y as int),
            action == PointerAction::Next,
    {
        proof {
            use_type_invariant(&*self);
        }
        let value: u8 = self.v[x] | self.v[y];
        self.v[x] = value;
        PointerAction::Next
    }

    /// `8xy2`: `Vx = Vx & Vy`.
    pub fn op_8xy2(&mut self, x: usize, y: usize) -> (action: PointerAction)
        requires
            x < 16,
            y < 16,
        ensures
            final(self)@ == old(self)@.and_registers(x as int, y as int),
            action == PointerAction::Next,
    {
        proof {
            use_type_invariant(&*self);
        }
        let value: u8 = self.v[x] & self.v[y];
        self.v[x] = value;
        PointerAction::Next
    }

    /// `8xy3`: `Vx = Vx ^ Vy`.
    pub fn op_8xy3(&mut self, x: usize, y: usize) -> (action: PointerAction)
        requires
            x < 16,
            y < 16,
        ensures
            final(self)@ == old(self)@.xor_registers(x as int, y as int),
            action == PointerAction::Next,
    {
        proof {
            use_type_invariant(&*self);
        }
        let value: u8 = self.v[x] ^ self.v[y];
        self.v[x] = value;
        PointerAction::Next
    }

    /// `8xy5`: `Vx = Vx - Vy`, wrapping; `VF` = 1 where `Vx > Vy`.
    pub fn op_8xy5(&mut self, x: usize, y: usize) -> (action: PointerAction)
        requires
            x < 16,
            y < 16,
        ensures
            final(self)@ == old(self)@.sub_registers(x as int, y as int),
            action == PointerAction::Next,
    {
        proof {
            use_type_invariant(&*self);
        }
        let a: u8 = self.v[x];
        let b: u8 = self.v[y];
        self.v[0x0F] = if a > b {
            1
        } else {
            0
        };
        self.v[x] = a.wrapping_sub(b);
        PointerAction::Next
    }

    /// `8xy6`: `Vx = Vx >> 1`; `VF` = the bit shifted out.
    pub fn op_8xy6(&mut self, x: usize) -> (action: PointerAction)
        requires
            x < 16,
        ensures
            final(self)@ == old(self)@.shift_right(x as int),
            action == PointerAction::Next,
    {
        proof {
            use_type_invariant(&*self);
        }
        let a: u8 = self.v[x];
        assert(a & 1 == a % 2 && a >> 1 == a / 2) by (bit_vector);
        self.v[0x0F] = a & 1;
        self.v[x] = a >> 1;
        PointerAction::Next
    }

    /// `8xy7`: `Vx = Vy - Vx`, wrapping; `VF` = 1 where `Vy > Vx`.
    pub fn op_8xy7(&mut self, x: usize, y: usize) -> (action: PointerAction)
        requires
            x < 16,
            y < 16,
        ensures
            final(self)@ == old(self)@.sub_reversed(x as int, y as int),
            action == PointerAction::Next,
    {
        proof {
            use_type_invariant(&*self);
        }
        let a: u8 = self.v[x];
        let b: u8 = self.v[y];
        self.v[0x0F] = if a < b {
            1
        } else {
            0
        };
        self.v[x] = b.wrapping_sub(a);
        PointerAction::Next
    }

    /// `8xyE`: `Vx = Vx << 1`; `VF` = the bit shifted out.
    pub fn op_8xye(&mut self, x: usize) -> (action: PointerAction)
        requires
            x < 16,
        ensures
            final(self)@ == old(self)@.shift_left(x as int),
            action == PointerAction::Next,
    {
        proof {
            use_type_invariant(&*self);
        }
        let a: u8 = self.v[x];
        assert((a & 0b10000000) >> 7 == a / 128 && a << 1 == (2 * a) % 256) by (bit_vector);
        self.v[0x0F] = (a & 0b10000000) >> 7;
        self.v[x] = a << 1;
        PointerAction::Next
    }

    /// `9xy0`: skip the next instruction where `Vx != Vy`.
    pub fn op_9xy0(&mut self, x: usize, y: usize) -> (action: PointerAction)
        requires
            x < 16,
            y < 16,
        ensures
            final(self)@ == old(self)@,
            action == PointerAction::skip_or_next_of(old(self)@.v[x as int] != old(self)@.v[y as int]),
    {
        PointerAction::skip_or_next(self.v[x] != self.v[y])
    }

    /// `Annn`: `I = nnn`.
    pub fn op_annn(&mut self, nnn: usize) -> (action: PointerAction)
        requires
            nnn <= 0xFFF,
        ensures
            final(self)@ == old(self)@.load_index(nnn as nat),
            action == PointerAction::Next,
    {
        proof {
            use_type_invariant(&*self);
        }
        self.i = nnn as u16;
        PointerAction::Next
    }

    /// `Bnnn`: jump to `nnn + V0`.
    pub fn op_bnnn(&mut self, nnn: usize) -> (action: PointerAction)
        requires
            nnn <= 0xFFF,
        ensures
            final(self)@ == old(self)@,
            action == PointerAction::Jump((nnn + old(self)@.v[0]) as usize),
    {
        PointerAction::Jump(nnn + self.v[0x00] as usize)
    }

    /// `Cxkk`: `Vx = random & kk`, for the random byte handed in.
    pub fn op_cxkk(&mut self, x: usize, kk: u8, random: u8) -> (action: PointerAction)
        requires
            x < 16,
        ensures
            final(self)@ == old(self)@.load_random(x as int, kk, random),
            action == PointerAction::Next,
    {
        proof {
            use_type_invariant(&*self);
        }
        self.v[x] = random & kk;
        PointerAction::Next
    }

    /// `Dxyn`: draw the `n`-byte sprite at `I` at `(Vx, Vy)`; `VF` = collision.
    pub fn op_dxyn(&mut self, x: usize, y: usize, n: usize) -> (result: Result<PointerAction, Fault>)
        requires
            x < 16,
            y < 16,
            n < 16,
        ensures
            old(self)@.i + n > 4096 ==> result == Err::<PointerAction, Fault>(
                Fault::AddressOutOfRange,
            ) && final(self)@ == old(self)@,
            old(self)@.i + n <= 4096 ==> final(self)@ == old(self)@.drawn(x as int, y as int, n as int)
                && result == Ok::<PointerAction, Fault>(PointerAction::Next),
    {
        proof {
            use_type_invariant(&*self);
        }
        let start: usize = self.i as usize;
        if start + n > 4096 {
            return Err(Fault::AddressOutOfRange);
        }
        let vx: u8 = self.v[x];
        let vy: u8 = self.v[y];
        let hit: u8 = draw_sprite(&mut self.vram, &self.memory, start, n, vx, vy);
        self.v[0x0F] = hit;
        self.vram_changed = true;
        proof {
            assert(self@.vram =~~= old(self)@.drawn(x as int, y as int, n as int).vram);
        }
        Ok(PointerAction::Next)
    }

    /// `Ex9E`: skip the next instruction where key `Vx` is pressed.
    pub fn op_ex9e(&mut self, x: usize) -> (action: PointerAction)
        requires
            x < 16,
        ensures
            final(self)@ == old(self)@,
            action == PointerAction::skip_or_next_of(old(self)@.key_down(old(self)@.v[x as int] as int)),
    {
        let key: usize = self.v[x] as usize;
        PointerAction::skip_or_next(key < 16 && self.keys[key])
    }

    /// `ExA1`: skip the next instruction where key `Vx` is not pressed.
    pub fn op_exa1(&mut self, x: usize) -> (action: PointerAction)
        requires
            x < 16,
        ensures
            final(self)@ == old(self)@,
            action == PointerAction::skip_or_next_of(
                !old(self)@.key_down(old(self)@.v[x as int] as int),
            ),
    {
        let key: usize = self.v[x] as usize;
        PointerAction::skip_or_next(!(key < 16 && self.keys[key]))
    }

    /// `Fx07`: `Vx` = delay timer.
    pub fn op_fx07(&mut self, x: usize) -> (action: PointerAction)
        requires
            x < 16,
        ensures
            final(self)@ == old(self)@.read_delay(x as int),
            action == PointerAction::Next,
    {
        proof {
            use_type_invariant(&*self);
        }
        self.v[x] = self.delay_timer;
        PointerAction::Next
    }

    /// `Fx0A`: wait for a key press and store the key in `Vx`.
    pub fn op_fx0a(&mut self, x: usize) -> (action: PointerAction)
        requires
            x < 16,
        ensures
            final(self)@ == old(self)@.awaiting(x as int),
            action == PointerAction::Next,
    {
        proof {
            use_type_invariant(&*self);
        }
        self.wait_for_input = true;
        self.input_address = x;
        PointerAction::Next
    }

    /// `Fx15`: delay timer = `Vx`.
    pub fn op_fx15(&mut self, x: usize) -> (action: PointerAction)
        requires
            x < 16,
        ensures
            final(self)@ == old(self)@.write_delay(x as int),
            action == PointerAction::Next,
    {
        proof {
            use_type_invariant(&*self);
        }
        self.delay_timer = self.v[x];
        PointerAction::Next
    }

    /// `Fx18`: sound timer = `Vx`.
    pub fn op_fx18(&mut self, x: usize) -> (action: PointerAction)
        requires
            x < 16,
        ensures
            final(self)@ == old(self)@.write_sound(x as int),
            action == PointerAction::Next,
    {
        proof {
            use_type_invariant(&*self);
        }
        self.sound_timer = self.v[x];
        PointerAction::Next
    }

    /// `Fx1E`: `I = I + Vx`, within sixteen bits.
    pub fn op_fx1e(&mut self, x: usize) -> (action: PointerAction)
        requires
            x < 16,
        ensures
            final(self)@ == old(self)@.add_index(x as int),
            action == PointerAction::Next,
    {
        proof {
            use_type_invariant(&*self);
        }
        let sum: u32 = self.i as u32 + self.v[x] as u32;
        self.i = (sum % 0x10000) as u16;
        PointerAction::Next
    }

    /// `Fx29`: `I` = address of the glyph for the digit `Vx`.
    pub fn op_fx29(&mut self, x: usize) -> (action: PointerAction)
        requires
            x < 16,
        ensures
            final(self)@ == old(self)@.point_at_glyph(x as int),
            action == PointerAction::Next,
    {
        proof {
            use_type_invariant(&*self);
        }
        self.i = self.v[x] as u16 * 5;
        PointerAction::Next
    }

    /// `Fx33`: the decimal digits of `Vx` at `I`, `I + 1` and `I + 2`.
    pub fn op_fx33(&mut self, x: usize) -> (action: PointerAction)
        requires
            x < 16,
        ensures
            final(self)@ == old(self)@.store_decimal(x as int),
            action == PointerAction::Next,
    {
        let a: u8 = self.v[x];
        let i: usize = self.i as usize;
        self.store(i, a / 100);
        self.store(i + 1, (a / 10) % 10);
        self.store(i + 2, a % 10);
        PointerAction::Next
    }

    /// `Fx55`: store `V0` to `Vx` in memory from `I` on.
    pub fn op_fx55(&mut self, x: usize) -> (action: PointerAction)
        requires
            x < 16,
        ensures
            final(self)@ == old(self)@.store_registers(x as int),
            action == PointerAction::Next,
    {
        let start: usize = self.i as usize;
        let mut k: usize = 0;
        while k <= x
            invariant
                x < 16,
                k <= x + 1,
                start == old(self)@.i,
                self@ == (CpuState { memory: self@.memory, ..old(self)@ }),
                self@.memory.len() == 4096,
                forall|a: int|
                    0 <= a < 4096 ==> self@.memory[a] == (if 80 <= a && start <= a < start + k {
                        old(self)@.v[a - start]
                    } else {
                        old(self)@.memory[a]
                    }),
            decreases x + 1 - k,
        {
            let value: u8 = self.v[k];
            self.store(start + k, value);
            k += 1;
        }
        proof {
            assert(self@.memory =~= old(self)@.store_registers(x as int).memory);
        }
        PointerAction::Next
    }

    /// `Fx65`: load `V0` to `Vx` from memory from `I` on.
    pub fn op_fx65(&mut self, x: usize) -> (result: Result<PointerAction, Fault>)
        requires
            x < 16,
        ensures
            old(self)@.i + x >= 4096 ==> result == Err::<PointerAction, Fault>(
                Fault::AddressOutOfRange,
            ) && final(self)@ == old(self)@,
            old(self)@.i + x < 4096 ==> final(self)@ == old(self)@.load_registers(x as int)
                && result == Ok::<PointerAction, Fault>(PointerAction::Next),
    {
        proof {
            use_type_invariant(&*self);
        }
        let start: usize = self.i as usize;
        if start + x >= 4096 {
            return Err(Fault::AddressOutOfRange);
        }
        let mut k: usize = 0;
        while k <= x
            invariant
                x < 16,
                k <= x + 1,
                start + x < 4096,
                start == old(self)@.i,
                self.sp <= 16,
                self.input_address < 16,
                self@ == (CpuState { v: self@.v, ..old(self)@ }),
                self@.v.len() == 16,
                forall|j: int|
                    0 <= j < 16 ==> self@.v[j] == (if j < k {
                        old(self)@.memory[start + j]
                    } else {
                        old(self)@.v[j]
                    }),
            decreases x + 1 - k,
        {
            self.v[k] = self.memory[start + k];
            k += 1;
        }
        proof {
            assert(self@.v =~= old(self)@.load_registers(x as int).v);
        }
        Ok(PointerAction::Next)
    }

    /// Store `value` at `address` on behalf of an instruction; a store into
    /// the font or past the end of memory is dropped.
    fn store(&mut self, address: usize, value: u8)
        ensures
            final(self)@ == (CpuState {
                memory: store_byte(old(self)@.memory, address as int, value),
                ..old(self)@
            }),
    {
        proof {
            use_type_invariant(&*self);
        }
        if 80 <= address && address < 4096 {
            self.memory[address] = value;
        }
    }

    /// Write `value` at `address` on behalf of the host; a write past the
    /// end of memory is dropped.
    pub fn write_memory(&mut self, address: usize, value: u8)
        ensures
            final(self)@ == (CpuState {
                memory: write_byte(old(self)@.memory, address as int, value),
                ..old(self)@
            }),
    {
        proof {
            use_type_invariant(&*self);
        }
        if address < 4096 {
            self.memory[address] = value;
        }
    }

    /// Execute one instruction word and move the program counter as the
    /// instruction asks, with `random` as the byte that `Cxkk` draws. A word
    /// that is no instruction only moves the program counter on. On a fault
    /// the machine is left as it was.
    pub fn run_opcode_with(&mut self, opcode: u16, random: u8) -> (result: Result<(), Fault>)
        requires
            old(self)@.pc + 4 <= usize::MAX,
        ensures
            final(self)@ == old(self)@.execute(opcode, random).state,
            result == old(self)@.execute(opcode, random).outcome(),
            final(self)@.wf(),
    {
        proof {
            use_type_invariant(&*self);
        }
        let parts = split(opcode);
        let nnn: usize = parts.nnn;
        let kk: u8 = parts.kk;
        let x: usize = parts.nibbles.1 as usize;
        let y: usize = parts.nibbles.2 as usize;
        let n: usize = parts.nibbles.3 as usize;

        let pc_action: Result<PointerAction, Fault> = match parts.nibbles {
            (0x00, 0x00, 0x0e, 0x00) => Ok(self.op_00e0()),
            (0x00, 0x00, 0x0e, 0x0e) => self.op_00ee(),
            (0x01, _, _, _) => Ok(self.op_1nnn(nnn)),
            (0x02, _, _, _) => self.op_2nnn(nnn),
            (0x03, _, _, _) => Ok(self.op_3xkk(x, kk)),
            (0x04, _, _, _) => Ok(self.op_4xkk(x, kk)),
            (0x05, _, _, 0x00) => Ok(self.op_5xy0(x, y)),
            (0x06, _, _, _) => Ok(self.op_6xkk(x, kk)),
            (0x07, _, _, _) => Ok(self.op_7xkk(x, kk)),
            (0x08, _, _, 0x00) => Ok(self.op_8xy0(x, y)),
            (0x08, _, _, 0x01) => Ok(self.op_8xy1(x, y)),
            (0x08, _, _, 0x02) => Ok(self.op_8xy2(x, y)),
            (0x08, _, _, 0x03) => Ok(self.op_8xy3(x, y)),
            (0x08, _, _, 0x04) => Ok(self.op_8xy4(x, y)),
            (0x08, _, _, 0x05) => Ok(self.op_8xy5(x, y)),
            (0x08, _, _, 0x06) => Ok(self.op_8xy6(x)),
            (0x08, _, _, 0x07) => Ok(self.op_8xy7(x, y)),
            (0x08, _, _, 0x0E) => Ok(self.op_8xye(x)),
            (0x09, _, _, 0x00) => Ok(self.op_9xy0(x, y)),
            (0x0A, _, _, _) => Ok(self.op_annn(nnn)),
            (0x0B, _, _, _) => Ok(self.op_bnnn(nnn)),
            (0x0C, _, _, _) => Ok(self.op_cxkk(x, kk, random)),
            (0x0D, _, _, _) => self.op_dxyn(x, y, n),
            (0x0E, _, 0x09, 0x0E) => Ok(self.op_ex9e(x)),
            (0x0E, _, 0x0A, 0x01) => Ok(self.op_exa1(x)),
            (0x0f, _, 0x00, 0x07) => Ok(self.op_fx07(x)),
            (0x0f, _, 0x00, 0x0A) => Ok(self.op_fx0a(x)),
            (0x0f, _, 0x01, 0x05) => Ok(self.op_fx15(x)),
            (0x0f, _, 0x01, 0x08) => Ok(self.op_fx18(x)),
            (0x0f, _, 0x01, 0x0E) => Ok(self.op_fx1e(x)),
            (0x0f, _, 0x02, 0x09) => Ok(self.op_fx29(x)),
            (0x0f, _, 0x03, 0x03) => Ok(self.op_fx33(x)),
            (0x0f, _, 0x05, 0x05) => Ok(self.op_fx55(x)),
            (0x0f, _, 0x06, 0x05) => self.op_fx65(x),
            _ => Ok(PointerAction::Next),
        };

        proof {
            use_type_invariant(&*self);
        }
        match pc_action {
            Ok(PointerAction::Next) => {
                self.pc += 2;
                Ok(())
            },
            Ok(PointerAction::Skip) => {
                self.pc += 4;
                Ok(())
            },
            Ok(PointerAction::Jump(address)) => {
                self.pc = address;
                Ok(())
            },
            Err(fault) => Err(fault),
        }
    }

    /// Execute one instruction word as `run_opcode_with` does, drawing the
    /// byte for `Cxkk` from the random source.
    pub fn run_opcode(&mut self, opcode: u16) -> (result: Result<(), Fault>)
        requires
            old(self)@.pc + 4 <= usize::MAX,
        ensures
            exists|random: u8|
                final(self)@ == (#[trigger] old(self)@.execute(opcode, random)).state && result == old(
                    self,
                )@.execute(opcode, random).outcome(),
            nibble(opcode, 0) != 0xC ==> final(self)@ == old(self)@.execute(opcode, 0).state && result
                == old(self)@.execute(opcode, 0).outcome(),
            final(self)@.wf(),
    {
        assert(opcode >> 12 == opcode / 0x1000) by (bit_vector);
        let random: u8 = if opcode >> 12 == 0xC {
            random_byte()
        } else {
            0
        };
        self.run_opcode_with(opcode, random)
    }

    /// Read the instruction word at the program counter, high byte first,
    /// and keep it as the word fetched last.
    pub fn fetch_and_decode_opcode(&mut self) -> (result: Result<u16, Fault>)
        ensures
            old(self)@.pc + 1 >= 4096 ==> result == Err::<u16, Fault>(Fault::AddressOutOfRange)
                && final(self)@ == old(self)@,
            old(self)@.pc + 1 < 4096 ==> result == Ok::<u16, Fault>(old(self)@.word_at_pc())
                && final(self)@ == old(self)@.fetched(),
    {
        proof {
            use_type_invariant(&*self);
        }
        if self.pc >= 4095 {
            return Err(Fault::AddressOutOfRange);
        }
        let high: u8 = self.memory[self.pc];
        let low: u8 = self.memory[self.pc + 1];
        let byte1: u16 = (high as u16) << 8;
        let byte2: u16 = low as u16;
        assert(((high as u16) << 8) | (low as u16) == high * 256 + low) by (bit_vector);
        self.opcode = byte1 | byte2;
        Ok(self.opcode)
    }

    /// Lower both timers by one, each staying at zero once there.
    pub fn tick_timers(&mut self)
        ensures
            final(self)@ == old(self)@.ticked(),
    {
        proof {
            use_type_invariant(&*self);
        }
        if self.sound_timer > 0 {
            self.sound_timer -= 1;
        }
        if self.delay_timer > 0 {
            self.delay_timer -= 1;
        }
    }

    /// Look at the keypad on behalf of a suspended machine: the lowest key
    /// that is pressed goes to the waiting register and ends the wait.
    pub fn poll_keys(&mut self)
        ensures
            final(self)@ == old(self)@.polled(),
    {
        proof {
            use_type_invariant(&*self);
        }
        let mut k: usize = 0;
        while k < 16
            invariant
                k <= 16,
                self@ == old(self)@,
                self.sp <= 16,
                self.input_address < 16,
                forall|j: int| 0 <= j < k ==> !self@.keys[j],
            decreases 16 - k,
        {
            if self.keys[k] {
                proof {
                    assert(is_first_pressed(self@.keys, k as int));
                    assert(first_pressed(self@.keys) == k);
                    assert(any_pressed(self@.keys));
                }
                self.wait_for_input = false;
                self.v[self.input_address] = k as u8;
                return ;
            }
            k += 1;
        }
        proof {
            assert(!any_pressed(self@.keys));
        }
    }

    /// The first half of a cycle: clear the dirty flag; a suspended machine
    /// looks at the keypad; a running one ticks its timers and fetches the
    /// instruction that the second half executes.
    fn begin_cycle(&mut self) -> (result: Result<Option<u16>, Fault>)
        ensures
            old(self)@.wait_for_input ==> {
                &&& result == Ok::<Option<u16>, Fault>(None)
                &&& final(self)@ == old(self)@.cycle_start().polled()
            },
            !old(self)@.wait_for_input && old(self)@.pc + 1 >= 4096 ==> {
                &&& result == Err::<Option<u16>, Fault>(Fault::AddressOutOfRange)
                &&& final(self)@ == old(self)@.cycle_start().ticked()
            },
            !old(self)@.wait_for_input && old(self)@.pc + 1 < 4096 ==> {
                &&& result == Ok::<Option<u16>, Fault>(Some(final(self)@.opcode))
                &&& final(self)@ == old(self)@.cycle_start().ticked().fetched()
            },
    {
        proof {
            use_type_invariant(&*self);
        }
        self.vram_changed = false;
        if self.wait_for_input {
            self.poll_keys();
            Ok(None)
        } else {
            self.tick_timers();
            match self.fetch_and_decode_opcode() {
                Err(fault) => Err(fault),
                Ok(opcode) => Ok(Some(opcode)),
            }
        }
    }

    /// What the host needs to know of the machine as it stands.
    pub fn snapshot(&self) -> (snapshot: CycleState<'_>)
        ensures
            snapshot.shows(self@),
    {
        CycleState { vram_changed: self.vram_changed, vram: &self.vram, sound: self.sound_timer > 0 }
    }

    /// One cycle with `random` as the byte that `Cxkk` draws: clear the
    /// dirty flag; a suspended machine looks at the keypad, its timers
    /// standing still; a running one ticks its timers, fetches and executes
    /// one instruction.
    pub fn cycle_with(&mut self, random: u8) -> (result: Result<CycleState<'_>, Fault>)
        ensures
            final(self)@ == old(self)@.cycle(random).state,
            match result {
                Ok(snapshot) => old(self)@.cycle(random).fault is None && snapshot.shows(final(self)@),
                Err(fault) => old(self)@.cycle(random).fault == Some(fault),
            },
            final(self)@.wf(),
    {
        proof {
            use_type_invariant(&*self);
        }
        match self.begin_cycle() {
            Err(fault) => {
                return Err(fault);
            },
            Ok(None) => {},
            Ok(Some(opcode)) => {
                match self.run_opcode_with(opcode, random) {
                    Err(fault) => {
                        return Err(fault);
                    },
                    Ok(()) => {},
                }
            },
        }
        proof {
            use_type_invariant(&*self);
        }
        Ok(self.snapshot())
    }

    /// One cycle as `cycle_with` does it, the byte for `Cxkk` drawn from the
    /// random source where the instruction asks for one.
    pub fn cycle(&mut self) -> (result: Result<CycleState<'_>, Fault>)
        ensures
            exists|random: u8|
                final(self)@ == (#[trigger] old(self)@.cycle(random)).state && match result {
                    Ok(snapshot) => old(self)@.cycle(random).fault is None && snapshot.shows(
                        final(self)@,
                    ),
                    Err(fault) => old(self)@.cycle(random).fault == Some(fault),
                },
            final(self)@.wf(),
    {
        proof {
            use_type_invariant(&*self);
        }
        let ghost before = self@;
        match self.begin_cycle() {
            Err(fault) => {
                proof {
                    assert(self@ == before.cycle(0).state);
                }
                return Err(fault);
            },
            Ok(None) => {
                proof {
                    assert(self@ == before.cycle(0).state);
                }
            },
            Ok(Some(opcode)) => {
                let ghost fetched = self@;
                let executed = self.run_opcode(opcode);
                proof {
                    let random = choose|random: u8|
                        self@ == (#[trigger] fetched.execute(opcode, random)).state && executed
                            == fetched.execute(opcode, random).outcome();
                    assert(self@ == before.cycle(random).state);
                }
                match executed {
                    Err(fault) => {
                        return Err(fault);
                    },
                    Ok(()) => {},
                }
            },
        }
        proof {
            use_type_invariant(&*self);
        }
        Ok(self.snapshot())
    }

    /// Load a program at `0x200`; the bytes that do not fit below the end of
    /// memory are dropped.
    pub fn read_data_to_memory(&mut self, input: &[u8])
        ensures
            final(self)@ == (CpuState { memory: loaded(old(self)@.memory, input@), ..old(self)@ }),
    {
        proof {
            use_type_invariant(&*self);
        }
        let mut k: usize = 0;
        while k < input.len() && k < 3584
            invariant
                k <= 3584,
                k <= input.len(),
                self.sp <= 16,
                self.input_address < 16,
                self@ == (CpuState { memory: self@.memory, ..old(self)@ }),
                self@.memory.len() == 4096,
                forall|a: int|
                    0 <= a < 4096 ==> self@.memory[a] == (if 0x200 <= a < 0x200 + k {
                        input@[a - 0x200]
                    } else {
                        old(self)@.memory[a]
                    }),
            decreases 3584 - k,
        {
            self.memory[0x200 + k] = input[k];
            k += 1;
        }
        proof {
            assert(self@.memory =~= loaded(old(self)@.memory, input@));
        }
    }

    // ---- reading and setting the state ----

    /// The instruction word fetched last.
    pub fn opcode(&self) -> (r: u16)
        ensures
            r == self@.opcode,
    {
        self.opcode
    }

    /// The program counter.
    pub fn pc(&self) -> (r: usize)
        ensures
            r == self@.pc,
    {
        self.pc
    }

    /// Set the program counter.
    pub fn set_pc(&mut self, pc: usize)
        ensures
            final(self)@ == (CpuState { pc: pc as nat, ..old(self)@ }),
    {
        proof {
            use_type_invariant(&*self);
        }
        self.pc = pc;
    }

    /// The address register `I`.
    pub fn i(&self) -> (r: usize)
        ensures
            r == self@.i,
    {
        self.i as usize
    }

    /// Set the address register `I`.
    pub fn set_i(&mut self, i: u16)
        ensures
            final(self)@ == (CpuState { i: i as nat, ..old(self)@ }),
    {
        proof {
            use_type_invariant(&*self);
        }
        self.i = i;
    }

    /// The registers `V0` to `VF`.
    pub fn v(&self) -> (r: &[u8; 16])
        ensures
            r@ == self@.v,
    {
        &self.v
    }

    /// Set all sixteen registers.
    pub fn set_v(&mut self, registers: [u8; 16])
        ensures
            final(self)@ == (CpuState { v: registers@, ..old(self)@ }),
    {
        proof {
            use_type_invariant(&*self);
        }
        self.v = registers;
    }

    /// Set the register `Vx`.
    pub fn set_register(&mut self, x: usize, value: u8)
        requires
            x < 16,
        ensures
            final(self)@ == (CpuState { v: old(self)@.v.update(x as int, value), ..old(self)@ }),
    {
        proof {
            use_type_invariant(&*self);
        }
        self.v[x] = value;
    }

    /// The 4096 bytes of memory.
    pub fn memory(&self) -> (r: &[u8; 4096])
        ensures
            r@ == self@.memory,
    {
        &self.memory
    }

    /// The number of return addresses on the stack.
    pub fn sp(&self) -> (r: usize)
        ensures
            r == self@.sp,
    {
        self.sp
    }

    /// Set the number of return addresses on the stack.
    pub fn set_sp(&mut self, sp: usize)
        requires
            sp <= 16,
        ensures
            final(self)@ == (CpuState { sp: sp as nat, ..old(self)@ }),
    {
        proof {
            use_type_invariant(&*self);
        }
        self.sp = sp;
    }

    /// The sixteen slots of the call stack.
    pub fn stack(&self) -> (r: &[usize; 16])
        ensures
            r@.len() == 16,
            forall|k: int| 0 <= k < 16 ==> r@[k] == self@.stack[k],
    {
        &self.stack
    }

    /// Put `address` into slot `slot` of the call stack.
    pub fn set_stack_entry(&mut self, slot: usize, address: usize)
        requires
            slot < 16,
        ensures
            final(self)@ == (CpuState {
                stack: old(self)@.stack.update(slot as int, address as nat),
                ..old(self)@
            }),
    {
        proof {
            use_type_invariant(&*self);
        }
        self.stack[slot] = address;
        proof {
            assert(self@.stack =~= old(self)@.stack.update(slot as int, address as nat));
        }
    }

    /// The sixteen keys of the pad.
    pub fn keys(&self) -> (r: &[bool; 16])
        ensures
            r@ == self@.keys,
    {
        &self.keys
    }

    /// Set the state of all sixteen keys.
    pub fn set_keys(&mut self, keys: [bool; 16])
        ensures
            final(self)@ == (CpuState { keys: keys@, ..old(self)@ }),
    {
        proof {
            use_type_invariant(&*self);
        }
        self.keys = keys;
    }

    /// Set the state of one key.
    pub fn set_key(&mut self, key: usize, pressed: bool)
        requires
            key < 16,
        ensures
            final(self)@ == (CpuState { keys: old(self)@.keys.update(key as int, pressed), ..old(self)@ }),
    {
        proof {
            use_type_invariant(&*self);
        }
        self.keys[key] = pressed;
    }

    /// The framebuffer: 32 rows of 64 pixels.
    pub fn vram(&self) -> (r: &[[u8; 64]; 32])
        ensures
            frame_view(*r) == self@.vram,
    {
        &self.vram
    }

    /// Set the whole framebuffer.
    pub fn set_vram(&mut self, frame: [[u8; 64]; 32])
        ensures
            final(self)@ == (CpuState { vram: frame_view(frame), ..old(self)@ }),
    {
        proof {
            use_type_invariant(&*self);
        }
        self.vram = frame;
    }

    /// Set the pixel in row `y` and column `x`.
    pub fn set_pixel(&mut self, y: usize, x: usize, value: u8)
        requires
            y < 32,
            x < 64,
        ensures
            final(self)@ == (CpuState {
                vram: old(self)@.vram.update(y as int, old(self)@.vram[y as int].update(x as int, value)),
                ..old(self)@
            }),
    {
        proof {
            use_type_invariant(&*self);
        }
        self.vram[y][x] = value;
        proof {
            assert(self@.vram =~~= old(self)@.vram.update(
                y as int,
                old(self)@.vram[y as int].update(x as int, value),
            ));
        }
    }

    /// Whether the framebuffer changed in the last cycle.
    pub fn vram_changed(&self) -> (r: bool)
        ensures
            r == self@.vram_changed,
    {
        self.vram_changed
    }

    /// The delay timer.
    pub fn delay_timer(&self) -> (r: u8)
        ensures
            r == self@.delay_timer,
    {
        self.delay_timer
    }

    /// Set the delay timer.
    pub fn set_delay_timer(&mut self, value: u8)
        ensures
            final(self)@ == (CpuState { delay_timer: value, ..old(self)@ }),
    {
        proof {
            use_type_invariant(&*self);
        }
        self.delay_timer = value;
    }

    /// The sound timer.
    pub fn sound_timer(&self) -> (r: u8)
        ensures
            r == self@.sound_timer,
    {
        self.sound_timer
    }

    /// Set the sound timer.
    pub fn set_sound_timer(&mut self, value: u8)
        ensures
            final(self)@ == (CpuState { sound_timer: value, ..old(self)@ }),
    {
        proof {
            use_type_invariant(&*self);
        }
        self.sound_timer = value;
    }

    /// Whether the machine is suspended until a key is pressed.
    pub fn wait_for_input(&self) -> (r: bool)
        ensures
            r == self@.wait_for_input,
    {
        self.wait_for_input
    }

    /// The register that receives the key the machine waits for.
    pub fn input_address(&self) -> (r: usize)
        ensures
            r == self@.input_address,
    {
        self.input_address
    }
}

} // verus!
