//! The mathematical model of the machine.

use vstd::prelude::*;
use crate::font::initial_memory;

verus! {

/// Number of addressable bytes.
pub const MEMORY_SIZE: usize = 4096;

/// Address at which programs are loaded and execution starts.
pub const PROGRAM_START: usize = 0x200;

/// Number of bytes a program may occupy.
pub const PROGRAM_CAPACITY: usize = 3584;

/// Number of return addresses the call stack holds.
pub const STACK_DEPTH: usize = 16;

/// Pixels per framebuffer row.
pub const SCREEN_WIDTH: usize = 64;

/// Rows of the framebuffer.
pub const SCREEN_HEIGHT: usize = 32;

/// The state of the machine as plain mathematical values.
#[verifier::ext_equal]
pub struct CpuState {
    /// The instruction word fetched last.
    pub opcode: u16,
    /// The 4096 bytes of memory.
    pub memory: Seq<u8>,
    /// The registers `V0` to `VF`.
    pub v: Seq<u8>,
    /// The address register `I`, sixteen bits wide.
    pub i: nat,
    /// Address of the next instruction.
    pub pc: nat,
    /// The sixteen slots of the call stack.
    pub stack: Seq<nat>,
    /// Index of the next free stack slot.
    pub sp: nat,
    /// The delay timer.
    pub delay_timer: u8,
    /// The sound timer.
    pub sound_timer: u8,
    /// The framebuffer: 32 rows of 64 pixels.
    pub vram: Seq<Seq<u8>>,
    /// Whether a draw instruction touched the framebuffer in the current cycle.
    pub vram_changed: bool,
    /// The sixteen keys of the pad.
    pub keys: Seq<bool>,
    /// Whether execution is suspended until a key is pressed.
    pub wait_for_input: bool,
    /// The register that receives the key once one is pressed.
    pub input_address: nat,
}

/// A framebuffer of the right shape.
pub open spec fn frame_shaped(frame: Seq<Seq<u8>>) -> bool {
    &&& frame.len() == 32
    &&& forall|y: int| 0 <= y < 32 ==> (#[trigger] frame[y]).len() == 64
}

/// A framebuffer whose pixels are all 0 or 1.
pub open spec fn frame_binary(frame: Seq<Seq<u8>>) -> bool {
    forall|y: int, x: int| 0 <= y < 32 && 0 <= x < 64 ==> #[trigger] frame[y][x] <= 1
}

/// The framebuffer with every pixel off.
pub open spec fn blank_frame() -> Seq<Seq<u8>> {
    Seq::new(32, |y: int| Seq::new(64, |x: int| 0u8))
}

impl CpuState {
    /// The shape every machine state has.
    pub open spec fn wf(self) -> bool {
        &&& self.memory.len() == 4096
        &&& self.v.len() == 16
        &&& self.i <= 0xFFFF
        &&& self.stack.len() == 16
        &&& self.sp <= 16
        &&& frame_shaped(self.vram)
        &&& self.keys.len() == 16
        &&& self.input_address < 16
    }

    /// The state a session starts in.
    pub open spec fn initial() -> CpuState {
        CpuState {
            opcode: 0,
            memory: initial_memory(),
            v: Seq::new(16, |k: int| 0u8),
            i: 0,
            pc: 0x200,
            stack: Seq::new(16, |k: int| 0nat),
            sp: 0,
            delay_timer: 0,
            sound_timer: 0,
            vram: blank_frame(),
            vram_changed: false,
            keys: Seq::new(16, |k: int| false),
            wait_for_input: false,
            input_address: 0,
        }
    }
}

} // verus!
