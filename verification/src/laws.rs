//! Laws that hold of the instruction semantics.

use vstd::prelude::*;
use crate::decode::{byte_of, nibble};
use crate::frame::{collides, draw_frame, hits, sprite_pixel};
use crate::semantics::{any_pressed, first_pressed, is_first_pressed};
use crate::state::{frame_binary, frame_shaped, CpuState};

verus! {

/// The state after the instruction `opcode` has been executed `count` times over.
pub open spec fn executed_repeatedly(s: CpuState, opcode: u16, random: u8, count: nat) -> CpuState
    decreases count,
{
    if count == 0 {
        s
    } else {
        executed_repeatedly(s.execute(opcode, random).state, opcode, random, (count - 1) as nat)
    }
}

proof fn lemma_execute_add_immediate(s: CpuState, opcode: u16, random: u8)
    requires
        nibble(opcode, 0) == 0x7,
    ensures
        s.execute(opcode, random).state == s.add_immediate(nibble(opcode, 1), byte_of(opcode)).next(),
{
}

/// The state after `count` instructions `7x01`.
spec fn added_one_repeatedly(s: CpuState, x: int, count: nat) -> CpuState {
    CpuState { v: s.v.update(x, ((s.v[x] + count) % 256) as u8), pc: s.pc + 2 * count, ..s }
}

proof fn lemma_add_one_more(s: CpuState, x: int, count: nat)
    requires
        s.wf(),
        0 <= x < 16,
        count > 0,
    ensures
        added_one_repeatedly(s.add_immediate(x, 1).next(), x, (count - 1) as nat)
            == added_one_repeatedly(s, x, count),
{
    let t = s.add_immediate(x, 1).next();
    assert(t.v.update(x, ((t.v[x] + (count - 1)) % 256) as u8) =~= s.v.update(
        x,
        ((s.v[x] + count) % 256) as u8,
    ));
}

proof fn lemma_add_one_repeatedly(s: CpuState, one: u16, random: u8, count: nat)
    requires
        s.wf(),
        nibble(one, 0) == 0x7,
        byte_of(one) == 1,
    ensures
        executed_repeatedly(s, one, random, count) == added_one_repeatedly(s, nibble(one, 1), count),
    decreases count,
{
    let x = nibble(one, 1);
    if count == 0 {
        assert(s.v.update(x, ((s.v[x] + 0) % 256) as u8) =~= s.v);
    } else {
        let t = s.add_immediate(x, 1).next();
        lemma_execute_add_immediate(s, one, random);
        lemma_add_one_repeatedly(t, one, random, (count - 1) as nat);
        lemma_add_one_more(s, x, count);
    }
}

proof fn lemma_gone_round(s: CpuState, x: int, kk: u8)
    requires
        s.wf(),
        0 <= x < 16,
    ensures
        s.add_immediate(x, kk).next().wf(),
        added_one_repeatedly(s.add_immediate(x, kk).next(), x, (256 - kk) as nat) == (CpuState {
            pc: (s.pc + 2 * (257 - kk)) as nat,
            ..s
        }),
{
    let t = s.add_immediate(x, kk).next();
    assert(t.v.update(x, ((t.v[x] + (256 - kk)) % 256) as u8) =~= s.v);
}

/// `7xkk` followed by `256 - kk` instructions `7x01` leaves every register
/// as it was: `Vx` has gone once round. Nothing else has changed but the
/// program counter, which has passed the `257 - kk` instructions.
pub proof fn law_add_immediate_goes_round(s: CpuState, add: u16, one: u16, random: u8)
    requires
        s.wf(),
        nibble(add, 0) == 0x7,
        nibble(one, 0) == 0x7,
        nibble(one, 1) == nibble(add, 1),
        byte_of(one) == 1,
    ensures
        executed_repeatedly(
            s.execute(add, random).state,
            one,
            random,
            (256 - byte_of(add)) as nat,
        ).v == s.v,
        executed_repeatedly(s.execute(add, random).state, one, random, (256 - byte_of(add)) as nat)
            == (CpuState { pc: (s.pc + 2 * (257 - byte_of(add))) as nat, ..s }),
{
    let x = nibble(add, 1);
    let kk = byte_of(add);
    let t = s.add_immediate(x, kk).next();
    lemma_execute_add_immediate(s, add, random);
    lemma_gone_round(s, x, kk);
    lemma_add_one_repeatedly(t, one, random, (256 - kk) as nat);
}

/// `8xy4` leaves in `Vx` the sum of what the two registers held modulo 256,
/// and where `x` is not 15 it leaves in `VF` 1 if that sum is above 255 and
/// 0 if it is not. No other register changes.
pub proof fn law_add_registers(s: CpuState, opcode: u16, random: u8)
    requires
        s.wf(),
        nibble(opcode, 0) == 0x8,
        nibble(opcode, 3) == 0x4,
    ensures
        ({
            let x = nibble(opcode, 1);
            let y = nibble(opcode, 2);
            let after = s.execute(opcode, random).state;
            &&& after.v[x] == (s.v[x] + s.v[y]) % 256
            &&& x != 15 ==> (after.v[15] == 1 <==> s.v[x] + s.v[y] > 255)
            &&& x != 15 ==> (after.v[15] == 0 <==> s.v[x] + s.v[y] <= 255)
            &&& forall|k: int| 0 <= k < 15 && k != x ==> after.v[k] == s.v[k]
        }),
{
}

/// `8xy5` leaves in `Vx` the difference of what the two registers held
/// modulo 256, and where `x` is not 15 it leaves in `VF` 1 if `Vx` was above
/// `Vy` and 0 if it was not. No other register changes.
pub proof fn law_sub_registers(s: CpuState, opcode: u16, random: u8)
    requires
        s.wf(),
        nibble(opcode, 0) == 0x8,
        nibble(opcode, 3) == 0x5,
    ensures
        ({
            let x = nibble(opcode, 1);
            let y = nibble(opcode, 2);
            let after = s.execute(opcode, random).state;
            &&& after.v[x] == (s.v[x] - s.v[y]) % 256
            &&& x != 15 ==> (after.v[15] == 1 <==> s.v[x] > s.v[y])
            &&& x != 15 ==> (after.v[15] == 0 <==> s.v[x] <= s.v[y])
            &&& forall|k: int| 0 <= k < 15 && k != x ==> after.v[k] == s.v[k]
        }),
{
}

/// Whether drawing the sprite at `(vx, vy)` turns the screen pixel `(x, y)`
/// on: the sprite's pixel is on and the screen's is off.
pub open spec fn lights(frame: Seq<Seq<u8>>, sprite: Seq<u8>, vx: int, vy: int, y: int, x: int) -> bool {
    sprite_pixel(sprite, vx, vy, y, x) == 1 && frame[y][x] & 1 == 0
}

/// Whether drawing the sprite at `(vx, vy)` turns any screen pixel on.
pub open spec fn lights_any(frame: Seq<Seq<u8>>, sprite: Seq<u8>, vx: int, vy: int) -> bool {
    exists|y: int, x: int| 0 <= y < 32 && 0 <= x < 64 && #[trigger] lights(frame, sprite, vx, vy, y, x)
}

proof fn lemma_xor_twice(pixel: u8, row: u8, shift: u8)
    by (bit_vector)
    ensures
        (pixel ^ ((row >> shift) & 1)) ^ ((row >> shift) & 1) == pixel,
        (((row >> shift) & 1) & (pixel ^ ((row >> shift) & 1)) == 1) <==> ((row >> shift) & 1 == 1
            && pixel & 1 == 0),
        (pixel ^ 0) ^ 0 == pixel,
        0u8 & (pixel ^ 0) != 1,
{
}

proof fn lemma_pixel_twice(frame: Seq<Seq<u8>>, sprite: Seq<u8>, vx: int, vy: int, y: int, x: int)
    requires
        frame_shaped(frame),
        0 <= y < 32,
        0 <= x < 64,
    ensures
        draw_frame(draw_frame(frame, sprite, vx, vy), sprite, vx, vy)[y][x] == frame[y][x],
        hits(draw_frame(frame, sprite, vx, vy), sprite, vx, vy, y, x) <==> lights(
            frame,
            sprite,
            vx,
            vy,
            y,
            x,
        ),
{
    let dy = (y - vy) % 32;
    let dx = (x - vx) % 64;
    if dy < sprite.len() && dx < 8 {
        lemma_xor_twice(frame[y][x], sprite[dy], (7 - dx) as u8);
    } else {
        lemma_xor_twice(frame[y][x], 0, 0);
    }
}

/// Drawing a sprite twice at the same place gives back the framebuffer as
/// it was before the first draw, and the second draw turns a pixel off just
/// where the first turned one on.
pub proof fn law_draw_twice_restores_frame(frame: Seq<Seq<u8>>, sprite: Seq<u8>, vx: int, vy: int)
    requires
        frame_shaped(frame),
    ensures
        draw_frame(draw_frame(frame, sprite, vx, vy), sprite, vx, vy) == frame,
        forall|y: int, x: int|
            0 <= y < 32 && 0 <= x < 64 ==> (#[trigger] hits(
                draw_frame(frame, sprite, vx, vy),
                sprite,
                vx,
                vy,
                y,
                x,
            ) <==> lights(frame, sprite, vx, vy, y, x)),
        collides(draw_frame(frame, sprite, vx, vy), sprite, vx, vy) <==> lights_any(
            frame,
            sprite,
            vx,
            vy,
        ),
{
    let once = draw_frame(frame, sprite, vx, vy);
    let twice = draw_frame(once, sprite, vx, vy);
    assert forall|y: int, x: int| 0 <= y < 32 && 0 <= x < 64 implies (#[trigger] hits(
        once,
        sprite,
        vx,
        vy,
        y,
        x,
    ) <==> lights(frame, sprite, vx, vy, y, x)) by {
        lemma_pixel_twice(frame, sprite, vx, vy, y, x);
    }
    assert forall|y: int| 0 <= y < 32 implies #[trigger] twice[y] == frame[y] by {
        assert forall|x: int| 0 <= x < 64 implies #[trigger] twice[y][x] == frame[y][x] by {
            lemma_pixel_twice(frame, sprite, vx, vy, y, x);
        }
        assert(twice[y] =~= frame[y]);
    }
    assert(twice =~= frame);
    if collides(once, sprite, vx, vy) {
        let (y, x) = choose|y: int, x: int|
            0 <= y < 32 && 0 <= x < 64 && #[trigger] hits(once, sprite, vx, vy, y, x);
        assert(lights(frame, sprite, vx, vy, y, x));
    }
    if lights_any(frame, sprite, vx, vy) {
        let (y, x) = choose|y: int, x: int|
            0 <= y < 32 && 0 <= x < 64 && #[trigger] lights(frame, sprite, vx, vy, y, x);
        assert(hits(once, sprite, vx, vy, y, x));
    }
}

proof fn lemma_xor_stays_binary(pixel: u8, row: u8, shift: u8)
    by (bit_vector)
    requires
        pixel <= 1,
    ensures
        pixel ^ ((row >> shift) & 1) <= 1,
        pixel ^ 0 <= 1,
{
}

/// Drawing a sprite on a framebuffer of pixels 0 and 1 leaves one of pixels 0 and 1.
pub proof fn law_draw_keeps_binary(frame: Seq<Seq<u8>>, sprite: Seq<u8>, vx: int, vy: int)
    requires
        frame_shaped(frame),
        frame_binary(frame),
    ensures
        frame_shaped(draw_frame(frame, sprite, vx, vy)),
        frame_binary(draw_frame(frame, sprite, vx, vy)),
{
    assert forall|y: int, x: int| 0 <= y < 32 && 0 <= x < 64 implies #[trigger] draw_frame(
        frame,
        sprite,
        vx,
        vy,
    )[y][x] <= 1 by {
        let dy = (y - vy) % 32;
        let dx = (x - vx) % 64;
        assert(frame[y][x] <= 1);
        if dy < sprite.len() && dx < 8 {
            lemma_xor_stays_binary(frame[y][x], sprite[dy], (7 - dx) as u8);
        } else {
            lemma_xor_stays_binary(frame[y][x], 0, 0);
        }
    }
}

/// `Dxyn` executed twice with the two registers holding the same
/// coordinates both times gives back the framebuffer as it was, and the
/// second time sets `VF` to 1 just where the first time turned a pixel on.
pub proof fn law_draw_twice(s: CpuState, opcode: u16, random: u8)
    requires
        s.wf(),
        nibble(opcode, 0) == 0xD,
        s.execute(opcode, random).state.v[nibble(opcode, 1)] == s.v[nibble(opcode, 1)],
        s.execute(opcode, random).state.v[nibble(opcode, 2)] == s.v[nibble(opcode, 2)],
    ensures
        ({
            let x = nibble(opcode, 1);
            let y = nibble(opcode, 2);
            let n = nibble(opcode, 3);
            let twice = s.execute(opcode, random).state.execute(opcode, random).state;
            &&& twice.vram == s.vram
            &&& s.i + n <= 4096 ==> (twice.v[15] == 1 <==> lights_any(
                s.vram,
                s.sprite(n),
                s.v[x] as int,
                s.v[y] as int,
            ))
            &&& s.i + n <= 4096 ==> (twice.v[15] == 0 <==> !lights_any(
                s.vram,
                s.sprite(n),
                s.v[x] as int,
                s.v[y] as int,
            ))
        }),
{
    let n = nibble(opcode, 3);
    if s.i + n <= 4096 {
        law_draw_twice_restores_frame(
            s.vram,
            s.sprite(n),
            s.v[nibble(opcode, 1)] as int,
            s.v[nibble(opcode, 2)] as int,
        );
    }
}

/// A call followed at once by a return goes on at the instruction after the
/// call, with as many return addresses on the stack as before the call.
pub proof fn law_call_then_return(s: CpuState, call: u16, random: u8)
    requires
        s.wf(),
        nibble(call, 0) == 0x2,
        s.sp < 16,
    ensures
        s.execute(call, random).fault is None,
        s.execute(call, random).state.execute(0x00EE, random).fault is None,
        s.execute(call, random).state.execute(0x00EE, random).state.pc == s.pc + 2,
        s.execute(call, random).state.execute(0x00EE, random).state.sp == s.sp,
        s.execute(call, random).state.execute(0x00EE, random).state == (CpuState {
            pc: s.pc + 2,
            stack: s.stack.update(s.sp as int, s.pc + 2),
            ..s
        }),
{
    assert(nibble(0x00EE, 0) == 0 && nibble(0x00EE, 1) == 0 && nibble(0x00EE, 2) == 0xE && nibble(
        0x00EE,
        3,
    ) == 0xE);
}

/// The lowest pressed key is the one that `first_pressed` names.
pub proof fn law_first_pressed(keys: Seq<bool>, k: int)
    requires
        is_first_pressed(keys, k),
    ensures
        any_pressed(keys),
        first_pressed(keys) == k,
{
    let c = first_pressed(keys);
    assert(is_first_pressed(keys, c));
    if c < k {
        assert(!keys[c]);
    }
    if k < c {
        assert(!keys[k]);
    }
}

/// A suspended machine with no key pressed stays as it is over a cycle, the
/// register that waits for the key untouched; only the dirty flag is cleared.
pub proof fn law_wait_goes_on_without_key(s: CpuState, random: u8)
    requires
        s.wf(),
        s.wait_for_input,
        !any_pressed(s.keys),
    ensures
        s.cycle(random).fault is None,
        s.cycle(random).state == (CpuState { vram_changed: false, ..s }),
{
}

/// A suspended machine with a key pressed puts the lowest such key into the
/// register that waits for it and runs again; nothing else changes but the
/// dirty flag, which is cleared.
pub proof fn law_wait_ends_with_key(s: CpuState, random: u8, k: int)
    requires
        s.wf(),
        s.wait_for_input,
        is_first_pressed(s.keys, k),
    ensures
        s.cycle(random).fault is None,
        s.cycle(random).state == (CpuState {
            vram_changed: false,
            wait_for_input: false,
            v: s.v.update(s.input_address as int, k as u8),
            ..s
        }),
{
    law_first_pressed(s.keys, k);
}

/// `Fx0A` suspends the machine with `Vx` waiting for the key and changes no register.
pub proof fn law_wait_begins(s: CpuState, opcode: u16, random: u8)
    requires
        s.wf(),
        nibble(opcode, 0) == 0xF,
        nibble(opcode, 2) == 0x0,
        nibble(opcode, 3) == 0xA,
    ensures
        s.execute(opcode, random).fault is None,
        s.execute(opcode, random).state == (CpuState {
            wait_for_input: true,
            input_address: nibble(opcode, 1) as nat,
            pc: s.pc + 2,
            ..s
        }),
{
}

/// Only `Cxkk` looks at the random byte.
pub proof fn law_random_only_in_cxkk(s: CpuState, opcode: u16, first: u8, second: u8)
    requires
        nibble(opcode, 0) != 0xC,
    ensures
        s.execute(opcode, first) == s.execute(opcode, second),
{
}

/// A fault leaves the machine as it was before the instruction.
pub proof fn law_fault_changes_nothing(s: CpuState, opcode: u16, random: u8)
    requires
        s.execute(opcode, random).fault is Some,
    ensures
        s.execute(opcode, random).state == s,
{
}

/// Every instruction leaves a machine of the right shape.
pub proof fn law_execute_keeps_shape(s: CpuState, opcode: u16, random: u8)
    requires
        s.wf(),
    ensures
        s.execute(opcode, random).state.wf(),
{
}

/// No instruction puts anything but 0 and 1 into a framebuffer of pixels 0 and 1.
pub proof fn law_execute_keeps_binary(s: CpuState, opcode: u16, random: u8)
    requires
        s.wf(),
        frame_binary(s.vram),
    ensures
        frame_binary(s.execute(opcode, random).state.vram),
{
    if nibble(opcode, 0) == 0xD {
        law_draw_keeps_binary(
            s.vram,
            s.sprite(nibble(opcode, 3)),
            s.v[nibble(opcode, 1)] as int,
            s.v[nibble(opcode, 2)] as int,
        );
    }
}

/// No cycle puts anything but 0 and 1 into a framebuffer of pixels 0 and 1.
pub proof fn law_cycle_keeps_binary(s: CpuState, random: u8)
    requires
        s.wf(),
        frame_binary(s.vram),
    ensures
        frame_binary(s.cycle(random).state.vram),
{
    if s.wait_for_input {
    } else if s.pc + 1 < 4096 {
        let fetched = s.cycle_start().ticked().fetched();
        law_execute_keeps_binary(fetched, fetched.opcode, random);
    }
}

/// No instruction changes the font.
pub proof fn law_execute_keeps_font(s: CpuState, opcode: u16, random: u8)
    requires
        s.wf(),
    ensures
        forall|a: int| 0 <= a < 80 ==> s.execute(opcode, random).state.memory[a] == s.memory[a],
{
}

/// No cycle changes the font.
pub proof fn law_cycle_keeps_font(s: CpuState, random: u8)
    requires
        s.wf(),
    ensures
        forall|a: int| 0 <= a < 80 ==> s.cycle(random).state.memory[a] == s.memory[a],
{
    if s.wait_for_input {
    } else if s.pc + 1 < 4096 {
        let fetched = s.cycle_start().ticked().fetched();
        law_execute_keeps_font(fetched, fetched.opcode, random);
    }
}

/// Every cycle leaves a machine of the right shape.
pub proof fn law_cycle_keeps_shape(s: CpuState, random: u8)
    requires
        s.wf(),
    ensures
        s.cycle(random).state.wf(),
{
    if s.wait_for_input {
    } else if s.pc + 1 < 4096 {
        let fetched = s.cycle_start().ticked().fetched();
        law_execute_keeps_shape(fetched, fetched.opcode, random);
    }
}

} // verus!
