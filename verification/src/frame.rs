//! Sprite drawing on the 64x32 framebuffer.

use vstd::prelude::*;

verus! {

/// Pixel `col` of a sprite row, counted from the left: 0 or 1.
pub open spec fn sprite_bit(row: u8, col: int) -> u8 {
    (row >> ((7 - col) as u8)) & 1
}

/// What a sprite drawn at `(vx, vy)` puts on the screen pixel `(x, y)`: the
/// sprite's pixel that lands there after wrapping on both axes, or 0 where
/// none does.
pub open spec fn sprite_pixel(sprite: Seq<u8>, vx: int, vy: int, y: int, x: int) -> u8 {
    let dy = (y - vy) % 32;
    let dx = (x - vx) % 64;
    if dy < sprite.len() && dx < 8 {
        sprite_bit(sprite[dy], dx)
    } else {
        0
    }
}

/// The framebuffer after a sprite has been drawn at `(vx, vy)`: every pixel
/// is combined by exclusive or with what the sprite puts on it.
pub open spec fn draw_frame(frame: Seq<Seq<u8>>, sprite: Seq<u8>, vx: int, vy: int) -> Seq<Seq<u8>> {
    Seq::new(32, |y: int| Seq::new(64, |x: int| frame[y][x] ^ sprite_pixel(sprite, vx, vy, y, x)))
}

/// Whether the sprite hits the screen pixel `(x, y)`: both the sprite's pixel
/// and the screen's are on, so that drawing turns the screen pixel off.
pub open spec fn hits(frame: Seq<Seq<u8>>, sprite: Seq<u8>, vx: int, vy: int, y: int, x: int) -> bool {
    sprite_pixel(sprite, vx, vy, y, x) & frame[y][x] == 1
}

/// Whether drawing the sprite at `(vx, vy)` turns any screen pixel off.
pub open spec fn collides(frame: Seq<Seq<u8>>, sprite: Seq<u8>, vx: int, vy: int) -> bool {
    exists|y: int, x: int| 0 <= y < 32 && 0 <= x < 64 && #[trigger] hits(frame, sprite, vx, vy, y, x)
}

/// The framebuffer of the machine as rows of pixels.
pub open spec fn frame_view(frame: [[u8; 64]; 32]) -> Seq<Seq<u8>> {
    Seq::new(32, |y: int| frame[y]@)
}

/// What the part of the sprite drawn so far puts on the screen pixel
/// `(x, y)`, once the rows before `row` and, of row `row`, the columns
/// before `col` are done.
#[verifier::opaque]
spec fn partial_pixel(
    sprite: Seq<u8>,
    vx: int,
    vy: int,
    row: int,
    col: int,
    y: int,
    x: int,
) -> u8 {
    let dy = (y - vy) % 32;
    let dx = (x - vx) % 64;
    if dx < 8 && (dy < row || (dy == row && dx < col)) {
        sprite_pixel(sprite, vx, vy, y, x)
    } else {
        0
    }
}

/// Whether the part of the sprite drawn so far hits the screen pixel `(x, y)`.
spec fn partial_hits(
    frame: Seq<Seq<u8>>,
    sprite: Seq<u8>,
    vx: int,
    vy: int,
    row: int,
    col: int,
    y: int,
    x: int,
) -> bool {
    partial_pixel(sprite, vx, vy, row, col, y, x) & frame[y][x] == 1
}

/// Whether the part of the sprite drawn so far has turned a screen pixel off.
spec fn partial_collides(
    frame: Seq<Seq<u8>>,
    sprite: Seq<u8>,
    vx: int,
    vy: int,
    row: int,
    col: int,
) -> bool {
    exists|y: int, x: int|
        0 <= y < 32 && 0 <= x < 64 && #[trigger] partial_hits(frame, sprite, vx, vy, row, col, y, x)
}

proof fn lemma_partial_start(sprite: Seq<u8>, vx: int, vy: int, y: int, x: int)
    ensures
        partial_pixel(sprite, vx, vy, 0, 0, y, x) == 0,
{
    reveal(partial_pixel);
}

proof fn lemma_partial_step(sprite: Seq<u8>, vx: int, vy: int, row: int, col: int, y: int, x: int)
    requires
        0 <= vx < 256,
        0 <= vy < 256,
        0 <= row < sprite.len() <= 32,
        0 <= col < 8,
        0 <= y < 32,
        0 <= x < 64,
    ensures
        partial_pixel(sprite, vx, vy, row, col + 1, y, x) == (if y == (vy + row) % 32 && x == (vx
            + col) % 64 {
            sprite_bit(sprite[row], col)
        } else {
            partial_pixel(sprite, vx, vy, row, col, y, x)
        }),
        y == (vy + row) % 32 && x == (vx + col) % 64 ==> partial_pixel(
            sprite,
            vx,
            vy,
            row,
            col,
            y,
            x,
        ) == 0,
{
    reveal(partial_pixel);
}

proof fn lemma_partial_row(sprite: Seq<u8>, vx: int, vy: int, row: int, y: int, x: int)
    ensures
        partial_pixel(sprite, vx, vy, row, 8, y, x) == partial_pixel(sprite, vx, vy, row + 1, 0, y, x),
{
    reveal(partial_pixel);
}

proof fn lemma_partial_end(sprite: Seq<u8>, vx: int, vy: int, y: int, x: int)
    ensures
        partial_pixel(sprite, vx, vy, sprite.len() as int, 0, y, x) == sprite_pixel(
            sprite,
            vx,
            vy,
            y,
            x,
        ),
{
    reveal(partial_pixel);
}

proof fn lemma_pixel_bits(row: u8, shift: u8, pixel: u8, hit: u8)
    by (bit_vector)
    requires
        shift < 8,
        hit <= 1,
    ensures
        (row >> shift) & 1 <= 1,
        pixel ^ 0 == pixel,
        hit | (((row >> shift) & 1) & pixel) <= 1,
        (hit | (((row >> shift) & 1) & pixel) == 1) <==> (hit == 1 || ((row >> shift) & 1) & pixel
            == 1),
        0u8 & pixel != 1,
{
}

/// Draw the `rows` bytes of memory from `start` as a sprite at `(vx, vy)`:
/// eight pixels a row, the leftmost in the highest bit, wrapping on both
/// axes. Returns 1 where a pixel went from on to off, 0 where none did.
pub fn draw_sprite(
    frame: &mut [[u8; 64]; 32],
    memory: &[u8; 4096],
    start: usize,
    rows: usize,
    vx: u8,
    vy: u8,
) -> (hit: u8)
    requires
        rows <= 15,
        start + rows <= 4096,
    ensures
        frame_view(*final(frame)) == draw_frame(
            frame_view(*old(frame)),
            memory@.subrange(start as int, start + rows),
            vx as int,
            vy as int,
        ),
        hit == (if collides(
            frame_view(*old(frame)),
            memory@.subrange(start as int, start + rows),
            vx as int,
            vy as int,
        ) {
            1u8
        } else {
            0u8
        }),
    no_unwind
{
    let ghost before = frame_view(*frame);
    let ghost sprite = memory@.subrange(start as int, start + rows);
    let mut hit: u8 = 0;
    let mut row: usize = 0;
    proof {
        assert forall|y: int, x: int| 0 <= y < 32 && 0 <= x < 64 implies #[trigger] frame[y][x]
            == before[y][x] ^ partial_pixel(sprite, vx as int, vy as int, 0, 0, y, x) by {
            lemma_partial_start(sprite, vx as int, vy as int, y, x);
            lemma_pixel_bits(0, 0, before[y][x], 0);
        }
        assert forall|y: int, x: int| 0 <= y < 32 && 0 <= x < 64 implies !#[trigger] partial_hits(
            before,
            sprite,
            vx as int,
            vy as int,
            0,
            0,
            y,
            x,
        ) by {
            lemma_partial_start(sprite, vx as int, vy as int, y, x);
            lemma_pixel_bits(0, 0, before[y][x], 0);
        }
    }
    while row < rows
        invariant
            row <= rows <= 15,
            start + rows <= 4096,
            sprite == memory@.subrange(start as int, start + rows),
            hit <= 1,
            hit == 1 <==> partial_collides(before, sprite, vx as int, vy as int, row as int, 0),
            forall|y: int, x: int|
                0 <= y < 32 && 0 <= x < 64 ==> #[trigger] frame[y][x] == before[y][x]
                    ^ partial_pixel(sprite, vx as int, vy as int, row as int, 0, y, x),
        decreases rows - row,
    {
        let py: usize = (vy as usize + row) % 32;
        let line: u8 = memory[start + row];
        let mut col: usize = 0;
        while col < 8
            invariant
                row < rows <= 15,
                col <= 8,
                py == (vy + row) % 32,
                line == sprite[row as int],
                sprite.len() == rows,
                hit <= 1,
                hit == 1 <==> partial_collides(
                    before,
                    sprite,
                    vx as int,
                    vy as int,
                    row as int,
                    col as int,
                ),
                forall|y: int, x: int|
                    0 <= y < 32 && 0 <= x < 64 ==> #[trigger] frame[y][x] == before[y][x]
                        ^ partial_pixel(sprite, vx as int, vy as int, row as int, col as int, y, x),
            decreases 8 - col,
        {
            let px: usize = (vx as usize + col) % 64;
            let color: u8 = (line >> (7 - col as u8)) & 1;
            let ghost hit_before = hit;
            proof {
                lemma_pixel_bits(line, (7 - col) as u8, before[py as int][px as int], hit);
                lemma_partial_step(
                    sprite,
                    vx as int,
                    vy as int,
                    row as int,
                    col as int,
                    py as int,
                    px as int,
                );
                assert(frame[py as int][px as int] == before[py as int][px as int]);
                assert(color == sprite_bit(line, col as int));
            }
            hit |= color & frame[py][px];
            frame[py][px] ^= color;
            proof {
                assert forall|y: int, x: int| 0 <= y < 32 && 0 <= x < 64 implies #[trigger] frame[y][x]
                    == before[y][x] ^ partial_pixel(
                    sprite,
                    vx as int,
                    vy as int,
                    row as int,
                    col + 1,
                    y,
                    x,
                ) by {
                    lemma_partial_step(sprite, vx as int, vy as int, row as int, col as int, y, x);
                }
                assert forall|y: int, x: int| 0 <= y < 32 && 0 <= x < 64 implies (#[trigger] partial_hits(
                    before,
                    sprite,
                    vx as int,
                    vy as int,
                    row as int,
                    col + 1,
                    y,
                    x,
                ) <==> partial_hits(
                    before,
                    sprite,
                    vx as int,
                    vy as int,
                    row as int,
                    col as int,
                    y,
                    x,
                ) || (y == py && x == px && color & before[y][x] == 1)) by {
                    lemma_partial_step(sprite, vx as int, vy as int, row as int, col as int, y, x);
                    lemma_pixel_bits(0, 0, before[y][x], 0);
                }
                if hit == 1 && hit_before == 0 {
                    assert(partial_hits(
                        before,
                        sprite,
                        vx as int,
                        vy as int,
                        row as int,
                        col + 1,
                        py as int,
                        px as int,
                    ));
                }
                if hit_before == 1 {
                    let (y, x) = choose|y: int, x: int|
                        0 <= y < 32 && 0 <= x < 64 && #[trigger] partial_hits(
                            before,
                            sprite,
                            vx as int,
                            vy as int,
                            row as int,
                            col as int,
                            y,
                            x,
                        );
                    assert(partial_hits(before, sprite, vx as int, vy as int, row as int, col + 1, y, x));
                }
            }
            col += 1;
        }
        proof {
            assert forall|y: int, x: int|
                #[trigger] partial_pixel(sprite, vx as int, vy as int, row as int, 8, y, x)
                    == partial_pixel(sprite, vx as int, vy as int, row + 1, 0, y, x) by {
                lemma_partial_row(sprite, vx as int, vy as int, row as int, y, x);
            }
            assert(partial_collides(before, sprite, vx as int, vy as int, row as int, 8)
                == partial_collides(before, sprite, vx as int, vy as int, row + 1, 0)) by {
                if partial_collides(before, sprite, vx as int, vy as int, row as int, 8) {
                    let (y, x) = choose|y: int, x: int|
                        0 <= y < 32 && 0 <= x < 64 && #[trigger] partial_hits(
                            before,
                            sprite,
                            vx as int,
                            vy as int,
                            row as int,
                            8,
                            y,
                            x,
                        );
                    assert(partial_hits(before, sprite, vx as int, vy as int, row + 1, 0, y, x));
                }
                if partial_collides(before, sprite, vx as int, vy as int, row + 1, 0) {
                    let (y, x) = choose|y: int, x: int|
                        0 <= y < 32 && 0 <= x < 64 && #[trigger] partial_hits(
                            before,
                            sprite,
                            vx as int,
                            vy as int,
                            row + 1,
                            0,
                            y,
                            x,
                        );
                    lemma_partial_row(sprite, vx as int, vy as int, row as int, y, x);
                    assert(partial_hits(before, sprite, vx as int, vy as int, row as int, 8, y, x));
                }
            }
        }
        row += 1;
    }
    proof {
        assert forall|y: int, x: int|
            #[trigger] partial_pixel(sprite, vx as int, vy as int, rows as int, 0, y, x)
                == sprite_pixel(sprite, vx as int, vy as int, y, x) by {
            lemma_partial_end(sprite, vx as int, vy as int, y, x);
        }
        assert(frame_view(*frame) =~~= draw_frame(before, sprite, vx as int, vy as int));
        if collides(before, sprite, vx as int, vy as int) {
            let (y, x) = choose|y: int, x: int|
                0 <= y < 32 && 0 <= x < 64 && #[trigger] hits(before, sprite, vx as int, vy as int, y, x);
            assert(partial_hits(before, sprite, vx as int, vy as int, rows as int, 0, y, x));
        }
        if partial_collides(before, sprite, vx as int, vy as int, rows as int, 0) {
            let (y, x) = choose|y: int, x: int|
                0 <= y < 32 && 0 <= x < 64 && #[trigger] partial_hits(
                    before,
                    sprite,
                    vx as int,
                    vy as int,
                    rows as int,
                    0,
                    y,
                    x,
                );
            assert(hits(before, sprite, vx as int, vy as int, y, x));
        }
    }
    hit
}

} // verus!
