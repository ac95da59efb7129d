//! Sprites on the 64x32 monochrome display.
//!
//! A sprite is a sequence of rows, one byte each, most significant bit
//! leftmost. Drawing XORs every set sprite bit into the display; the pixel
//! a bit lands on is found by wrapping the flattened index around the whole
//! buffer.
use vstd::prelude::*;

verus! {

/// A display with every pixel off.
pub open spec fn blank_display() -> Seq<u8> {
    Seq::new(2048, |p: int| 0u8)
}

/// Whether bit `col` of a sprite row is set, counting from the most
/// significant bit.
pub open spec fn sprite_bit(byte: u8, col: int) -> bool {
    byte & (0x80u8 >> (col as u8)) != 0
}

/// Index of the pixel that bit (`row`, `col`) of a sprite drawn at
/// (`vx`, `vy`) lands on: the row-major index, wrapped around the buffer.
pub open spec fn pixel_index(vx: int, vy: int, row: int, col: int) -> int {
    (vx + col + (vy + row) * 64) % 2048
}

/// Bit (`row`, `col`) of the sprite is set and lands on pixel `p`.
pub open spec fn lights(sprite: Seq<u8>, vx: int, vy: int, row: int, col: int, p: int) -> bool {
    &&& 0 <= row < sprite.len()
    &&& 0 <= col < 8
    &&& sprite_bit(sprite[row], col)
    &&& pixel_index(vx, vy, row, col) == p
}

/// Some set bit of the sprite lands on pixel `p`.
pub open spec fn covers(sprite: Seq<u8>, vx: int, vy: int, p: int) -> bool {
    exists|row: int, col: int| lights(sprite, vx, vy, row, col, p)
}

/// Bit (`row`, `col`) of the sprite is set and lands on a pixel that is on.
pub open spec fn strikes(display: Seq<u8>, sprite: Seq<u8>, vx: int, vy: int, row: int, col: int)
    -> bool {
    &&& 0 <= row < sprite.len()
    &&& 0 <= col < 8
    &&& sprite_bit(sprite[row], col)
    &&& display[pixel_index(vx, vy, row, col)] == 1
}

/// Drawing the sprite collides: some set bit lands on a pixel that is on.
pub open spec fn collides(display: Seq<u8>, sprite: Seq<u8>, vx: int, vy: int) -> bool {
    exists|row: int, col: int| strikes(display, sprite, vx, vy, row, col)
}

/// The display after drawing the sprite at (`vx`, `vy`): covered pixels are
/// flipped, all others keep their value.
pub open spec fn draw_display(display: Seq<u8>, sprite: Seq<u8>, vx: int, vy: int) -> Seq<u8> {
    Seq::new(
        display.len(),
        |p: int|
            if covers(sprite, vx, vy, p) {
                display[p] ^ 1
            } else {
                display[p]
            },
    )
}

/// Distance of pixel `p` from the sprite's origin, in row-major order and
/// modulo the buffer size.
pub open spec fn offset_of(vx: int, vy: int, p: int) -> int {
    (p - vx - 64 * vy) % 2048
}

/// `covers` without a quantifier: the only sprite bit that can land on `p`
/// is the one at `p`'s offset from the origin.
pub open spec fn covers_at_offset(sprite: Seq<u8>, vx: int, vy: int, p: int) -> bool {
    let o = offset_of(vx, vy, p);
    &&& o / 64 < sprite.len()
    &&& o % 64 < 8
    &&& sprite_bit(sprite[o / 64], o % 64)
}

/// A sprite bit lands on the pixel whose offset is the bit's own position.
pub proof fn lemma_offset_of_pixel(vx: int, vy: int, row: int, col: int)
    requires
        0 <= row < 32,
        0 <= col < 64,
    ensures
        0 <= pixel_index(vx, vy, row, col) < 2048,
        offset_of(vx, vy, pixel_index(vx, vy, row, col)) == 64 * row + col,
{
}

/// Two pixels with the same offset from the origin are the same pixel.
pub proof fn lemma_offset_injective(vx: int, vy: int, p: int, q: int)
    requires
        0 <= p < 2048,
        0 <= q < 2048,
        offset_of(vx, vy, p) == offset_of(vx, vy, q),
    ensures
        p == q,
{
}

/// Within a sprite of at most 32 rows no two bits land on the same pixel.
pub proof fn lemma_pixel_index_injective(vx: int, vy: int, r1: int, c1: int, r2: int, c2: int)
    requires
        0 <= r1 < 32,
        0 <= c1 < 64,
        0 <= r2 < 32,
        0 <= c2 < 64,
        pixel_index(vx, vy, r1, c1) == pixel_index(vx, vy, r2, c2),
    ensures
        r1 == r2,
        c1 == c2,
{
    lemma_offset_of_pixel(vx, vy, r1, c1);
    lemma_offset_of_pixel(vx, vy, r2, c2);
}

/// For sprites of at most 32 rows, `covers` and `covers_at_offset` agree.
pub proof fn lemma_covers_at_offset(sprite: Seq<u8>, vx: int, vy: int, p: int)
    requires
        sprite.len() <= 32,
        0 <= p < 2048,
    ensures
        covers(sprite, vx, vy, p) == covers_at_offset(sprite, vx, vy, p),
{
    let o = offset_of(vx, vy, p);
    if covers(sprite, vx, vy, p) {
        let (row, col) = choose|row: int, col: int| lights(sprite, vx, vy, row, col, p);
        lemma_offset_of_pixel(vx, vy, row, col);
        assert(o == 64 * row + col);
        assert(o / 64 == row && o % 64 == col);
    }
    if covers_at_offset(sprite, vx, vy, p) {
        let row = o / 64;
        let col = o % 64;
        lemma_offset_of_pixel(vx, vy, row, col);
        lemma_offset_injective(vx, vy, p, pixel_index(vx, vy, row, col));
        assert(lights(sprite, vx, vy, row, col, p));
    }
}

/// Drawing flips nothing but the lowest bit, so pixels that are 0 or 1
/// stay 0 or 1.
pub proof fn lemma_draw_keeps_pixels_binary(display: Seq<u8>, sprite: Seq<u8>, vx: int, vy: int)
    requires
        forall|p: int| 0 <= p < display.len() ==> #[trigger] display[p] <= 1,
    ensures
        draw_display(display, sprite, vx, vy).len() == display.len(),
        forall|p: int|
            0 <= p < display.len() ==> #[trigger] draw_display(display, sprite, vx, vy)[p] <= 1,
{
    assert forall|p: int| 0 <= p < display.len() implies #[trigger] draw_display(
        display,
        sprite,
        vx,
        vy,
    )[p] <= 1 by {
        let b = display[p];
        assert(b <= 1 ==> b ^ 1 <= 1) by (bit_vector);
    }
}

/// Bit (`row`, `col`) of the sprite is set and lands on a pixel that is off.
pub open spec fn switches_on(
    display: Seq<u8>,
    sprite: Seq<u8>,
    vx: int,
    vy: int,
    row: int,
    col: int,
) -> bool {
    &&& 0 <= row < sprite.len()
    &&& 0 <= col < 8
    &&& sprite_bit(sprite[row], col)
    &&& display[pixel_index(vx, vy, row, col)] == 0
}

/// Drawing a sprite twice at the same position gives back the display as it
/// was before the first draw.
pub proof fn lemma_draw_twice_restores(display: Seq<u8>, sprite: Seq<u8>, vx: int, vy: int)
    ensures
        draw_display(draw_display(display, sprite, vx, vy), sprite, vx, vy) == display,
{
    let once = draw_display(display, sprite, vx, vy);
    let twice = draw_display(once, sprite, vx, vy);
    assert forall|p: int| 0 <= p < display.len() implies twice[p] == display[p] by {
        let b = display[p];
        assert((b ^ 1) ^ 1 == b) by (bit_vector);
    }
    assert(twice =~= display);
}

/// The second of two draws at the same position collides exactly when the
/// first one switched a pixel on.
pub proof fn lemma_second_draw_collides(display: Seq<u8>, sprite: Seq<u8>, vx: int, vy: int)
    requires
        display.len() == 2048,
    ensures
        collides(draw_display(display, sprite, vx, vy), sprite, vx, vy) <==> exists|
            row: int,
            col: int,
        | switches_on(display, sprite, vx, vy, row, col),
{
    let once = draw_display(display, sprite, vx, vy);
    assert forall|row: int, col: int|
        strikes(once, sprite, vx, vy, row, col) == switches_on(
            display,
            sprite,
            vx,
            vy,
            row,
            col,
        ) by {
        if 0 <= row < sprite.len() && 0 <= col < 8 && sprite_bit(sprite[row], col) {
            let p = pixel_index(vx, vy, row, col);
            assert(lights(sprite, vx, vy, row, col, p));
            let b = display[p];
            assert((b ^ 1 == 1) <==> b == 0) by (bit_vector);
        }
    }
}

} // verus!
