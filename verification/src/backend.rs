//! Rules of a window front end: which host key is which pad key, how the
//! pixel colour cycles through the palette, where the rectangles of a frame
//! go and where the debug overlay puts its lines.
use vstd::prelude::*;

verus! {

/// Number of colours in the palette.
pub const PALETTE_SIZE: usize = 19;

/// The pad key that each of the sixteen host keys stands for. The host keys
/// are the ones that carry the pad keys' labels, `0` to `9` and `A` to `F`,
/// taken row by row in the order of the pad's 4x4 block.
pub const KEY_LAYOUT: [usize; 16] = [
    0x1, 0x2, 0x3, 0xC,
    0x4, 0x5, 0x6, 0xD,
    0x7, 0x8, 0x9, 0xE,
    0xA, 0x0, 0xB, 0xF,
];

/// Left edge, in window pixels, of the cycle counts in the overlay.
pub const OVERLAY_LEFT: i32 = 10;

/// Top edge of the first overlay line.
pub const OVERLAY_TOP: i32 = 10;

/// Distance from one overlay line to the next, and the font size.
pub const OVERLAY_LINE: i32 = 20;

/// Distance of the register column from the right edge of the window.
pub const OVERLAY_REGISTERS_INSET: i32 = 80;

/// A filled rectangle in window coordinates.
#[derive(Clone, Copy, Debug, PartialEq, Eq, Structural)]
pub struct Rect {
    pub x: i32,
    pub y: i32,
    pub width: i32,
    pub height: i32,
}

/// The palette index after the colour keys of one frame: first one back,
/// wrapping from the first colour to the last, then one forward, wrapping
/// from the last colour to the first.
pub open spec fn cycled_color(index: int, back: bool, forward: bool) -> int {
    let stepped = if back {
        if index > 0 {
            index - 1
        } else {
            PALETTE_SIZE - 1
        }
    } else {
        index
    };
    if forward {
        if stepped + 1 >= PALETTE_SIZE {
            0
        } else {
            stepped + 1
        }
    } else {
        stepped
    }
}

/// Moves the palette index as the colour keys ask.
pub fn cycle_color(index: usize, back: bool, forward: bool) -> (next: usize)
    requires
        index < PALETTE_SIZE,
    ensures
        next == cycled_color(index as int, back, forward),
        next < PALETTE_SIZE,
{
    let mut current = index;
    if back {
        if current > 0 {
            current -= 1;
        } else {
            current = PALETTE_SIZE - 1;
        }
    }
    if forward {
        current += 1;
        if current >= PALETTE_SIZE {
            current = 0;
        }
    }
    current
}

/// Every pad key has exactly one host key: `KEY_LAYOUT` is a permutation of
/// `0..16`.
pub proof fn lemma_key_layout_is_permutation()
    ensures
        forall|k: int| 0 <= k < 16 ==> 0 <= #[trigger] KEY_LAYOUT@[k] < 16,
        forall|j: int, k: int|
            0 <= j < k < 16 ==> #[trigger] KEY_LAYOUT@[j] != #[trigger] KEY_LAYOUT@[k],
{
    assert(KEY_LAYOUT@[0] == 0x1 && KEY_LAYOUT@[1] == 0x2 && KEY_LAYOUT@[2] == 0x3
        && KEY_LAYOUT@[3] == 0xC);
    assert(KEY_LAYOUT@[4] == 0x4 && KEY_LAYOUT@[5] == 0x5 && KEY_LAYOUT@[6] == 0x6
        && KEY_LAYOUT@[7] == 0xD);
    assert(KEY_LAYOUT@[8] == 0x7 && KEY_LAYOUT@[9] == 0x8 && KEY_LAYOUT@[10] == 0x9
        && KEY_LAYOUT@[11] == 0xE);
    assert(KEY_LAYOUT@[12] == 0xA && KEY_LAYOUT@[13] == 0x0 && KEY_LAYOUT@[14] == 0xB
        && KEY_LAYOUT@[15] == 0xF);
}

/// The key flags of the pad, given which of the sixteen host keys are held
/// down: pad key `KEY_LAYOUT[k]` is pressed (flag 1) exactly when host key
/// `k` is down, and released (flag 0) when it is not.
pub fn keypad_from(down: &[bool; 16]) -> (keys: [u8; 16])
    ensures
        forall|k: int|
            0 <= k < 16 ==> keys@[#[trigger] KEY_LAYOUT@[k] as int] == if down@[k] {
                1u8
            } else {
                0u8
            },
{
    let mut keys = [0u8; 16];
    let mut k: usize = 0;
    proof {
        lemma_key_layout_is_permutation();
    }
    while k < 16
        invariant
            k <= 16,
            forall|j: int| 0 <= j < 16 ==> 0 <= #[trigger] KEY_LAYOUT@[j] < 16,
            forall|i: int, j: int|
                0 <= i < j < 16 ==> #[trigger] KEY_LAYOUT@[i] != #[trigger] KEY_LAYOUT@[j],
            forall|j: int|
                0 <= j < k ==> keys@[#[trigger] KEY_LAYOUT@[j] as int] == if down@[j] {
                    1u8
                } else {
                    0u8
                },
        decreases 16 - k,
    {
        keys[KEY_LAYOUT[k]] = if down[k] {
            1
        } else {
            0
        };
        k += 1;
    }
    keys
}

/// Where register `index` is shown in the overlay: a column near the right
/// edge of the window, one line per register.
pub fn register_label_position(index: usize, screen_width: i32) -> (at: (i32, i32))
    requires
        index < 16,
        screen_width - OVERLAY_REGISTERS_INSET >= i32::MIN,
    ensures
        at.0 == screen_width - OVERLAY_REGISTERS_INSET,
        at.1 == OVERLAY_TOP + OVERLAY_LINE * index,
{
    (screen_width - OVERLAY_REGISTERS_INSET, OVERLAY_TOP + OVERLAY_LINE * index as i32)
}

/// The rectangle that shows pixel `p` of the display when every pixel is
/// `pixel_size` wide and high.
pub open spec fn rect_of(p: int, pixel_size: usize) -> Rect {
    Rect {
        x: ((p % 64) * pixel_size) as i32,
        y: ((p / 64) * pixel_size) as i32,
        width: pixel_size as i32,
        height: pixel_size as i32,
    }
}

/// The rectangles of the pixels that are on among the first `count`, in
/// row-major order.
pub open spec fn rects_of(pixels: Seq<u8>, pixel_size: usize, count: int) -> Seq<Rect>
    decreases count,
{
    if count <= 0 {
        Seq::empty()
    } else if pixels[count - 1] == 1 {
        rects_of(pixels, pixel_size, count - 1).push(rect_of(count - 1, pixel_size))
    } else {
        rects_of(pixels, pixel_size, count - 1)
    }
}

/// The rectangles to fill for a frame: one for every pixel that is on, row
/// by row. Every such rectangle must start within the range of `i32`.
pub fn pixel_rectangles(pixels: &[u8], pixel_size: usize) -> (rects: Vec<Rect>)
    requires
        pixels@.len() >= 2048,
        forall|p: int|
            0 <= p < 2048 && pixels@[p] == 1 ==> (p % 64) * pixel_size <= i32::MAX && (p / 64)
                * pixel_size <= i32::MAX,
    ensures
        rects@ == rects_of(pixels@, pixel_size, 2048),
{
    let mut rects: Vec<Rect> = Vec::new();
    let mut y: usize = 0;
    while y < 32
        invariant
            y <= 32,
            pixels@.len() >= 2048,
            forall|p: int|
                0 <= p < 2048 && pixels@[p] == 1 ==> (p % 64) * pixel_size <= i32::MAX && (p
                    / 64) * pixel_size <= i32::MAX,
            rects@ == rects_of(pixels@, pixel_size, y * 64),
        decreases 32 - y,
    {
        let mut x: usize = 0;
        while x < 64
            invariant
                y < 32,
                x <= 64,
                pixels@.len() >= 2048,
                forall|p: int|
                    0 <= p < 2048 && pixels@[p] == 1 ==> (p % 64) * pixel_size <= i32::MAX && (p
                        / 64) * pixel_size <= i32::MAX,
                rects@ == rects_of(pixels@, pixel_size, y * 64 + x),
            decreases 64 - x,
        {
            let p = y * 64 + x;
            if pixels[p] == 1 {
                assert(p % 64 == x && p / 64 == y);
                rects.push(
                    Rect {
                        x: (x * pixel_size) as i32,
                        y: (y * pixel_size) as i32,
                        width: pixel_size as i32,
                        height: pixel_size as i32,
                    },
                );
            }
            x += 1;
        }
        y += 1;
    }
    rects
}

} // verus!
