//! The 64 by 32 monochrome frame buffer and the drawing of sprites on it.
//!
//! A sprite is a list of rows, eight pixels each, the most significant bit
//! leftmost. Drawing flips every pixel that a set bit of the sprite falls
//! on. What falls outside the grid is dropped.

use vstd::prelude::*;

use crate::keyboard::{key_of_number, keypad_key, Key, Keyboard};

verus! {

/// The number of pixels in a row.
pub const WIDTH: usize = 64;

/// The number of rows.
pub const HEIGHT: usize = 32;

/// The colour of a pixel that is off, as `0x00RRGGBB`.
pub const COLOUR_OFF: u32 = 0x00_00_00;

/// The colour of a pixel that is on, as `0x00RRGGBB`.
pub const COLOUR_ON: u32 = 0x00_7F_FF;

/// Whether the bit in column `col` of a sprite row is set. Column 0 is the
/// leftmost pixel, the most significant bit.
pub open spec fn row_bit(row: u8, col: int) -> bool {
    if col == 0 {
        row / 0x80 % 2 == 1
    } else if col == 1 {
        row / 0x40 % 2 == 1
    } else if col == 2 {
        row / 0x20 % 2 == 1
    } else if col == 3 {
        row / 0x10 % 2 == 1
    } else if col == 4 {
        row / 0x08 % 2 == 1
    } else if col == 5 {
        row / 0x04 % 2 == 1
    } else if col == 6 {
        row / 0x02 % 2 == 1
    } else if col == 7 {
        row % 2 == 1
    } else {
        false
    }
}

/// Whether a sprite whose top left corner is at `(x0, y0)` has a set bit
/// on the pixel `(px, py)`.
pub open spec fn sprite_covers(sprite: Seq<u8>, x0: int, y0: int, px: int, py: int) -> bool {
    &&& 0 <= py - y0 < sprite.len()
    &&& 0 <= px - x0 < 8
    &&& row_bit(sprite[py - y0], px - x0)
}

/// Whether drawing `sprite` at the coordinates `(x, y)` flips the pixel
/// with the index `i`. The coordinates are taken modulo the size of the
/// grid; pixels are numbered row by row.
pub open spec fn flips(sprite: Seq<u8>, x: u8, y: u8, i: int) -> bool {
    sprite_covers(sprite, x as int % 64, y as int % 32, i % 64, i / 64)
}

/// Whether pixel `i` is flipped by the part of the sprite that comes before
/// column `col` of row `row`, rows taken from the top and, within a row,
/// columns from the left.
pub open spec fn flips_before(sprite: Seq<u8>, x: u8, y: u8, i: int, row: int, col: int) -> bool {
    let r = i / 64 - y as int % 32;
    let c = i % 64 - x as int % 64;
    flips(sprite, x, y, i) && (r < row || (r == row && c < col))
}

/// The screen after `sprite` was drawn at `(x, y)`.
pub open spec fn painted(screen: Seq<bool>, x: u8, y: u8, sprite: Seq<u8>) -> Seq<bool> {
    Seq::new(screen.len(), |i: int| screen[i] != flips(sprite, x, y, i))
}

/// Whether drawing `sprite` at `(x, y)` turns a pixel off that was on.
pub open spec fn collides(screen: Seq<bool>, x: u8, y: u8, sprite: Seq<u8>) -> bool {
    exists|i: int| 0 <= i < screen.len() && screen[i] && #[trigger] flips(sprite, x, y, i)
}

/// Whether drawing `sprite` at `(x, y)` changes the screen at all: whether
/// a set bit of the sprite falls on the grid.
pub open spec fn changes(screen: Seq<bool>, x: u8, y: u8, sprite: Seq<u8>) -> bool {
    exists|i: int| 0 <= i < screen.len() && #[trigger] flips(sprite, x, y, i)
}

/// Whether any pixel of the screen is on.
pub open spec fn any_on(screen: Seq<bool>) -> bool {
    exists|i: int| 0 <= i < screen.len() && #[trigger] screen[i]
}

/// The state of the keypad when exactly the host keys `keys` are down.
pub open spec fn keys_down(keys: Seq<Key>) -> Seq<bool> {
    Seq::new(
        16,
        |n: int|
            exists|k: int|
                0 <= k < keys.len() && #[trigger] keypad_key(keys[k]) == Some(key_of_number(n)),
    )
}

/// Shifting a sprite row right and masking the last bit reads the bit of
/// one column.
proof fn lemma_row_bit(row: u8, shift: u8)
    requires
        shift <= 7,
    ensures
        (row >> shift) & 1 <= 1,
        ((row >> shift) & 1 == 1) == row_bit(row, 7 - shift),
{
    assert((row >> shift) & 1 <= 1) by (bit_vector);
    assert({
        &&& ((row >> 7u8) & 1 == 1) == (row / 0x80 % 2 == 1)
        &&& ((row >> 6u8) & 1 == 1) == (row / 0x40 % 2 == 1)
        &&& ((row >> 5u8) & 1 == 1) == (row / 0x20 % 2 == 1)
        &&& ((row >> 4u8) & 1 == 1) == (row / 0x10 % 2 == 1)
        &&& ((row >> 3u8) & 1 == 1) == (row / 0x08 % 2 == 1)
        &&& ((row >> 2u8) & 1 == 1) == (row / 0x04 % 2 == 1)
        &&& ((row >> 1u8) & 1 == 1) == (row / 0x02 % 2 == 1)
        &&& ((row >> 0u8) & 1 == 1) == (row % 2 == 1)
    }) by (bit_vector);
}

/// The exclusive or of two bits is a bit, set when exactly one of them is.
proof fn lemma_flip(pixel: u32, bit: u32)
    requires
        pixel <= 1,
        bit <= 1,
    ensures
        pixel ^ bit <= 1,
        (pixel ^ bit == 1) == ((pixel == 1) != (bit == 1)),
{
    assert(pixel <= 1 && bit <= 1 ==> pixel ^ bit <= 1 && ((pixel ^ bit == 1) == ((pixel == 1)
        != (bit == 1)))) by (bit_vector);
}

/// Drawing the same sprite twice at the same coordinates restores the
/// screen. The second drawing reports a collision exactly when the first
/// one turned a pixel on, for that pixel then goes off again.
pub proof fn lemma_paint_twice_restores(screen: Seq<bool>, x: u8, y: u8, sprite: Seq<u8>)
    ensures
        painted(painted(screen, x, y, sprite), x, y, sprite) == screen,
        collides(painted(screen, x, y, sprite), x, y, sprite) <==> exists|i: int|
            0 <= i < screen.len() && !screen[i] && #[trigger] flips(sprite, x, y, i),
{
    let once = painted(screen, x, y, sprite);
    assert(painted(once, x, y, sprite) =~= screen);
    if collides(once, x, y, sprite) {
        let i = choose|i: int| 0 <= i < once.len() && once[i] && #[trigger] flips(sprite, x, y, i);
        assert(!screen[i] && flips(sprite, x, y, i));
    }
    if exists|i: int| 0 <= i < screen.len() && !screen[i] && #[trigger] flips(sprite, x, y, i) {
        let i = choose|i: int|
            0 <= i < screen.len() && !screen[i] && #[trigger] flips(sprite, x, y, i);
        assert(once[i] && flips(sprite, x, y, i));
    }
}

/// One more host key that is down presses the keypad key it stands for, if
/// it stands for one, and changes nothing else.
pub proof fn lemma_one_more_key_down(keys: Seq<Key>, key: Key)
    ensures
        keys_down(keys.push(key)) == match keypad_key(key) {
            Some(vkey) => keys_down(keys).update(vkey.number(), true),
            None => keys_down(keys),
        },
{
    let more = keys.push(key);
    let expected = match keypad_key(key) {
        Some(vkey) => keys_down(keys).update(vkey.number(), true),
        None => keys_down(keys),
    };
    assert forall|n: int| 0 <= n < 16 implies keys_down(more)[n] == expected[n] by {
        if keys_down(keys)[n] {
            let k = choose|k: int|
                0 <= k < keys.len() && #[trigger] keypad_key(keys[k]) == Some(key_of_number(n));
            assert(keypad_key(more[k]) == Some(key_of_number(n)));
        }
        if keypad_key(key) == Some(key_of_number(n)) {
            assert(keypad_key(more[keys.len() as int]) == Some(key_of_number(n)));
        }
        if keys_down(more)[n] {
            let k = choose|k: int|
                0 <= k < more.len() && #[trigger] keypad_key(more[k]) == Some(key_of_number(n));
            if k < keys.len() {
                assert(keypad_key(keys[k]) == Some(key_of_number(n)));
            }
        }
    }
    assert(keys_down(more) =~= expected);
}

/// The frame buffer, with the keypad that belongs to the same window.
pub struct FrameBuffer {
    /// One entry per pixel, 0 or 1, row by row.
    pub bit_buffer: Vec<u32>,
    /// The colour of each pixel.
    pub pixel_buffer: Vec<u32>,
    /// Whether a pixel has changed since the buffer was last shown.
    pub should_update: bool,
    pub keyboard: Keyboard,
}

impl View for FrameBuffer {
    type V = Seq<bool>;

    /// For each pixel, row by row, whether it is on.
    open spec fn view(&self) -> Seq<bool> {
        Seq::new(self.bit_buffer@.len(), |i: int| self.bit_buffer@[i] == 1)
    }
}

impl FrameBuffer {
    /// Both buffers hold one entry per pixel, each bit is 0 or 1, and each
    /// colour is that of its bit.
    pub open spec fn wf(&self) -> bool {
        &&& self.bit_buffer@.len() == WIDTH * HEIGHT
        &&& self.pixel_buffer@.len() == WIDTH * HEIGHT
        &&& forall|i: int|
            0 <= i < WIDTH * HEIGHT ==> {
                &&& #[trigger] self.bit_buffer@[i] <= 1
                &&& self.pixel_buffer@[i] == if self.bit_buffer@[i] == 1 {
                    COLOUR_ON
                } else {
                    COLOUR_OFF
                }
            }
    }

    /// A dark screen that needs no showing, and a keypad with every key up.
    pub fn new() -> (fb: Self)
        ensures
            fb.wf(),
            fb@ == Seq::new((WIDTH * HEIGHT) as nat, |i: int| false),
            !fb.should_update,
            fb.keyboard@ == Seq::new(16, |n: int| false),
    {
        let fb = Self {
            bit_buffer: vec![0; WIDTH * HEIGHT],
            pixel_buffer: vec![0; WIDTH * HEIGHT],
            should_update: false,
            keyboard: Keyboard::new(),
        };
        assert(fb@ =~= Seq::new((WIDTH * HEIGHT) as nat, |i: int| false));
        fb
    }

    /// Turns every pixel off. The screen has to be shown again if a pixel
    /// was on.
    pub fn clear_buffer(&mut self)
        ensures
            final(self).wf(),
            final(self)@ == Seq::new((WIDTH * HEIGHT) as nat, |i: int| false),
            final(self).should_update == (old(self).should_update || any_on(old(self)@)),
            final(self).keyboard == old(self).keyboard,
    {
        let mut lit = false;
        let mut i: usize = 0;
        while i < self.bit_buffer.len()
            invariant
                *self == *old(self),
                i <= self.bit_buffer@.len(),
                lit ==> any_on(self@),
                !lit ==> forall|k: int| 0 <= k < i ==> !#[trigger] self@[k],
            decreases self.bit_buffer@.len() - i,
        {
            if self.bit_buffer[i] == 1 {
                assert(self@[i as int]);
                lit = true;
            }
            i += 1;
        }
        self.bit_buffer = vec![0; WIDTH * HEIGHT];
        self.pixel_buffer = vec![0; WIDTH * HEIGHT];
        if lit {
            self.should_update = true;
        }
        assert(self@ =~= Seq::new((WIDTH * HEIGHT) as nat, |i: int| false));
    }

    /// Draws a sprite with its top left corner at `(x, y)`, the coordinates
    /// taken modulo the size of the grid: every pixel under a set bit of the
    /// sprite is flipped, and what would fall outside the grid is dropped.
    /// The result tells whether a pixel that was on went off. The screen has
    /// to be shown again if a pixel was flipped.
    pub fn paint(&mut self, x: u8, y: u8, sprite: Vec<u8>) -> (collided: bool)
        requires
            old(self).wf(),
        ensures
            final(self).wf(),
            final(self)@ == painted(old(self)@, x, y, sprite@),
            collided == collides(old(self)@, x, y, sprite@),
            final(self).should_update == (old(self).should_update || changes(
                old(self)@,
                x,
                y,
                sprite@,
            )),
            final(self).keyboard == old(self).keyboard,
    {
        let (x0, y0) = (x as usize % WIDTH, y as usize % HEIGHT);
        let ghost rows = sprite@;
        let mut vf = false;
        let mut changed = false;
        let mut i: usize = 0;
        // Rows that would start below the grid are cut off.
        while i < sprite.len() && i < HEIGHT - y0
            invariant
                x0 == x as int % 64,
                y0 == y as int % 32,
                rows == sprite@,
                i <= rows.len(),
                i <= HEIGHT - y0,
                self.wf(),
                old(self)@.len() == WIDTH * HEIGHT,
                self.keyboard == old(self).keyboard,
                forall|k: int|
                    0 <= k < WIDTH * HEIGHT ==> #[trigger] self@[k] == (old(self)@[k]
                        != flips_before(rows, x, y, k, i as int, 0)),
                vf ==> collides(old(self)@, x, y, rows),
                !vf ==> forall|k: int|
                    0 <= k < WIDTH * HEIGHT && old(self)@[k] ==> !#[trigger] flips_before(
                        rows, x, y, k, i as int, 0),
                self.should_update == old(self).should_update,
                changed ==> changes(old(self)@, x, y, rows),
                !changed ==> forall|k: int|
                    0 <= k < WIDTH * HEIGHT ==> !#[trigger] flips_before(rows, x, y, k, i as int, 0),
            decreases rows.len() - i,
        {
            let row = sprite[i];
            let mut j: usize = 0;
            while j < 8
                invariant
                    x0 == x as int % 64,
                    y0 == y as int % 32,
                    i < rows.len(),
                    i < HEIGHT - y0,
                    row == rows[i as int],
                    j <= 8,
                    self.wf(),
                    old(self)@.len() == WIDTH * HEIGHT,
                    self.keyboard == old(self).keyboard,
                    forall|k: int|
                        0 <= k < WIDTH * HEIGHT ==> #[trigger] self@[k] == (old(self)@[k]
                            != flips_before(rows, x, y, k, i as int, j as int)),
                    vf ==> collides(old(self)@, x, y, rows),
                    !vf ==> forall|k: int|
                        0 <= k < WIDTH * HEIGHT && old(self)@[k] ==> !#[trigger] flips_before(
                            rows, x, y, k, i as int, j as int),
                    self.should_update == old(self).should_update,
                    changed ==> changes(old(self)@, x, y, rows),
                    !changed ==> forall|k: int|
                        0 <= k < WIDTH * HEIGHT ==> !#[trigger] flips_before(
                            rows, x, y, k, i as int, j as int),
                decreases 8 - j,
            {
                let (nx, ny) = (x0 + j, y0 + i);
                // Columns right of the grid are cut off, not wrapped.
                if nx < WIDTH {
                    let index = (ny * WIDTH) + nx;
                    let shift: u8 = 7 - j as u8;
                    let bit: u8 = (row >> shift) & 1;
                    let previous = self.bit_buffer[index];
                    let flipped = previous ^ bit as u32;
                    proof {
                        lemma_row_bit(row, shift);
                        lemma_flip(previous, bit as u32);
                    }
                    let ghost before = self@;
                    self.bit_buffer[index] = flipped;
                    if previous != flipped && flipped == 0 {
                        vf = true;
                    }
                    if previous != flipped {
                        changed = true;
                    }
                    match flipped {
                        0 => {
                            self.pixel_buffer[index] = COLOUR_OFF;
                        },
                        _ => {
                            self.pixel_buffer[index] = COLOUR_ON;
                        },
                    }
                    proof {
                        let here = index as int;
                        // This pixel was not drawn on before, and no other one is now.
                        assert(before[here] == (old(self)@[here] != flips_before(
                            rows, x, y, here, i as int, j as int)));
                        assert forall|k: int| 0 <= k < WIDTH * HEIGHT && k != here implies
                            #[trigger] flips_before(rows, x, y, k, i as int, j + 1)
                                == flips_before(rows, x, y, k, i as int, j as int) by {}
                        assert forall|k: int| 0 <= k < WIDTH * HEIGHT implies
                            #[trigger] self@[k] == (old(self)@[k]
                                != flips_before(rows, x, y, k, i as int, j + 1)) by {
                            assert(before[k] == (old(self)@[k]
                                != flips_before(rows, x, y, k, i as int, j as int)));
                        }
                        if previous != flipped {
                            assert(flips(rows, x, y, here));
                        }
                        if previous != flipped && flipped == 0 {
                            assert(old(self)@[here]);
                        }
                    }
                } else {
                    assert forall|k: int| 0 <= k < WIDTH * HEIGHT implies
                        #[trigger] flips_before(rows, x, y, k, i as int, j + 1)
                            == flips_before(rows, x, y, k, i as int, j as int) by {}
                }
                j += 1;
            }
            assert forall|k: int| 0 <= k < WIDTH * HEIGHT implies
                #[trigger] flips_before(rows, x, y, k, i + 1, 0)
                    == flips_before(rows, x, y, k, i as int, 8) by {}
            i += 1;
        }
        proof {
            // Every row that reaches the grid has been drawn.
            assert forall|k: int| 0 <= k < WIDTH * HEIGHT implies
                #[trigger] flips_before(rows, x, y, k, i as int, 0) == flips(rows, x, y, k) by {}
            assert(self@ =~= painted(old(self)@, x, y, rows));
            if !vf {
                assert forall|k: int| 0 <= k < WIDTH * HEIGHT && old(self)@[k] implies
                    !#[trigger] flips(rows, x, y, k) by {
                    assert(!flips_before(rows, x, y, k, i as int, 0));
                }
            }
            if !changed {
                assert forall|k: int| 0 <= k < WIDTH * HEIGHT implies
                    !#[trigger] flips(rows, x, y, k) by {
                    assert(!flips_before(rows, x, y, k, i as int, 0));
                }
            }
        }
        if changed {
            self.should_update = true;
        }
        vf
    }

    /// Takes the state of the keypad from the host keys that are down.
    pub fn check_for_keys(&mut self, keys: &[Key])
        ensures
            final(self).keyboard@ == keys_down(keys@),
            final(self).bit_buffer == old(self).bit_buffer,
            final(self).pixel_buffer == old(self).pixel_buffer,
            final(self).should_update == old(self).should_update,
    {
        self.keyboard.reset();
        let mut i: usize = 0;
        while i < keys.len()
            invariant
                i <= keys@.len(),
                self.keyboard@ == keys_down(keys@.take(i as int)),
                self.bit_buffer == old(self).bit_buffer,
                self.pixel_buffer == old(self).pixel_buffer,
                self.should_update == old(self).should_update,
            decreases keys@.len() - i,
        {
            self.keyboard.update_key(&keys[i]);
            proof {
                lemma_one_more_key_down(keys@.take(i as int), keys@[i as int]);
                assert(keys@.take(i + 1) == keys@.take(i as int).push(keys@[i as int]));
            }
            i += 1;
        }
        assert(keys@.take(i as int) == keys@);
    }

    /// Tells whether the screen has to be shown again, and takes note that
    /// it will be.
    pub fn sync(&mut self) -> (show: bool)
        ensures
            show == old(self).should_update,
            !final(self).should_update,
            final(self).bit_buffer == old(self).bit_buffer,
            final(self).pixel_buffer == old(self).pixel_buffer,
            final(self).keyboard == old(self).keyboard,
    {
        let show = self.should_update;
        self.should_update = false;
        show
    }
}

} // verus!
