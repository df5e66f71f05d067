//! The display the executor draws on: a grid of on/off cells.
//!
//! Sprites are drawn by XOR: setting a pixel toggles it, and a toggle
//! that turns a lit pixel off is reported as a collision. Drawing wraps
//! at the screen edges. Rendering the grid to a pixel buffer is a
//! read-only projection.

use vstd::prelude::*;

verus! {

/// Whether one display cell is lit.
#[derive(Debug, Clone, Copy, PartialEq, Eq, Structural)]
pub enum PixelSet {
    PixelOn,
    PixelOff,
}

/// A grid of on/off cells, stored row-major in a flat vector, together
/// with the colour lit cells are rendered in.
#[derive(Debug)]
pub struct Screen {
    pub width: u32,
    pub height: u32,
    pub color: [u8; 4],
    pub screen: Vec<PixelSet>,
}

/// The cell sequence with the cell at `pos` toggled.
pub open spec fn spec_toggled(s: Seq<PixelSet>, pos: int) -> Seq<PixelSet> {
    s.update(
        pos,
        if s[pos] is PixelOn {
            PixelSet::PixelOff
        } else {
            PixelSet::PixelOn
        },
    )
}

/// Whether bit `i` of a sprite row byte is set, counting from the most
/// significant bit: bit 0 is the leftmost pixel of the row.
pub open spec fn spec_sprite_bit(byte: u8, i: int) -> bool {
    if i == 0 {
        (byte & 0x80) == 0x80
    } else if i == 1 {
        (byte & 0x40) == 0x40
    } else if i == 2 {
        (byte & 0x20) == 0x20
    } else if i == 3 {
        (byte & 0x10) == 0x10
    } else if i == 4 {
        (byte & 0x08) == 0x08
    } else if i == 5 {
        (byte & 0x04) == 0x04
    } else if i == 6 {
        (byte & 0x02) == 0x02
    } else if i == 7 {
        (byte & 0x01) == 0x01
    } else {
        false
    }
}

/// The flat cell position that bit `i` of a sprite row starting at
/// `(x, y)` lands on, wrapping at both screen edges.
pub open spec fn spec_blit_pos(w: int, h: int, x: int, y: int, i: int) -> int {
    (y % h) * w + (x + i) % w
}

/// The cell sequence after drawing the first `k` bits of one sprite row
/// byte at `(x, y)`: each set bit toggles the cell it lands on.
pub open spec fn spec_blit_state(
    s: Seq<PixelSet>,
    w: int,
    h: int,
    byte: u8,
    x: int,
    y: int,
    k: int,
) -> Seq<PixelSet>
    decreases k,
{
    if k <= 0 {
        s
    } else {
        let prev = spec_blit_state(s, w, h, byte, x, y, k - 1);
        if spec_sprite_bit(byte, k - 1) {
            spec_toggled(prev, spec_blit_pos(w, h, x, y, k - 1))
        } else {
            prev
        }
    }
}

/// Whether drawing the first `k` bits of one sprite row byte at `(x, y)`
/// turns some previously-lit cell off.
pub open spec fn spec_blit_collision(
    s: Seq<PixelSet>,
    w: int,
    h: int,
    byte: u8,
    x: int,
    y: int,
    k: int,
) -> bool
    decreases k,
{
    if k <= 0 {
        false
    } else {
        let prev = spec_blit_state(s, w, h, byte, x, y, k - 1);
        let prev_c = spec_blit_collision(s, w, h, byte, x, y, k - 1);
        if spec_sprite_bit(byte, k - 1) {
            prev_c || prev[spec_blit_pos(w, h, x, y, k - 1)] is PixelOn
        } else {
            prev_c
        }
    }
}

/// Whether a rendered pixel is the all-zero (unlit) value.
pub open spec fn spec_unlit(c: [u8; 4]) -> bool {
    c@[0] == 0 && c@[1] == 0 && c@[2] == 0 && c@[3] == 0
}

/// Whether bit `i` of a sprite row byte is set, counting from the most
/// significant bit.
fn sprite_bit(byte: u8, i: u8) -> (r: bool)
    requires
        i < 8,
    ensures
        r == spec_sprite_bit(byte, i as int),
{
    let mask: u8 = if i == 0 {
        0x80
    } else if i == 1 {
        0x40
    } else if i == 2 {
        0x20
    } else if i == 3 {
        0x10
    } else if i == 4 {
        0x08
    } else if i == 5 {
        0x04
    } else if i == 6 {
        0x02
    } else {
        0x01
    };
    (byte & mask) == mask
}

impl Screen {
    /// The cell vector covers the grid exactly, and the grid is small
    /// enough for flat positions to be computed in 32 bits.
    pub open spec fn wf(self) -> bool {
        &&& self.screen@.len() == self.width as int * self.height as int
        &&& self.width as int * self.height as int <= u32::MAX as int
    }

    /// The grid dimensions and colour of `a` and `b` agree.
    pub open spec fn same_frame(a: Screen, b: Screen) -> bool {
        &&& a.width == b.width
        &&& a.height == b.height
        &&& a.color == b.color
    }

    /// A screen of the given dimensions with every cell off, rendered
    /// in opaque white.
    pub fn new(width: u32, height: u32) -> (s: Screen)
        requires
            width as int * height as int <= u32::MAX as int,
        ensures
            s.wf(),
            s.width == width,
            s.height == height,
            s.screen@.len() == width as int * height as int,
            forall|j: int| 0 <= j < s.screen@.len() ==> !(s.screen@[j] is PixelOn),
            s.color@ == seq![0xFFu8, 0xFF, 0xFF, 0xFF],
    {
        let n: u32 = width * height;
        let mut cells: Vec<PixelSet> = Vec::new();
        let mut i: u32 = 0;
        while i < n
            invariant
                i <= n,
                cells@.len() == i as int,
                forall|j: int| 0 <= j < i as int ==> !(cells@[j] is PixelOn),
            decreases n - i,
        {
            cells.push(PixelSet::PixelOff);
            i = i + 1;
        }
        Screen { width, height, color: [0xFF, 0xFF, 0xFF, 0xFF], screen: cells }
    }

    /// Toggle the cell at `(x, y)` and report whether it was lit before
    /// the toggle (a lit cell being toggled off is a collision).
    pub fn set_pixel(&mut self, x: u32, y: u32) -> (r: bool)
        requires
            old(self).wf(),
            x < old(self).width,
            y < old(self).height,
        ensures
            final(self).wf(),
            Screen::same_frame(*old(self), *final(self)),
            final(self).screen@ == spec_toggled(
                old(self).screen@,
                y as int * old(self).width as int + x as int,
            ),
            r == (old(self).screen@[y as int * old(self).width as int + x as int] is PixelOn),
    {
        proof {
            let w = self.width as int;
            let h = self.height as int;
            let xi = x as int;
            let yi = y as int;
            assert(yi * w + xi < w * h) by (nonlinear_arith)
                requires
                    0 <= xi < w,
                    0 <= yi < h,
            ;
        }
        let pos: u32 = y * self.width + x;
        match self.screen[pos as usize] {
            PixelSet::PixelOff => {
                self.screen.set(pos as usize, PixelSet::PixelOn);
                false
            },
            PixelSet::PixelOn => {
                self.screen.set(pos as usize, PixelSet::PixelOff);
                true
            },
        }
    }

    /// Draw one 8-pixel sprite row byte with its leftmost pixel at
    /// `(x, y)`: each set bit toggles the cell it lands on, wrapping at
    /// the screen edges. Reports whether any lit cell was turned off.
    pub fn set_byte_pixels(&mut self, byte: u8, x: u32, y: u32) -> (r: bool)
        requires
            old(self).wf(),
            old(self).width > 0,
            old(self).height > 0,
            x <= u32::MAX - 8,
        ensures
            final(self).wf(),
            Screen::same_frame(*old(self), *final(self)),
            final(self).screen@ == spec_blit_state(
                old(self).screen@,
                old(self).width as int,
                old(self).height as int,
                byte,
                x as int,
                y as int,
                8,
            ),
            r == spec_blit_collision(
                old(self).screen@,
                old(self).width as int,
                old(self).height as int,
                byte,
                x as int,
                y as int,
                8,
            ),
    {
        let mut overlap: bool = false;
        let mut i: u8 = 0;
        while i < 8
            invariant
                i <= 8,
                self.wf(),
                self.width > 0,
                self.height > 0,
                x <= u32::MAX - 8,
                Screen::same_frame(*old(self), *self),
                self.screen@ == spec_blit_state(
                    old(self).screen@,
                    old(self).width as int,
                    old(self).height as int,
                    byte,
                    x as int,
                    y as int,
                    i as int,
                ),
                overlap == spec_blit_collision(
                    old(self).screen@,
                    old(self).width as int,
                    old(self).height as int,
                    byte,
                    x as int,
                    y as int,
                    i as int,
                ),
            decreases 8 - i,
        {
            if sprite_bit(byte, i) {
                let px: u32 = (x + i as u32) % self.width;
                let py: u32 = y % self.height;
                if self.set_pixel(px, py) {
                    overlap = true;
                }
            }
            i = i + 1;
        }
        overlap
    }

    /// Reset every cell to off.
    pub fn clear_screen(&mut self)
        requires
            old(self).wf(),
        ensures
            final(self).wf(),
            Screen::same_frame(*old(self), *final(self)),
            final(self).screen@.len() == old(self).screen@.len(),
            forall|j: int| 0 <= j < final(self).screen@.len() ==> !(final(self).screen@[j]
                is PixelOn),
    {
        let n: usize = self.screen.len();
        let mut i: usize = 0;
        while i < n
            invariant
                i <= n,
                self.wf(),
                Screen::same_frame(*old(self), *self),
                self.screen@.len() == n as int,
                n as int == old(self).screen@.len(),
                forall|j: int| 0 <= j < i as int ==> !(self.screen@[j] is PixelOn),
            decreases n - i,
        {
            self.screen.set(i, PixelSet::PixelOff);
            i = i + 1;
        }
    }

    /// Project the grid to a renderable buffer: one colour value per
    /// cell, the screen colour where the cell is lit and the all-zero
    /// value where it is not.
    pub fn screen_to_render(&self) -> (r: Vec<[u8; 4]>)
        ensures
            r@.len() == self.screen@.len(),
            forall|j: int|
                0 <= j < r@.len() ==> (if self.screen@[j] is PixelOn {
                    r@[j] == self.color
                } else {
                    spec_unlit(r@[j])
                }),
    {
        let n: usize = self.screen.len();
        let mut out: Vec<[u8; 4]> = Vec::new();
        let mut i: usize = 0;
        while i < n
            invariant
                i <= n,
                n as int == self.screen@.len(),
                out@.len() == i as int,
                forall|j: int|
                    0 <= j < i as int ==> (if self.screen@[j] is PixelOn {
                        out@[j] == self.color
                    } else {
                        spec_unlit(out@[j])
                    }),
            decreases n - i,
        {
            match self.screen[i] {
                PixelSet::PixelOn => {
                    out.push(self.color);
                },
                PixelSet::PixelOff => {
                    let unlit: [u8; 4] = [0, 0, 0, 0];
                    out.push(unlit);
                },
            }
            i = i + 1;
        }
        out
    }
}

} // verus!
