//! The packed framebuffer: 160x160 pixels, 2 bits per pixel, 4 colours,
//! row-major, 40 bytes per row.

use crate::grid::Grid;
use vstd::arithmetic::div_mod::lemma_fundamental_div_mod_converse;
use vstd::prelude::*;

verus! {

/// Total framebuffer bytes: 160 pixel rows of 40 packed bytes each.
pub const FB_BYTES: usize = 6400;

/// Background colour written outside wall slices and for empty tiles.
pub const BACKGROUND: u8 = 3;

/// Bit offset of a pixel inside its packed byte: the leftmost pixel of the
/// four sits in the two highest bits.
pub open spec fn spec_shift(col: int) -> u8 {
    (2 * (3 - col % 4)) as u8
}

/// The 2-bit colour of pixel (row, col) in a packed byte sequence.
pub open spec fn spec_pixel_at(s: Seq<u8>, row: int, col: int) -> u8 {
    (s[row * 40 + col / 4] >> spec_shift(col)) & 3
}

/// Writing colour `c` at shift `sh` changes exactly those two bits.
proof fn lemma_masked_write(b: u8, c: u8, sh: u8, sh2: u8)
    by (bit_vector)
    requires
        c < 4,
        sh == 0 || sh == 2 || sh == 4 || sh == 6,
        sh2 == 0 || sh2 == 2 || sh2 == 4 || sh2 == 6,
    ensures
        (((b & !(3u8 << sh)) | (c << sh)) >> sh) & 3 == c,
        sh2 != sh ==> (((b & !(3u8 << sh)) | (c << sh)) >> sh2) & 3 == (b >> sh2) & 3,
{
}

/// A byte holding the same 2-bit colour in all four pixel positions.
proof fn lemma_solid_byte(c: u8, sh: u8)
    by (bit_vector)
    requires
        c < 4,
        sh == 0 || sh == 2 || sh == 4 || sh == 6,
    ensures
        (((c << 6) | (c << 4) | (c << 2) | c) >> sh) & 3 == c,
{
}

/// The packed 160x160 bitmap the renderer writes into, one 2-bit pixel at a
/// time via mask-and-shift, or one solid 4-pixel byte at a time for tiles.
pub struct Framebuffer {
    pub bytes: Vec<u8>,
}

impl Framebuffer {
    /// The packed bytes, row-major.
    pub open spec fn view(&self) -> Seq<u8> {
        self.bytes@
    }

    pub open spec fn wf(&self) -> bool {
        self@.len() == 6400
    }

    /// An all-zero framebuffer.
    pub fn new() -> (fb: Framebuffer)
        ensures
            fb.wf(),
            forall|i: int| 0 <= i < 6400 ==> fb@[i] == 0u8,
    {
        let mut bytes: Vec<u8> = Vec::new();
        let mut i: usize = 0;
        while i < FB_BYTES
            invariant
                i <= 6400,
                bytes@.len() == i,
                forall|j: int| 0 <= j < i ==> bytes@[j] == 0u8,
            decreases 6400 - i,
        {
            bytes.push(0);
            i = i + 1;
        }
        Framebuffer { bytes }
    }

    /// Read back one packed byte.
    pub fn byte_at(&self, i: usize) -> (b: u8)
        requires
            self.wf(),
            i < 6400,
        ensures
            b == self@[i as int],
    {
        self.bytes[i]
    }

    /// Read back the 2-bit colour of one pixel.
    pub fn pixel(&self, row: usize, col: usize) -> (c: u8)
        requires
            self.wf(),
            row < 160,
            col < 160,
        ensures
            c == spec_pixel_at(self@, row as int, col as int),
            c < 4,
    {
        let byte: usize = row * 40 + col / 4;
        let sh: u8 = 2 * (3 - (col % 4) as u8);
        let b = self.bytes[byte];
        proof {
            assert(((b >> sh) & 3) < 4) by (bit_vector);
        }
        (b >> sh) & 3
    }

    /// Write one pixel: read-modify-write exactly the 2 bits belonging to
    /// that column's pixel within its packed byte, preserving the other
    /// three pixels in the same byte.
    pub fn set_pixel(&mut self, row: usize, col: usize, c: u8)
        requires
            old(self).wf(),
            row < 160,
            col < 160,
            c < 4,
        ensures
            final(self).wf(),
            spec_pixel_at(final(self)@, row as int, col as int) == c,
            forall|r2: int, c2: int|
                0 <= r2 < 160 && 0 <= c2 < 160 && !(r2 == row && c2 == col)
                    ==> spec_pixel_at(final(self)@, r2, c2) == spec_pixel_at(old(self)@, r2, c2),
            forall|i: int|
                0 <= i < 6400 && i != row * 40 + col / 4 ==> final(self)@[i] == old(self)@[i],
    {
        let byte: usize = row * 40 + col / 4;
        let sh: u8 = 2 * (3 - (col % 4) as u8);
        let b = self.bytes[byte];
        let nb = (b & !(3u8 << sh)) | (c << sh);
        self.bytes[byte] = nb;
        proof {
            assert(sh == spec_shift(col as int));
            lemma_masked_write(b, c, sh, 0);
            lemma_masked_write(b, c, sh, 2);
            lemma_masked_write(b, c, sh, 4);
            lemma_masked_write(b, c, sh, 6);
            assert forall|r2: int, c2: int|
                0 <= r2 < 160 && 0 <= c2 < 160 && !(r2 == row && c2 == col) implies spec_pixel_at(
                self@,
                r2,
                c2,
            ) == spec_pixel_at(old(self)@, r2, c2) by {
                if r2 * 40 + c2 / 4 == byte {
                    assert(r2 == row && c2 / 4 == col / 4) by (nonlinear_arith)
                        requires
                            0 <= r2 < 160 && 0 <= c2 < 160 && 0 <= row < 160 && 0 <= col < 160
                                && r2 * 40 + c2 / 4 == row * 40 + col / 4,
                    ;
                    assert(c2 % 4 != col % 4);
                    assert(spec_shift(c2) != spec_shift(col as int));
                }
            }
        }
    }

    /// Fill the 4x4 pixel tile of grid cell (row, col) with one colour, one
    /// solid packed byte per pixel row.
    pub fn draw_tile(&mut self, row: usize, col: usize, c: u8)
        requires
            old(self).wf(),
            row < 40,
            col < 40,
            c < 4,
        ensures
            final(self).wf(),
            forall|pr: int, pc: int|
                0 <= pr < 160 && 0 <= pc < 160 && pr / 4 == row && pc / 4 == col
                    ==> spec_pixel_at(final(self)@, pr, pc) == c,
            forall|pr: int, pc: int|
                0 <= pr < 160 && 0 <= pc < 160 && !(pr / 4 == row && pc / 4 == col)
                    ==> spec_pixel_at(final(self)@, pr, pc) == spec_pixel_at(old(self)@, pr, pc),
    {
        let solid: u8 = (c << 6) | (c << 4) | (c << 2) | c;
        let mut r: usize = 0;
        while r < 4
            invariant
                r <= 4,
                self.wf(),
                old(self).wf(),
                row < 40,
                col < 40,
                c < 4,
                solid == ((c << 6) | (c << 4) | (c << 2) | c),
                forall|i: int|
                    0 <= i < 6400 && !(exists|r2: int|
                        0 <= r2 < r && i == #[trigger] ((4 * row + r2) * 40 + col)) ==> self@[i]
                        == old(self)@[i],
                forall|r2: int|
                    0 <= r2 < r ==> self@[#[trigger] ((4 * row + r2) * 40 + col)] == solid,
            decreases 4 - r,
        {
            let byte: usize = (row * 4 + r) * 40 + col;
            self.bytes[byte] = solid;
            assert forall|i: int|
                0 <= i < 6400 && !(exists|r2: int|
                    0 <= r2 < r + 1 && i == #[trigger] ((4 * row + r2) * 40
                        + col)) implies self@[i] == old(self)@[i] by {
                assert(i != (4 * row + (r as int)) * 40 + col);
                assert(byte == (4 * row + (r as int)) * 40 + col);
                assert(!(exists|r2: int| 0 <= r2 < r && i == #[trigger] ((4 * row + r2) * 40 + col)));
            }
            r = r + 1;
        }
        proof {
            assert forall|pr: int, pc: int|
                0 <= pr < 160 && 0 <= pc < 160 implies (if pr / 4 == row && pc / 4 == col {
                spec_pixel_at(self@, pr, pc) == c
            } else {
                spec_pixel_at(self@, pr, pc) == spec_pixel_at(old(self)@, pr, pc)
            }) by {
                let i = pr * 40 + pc / 4;
                assert(0 <= pc / 4 < 40);
                assert(0 <= i < 6400) by (nonlinear_arith)
                    requires
                        0 <= pr < 160 && 0 <= pc / 4 < 40 && i == pr * 40 + pc / 4,
                ;
                if pr / 4 == row && pc / 4 == col {
                    let r2 = pr % 4;
                    assert(pr == 4 * (pr / 4) + pr % 4);
                    assert(i == (4 * row + r2) * 40 + col) by (nonlinear_arith)
                        requires
                            pr == 4 * row + r2 && pc / 4 == col && i == pr * 40 + pc / 4,
                    ;
                    assert(self@[i] == solid);
                    lemma_solid_byte(c, spec_shift(pc));
                } else {
                    assert forall|r2: int| 0 <= r2 < 4 implies i != #[trigger] ((4 * row + r2) * 40
                        + col) by {
                        if i == (4 * row + r2) * 40 + col {
                            assert(pr == 4 * row + r2 && pc / 4 == col) by (nonlinear_arith)
                                requires
                                    0 <= pr < 160 && 0 <= pc / 4 < 40 && 0 <= 4 * row + r2 < 160
                                        && 0 <= col < 40 && pr * 40 + pc / 4 == (4 * row + r2) * 40
                                        + col,
                            ;
                            lemma_fundamental_div_mod_converse(pr, 4, row as int, r2);
                            assert(pr / 4 == row && pc / 4 == col);
                        }
                    }
                    assert(self@[i] == old(self)@[i]);
                }
            }
        }
    }

    /// Blit the whole grid as 4x4 tiles: occupied cells with their colour,
    /// empty cells with the background colour.
    pub fn draw_board(&mut self, grid: &Grid)
        requires
            old(self).wf(),
            grid.wf(),
        ensures
            final(self).wf(),
            forall|pr: int, pc: int|
                0 <= pr < 160 && 0 <= pc < 160 ==> spec_pixel_at(final(self)@, pr, pc) == (
                match grid@[40 * (pr / 4) + pc / 4] {
                    Some(c) => c,
                    None => 3u8,
                }),
    {
        let mut ix: usize = 0;
        while ix < 1600
            invariant
                ix <= 1600,
                self.wf(),
                grid.wf(),
                forall|pr: int, pc: int|
                    0 <= pr < 160 && 0 <= pc < 160 && 40 * (pr / 4) + pc / 4 < ix
                        ==> spec_pixel_at(self@, pr, pc) == (match grid@[40 * (pr / 4) + pc / 4] {
                        Some(c) => c,
                        None => 3u8,
                    }),
            decreases 1600 - ix,
        {
            let row = ix / 40;
            let col = ix % 40;
            let colour = match grid.cell_at(row, col) {
                None => BACKGROUND,
                Some(x) => x,
            };
            self.draw_tile(row, col, colour);
            proof {
                assert forall|pr: int, pc: int|
                    0 <= pr < 160 && 0 <= pc < 160 && 40 * (pr / 4) + pc / 4 < ix
                        + 1 implies spec_pixel_at(self@, pr, pc) == (match grid@[40 * (pr / 4) + pc
                    / 4] {
                    Some(c) => c,
                    None => 3u8,
                }) by {
                    if 40 * (pr / 4) + pc / 4 == ix {
                        assert(pr / 4 == row && pc / 4 == col) by (nonlinear_arith)
                            requires
                                0 <= pr / 4 < 40 && 0 <= pc / 4 < 40 && 40 * (pr / 4) + pc / 4 == ix
                                    && row == ix / 40 && col == ix % 40,
                        ;
                    }
                }
            }
            ix = ix + 1;
        }
    }
}

} // verus!
