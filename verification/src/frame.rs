//! The size of the picture and the bytes that are read back from the
//! graphics card.

use vstd::arithmetic::div_mod::lemma_fundamental_div_mod_converse;
use vstd::prelude::*;

verus! {

/// Bytes for each pixel: red, green, blue, alpha.
pub const BYTES_PER_PIXEL: usize = 4;

/// The number of bytes that a picture of `width` by `height` pixels takes.
pub open spec fn frame_len(width: nat, height: nat) -> nat {
    width * height * 4
}

/// Whether a picture of `width` by `height` pixels can be handled: both
/// sides fit the engine's 32-bit signed sizes, and its bytes can be
/// counted.
pub open spec fn viewport_fits(width: nat, height: nat) -> bool {
    &&& width <= i32::MAX
    &&& height <= i32::MAX
    &&& frame_len(width, height) <= usize::MAX
}

/// The size of the picture in pixels.
#[derive(Clone, Copy, Debug)]
pub struct Viewport {
    width: usize,
    height: usize,
}

impl Viewport {
    /// The width in pixels.
    pub closed spec fn width_spec(&self) -> nat {
        self.width as nat
    }

    /// The height in pixels.
    pub closed spec fn height_spec(&self) -> nat {
        self.height as nat
    }

    #[verifier::type_invariant]
    spec fn fits(&self) -> bool {
        viewport_fits(self.width as nat, self.height as nat)
    }

    /// The viewport of `width` by `height` pixels, or nothing when a picture
    /// of that size cannot be handled.
    pub fn new(width: usize, height: usize) -> (viewport: Option<Viewport>)
        ensures
            viewport_fits(width as nat, height as nat) ==> (viewport matches Some(v)
                && v.width_spec() == width && v.height_spec() == height),
            !viewport_fits(width as nat, height as nat) ==> viewport is None,
    {
        if width > 0x7fff_ffff || height > 0x7fff_ffff {
            return None;
        }
        assert(width * height <= 0x7fff_ffff * 0x7fff_ffff) by (nonlinear_arith)
            requires
                0 <= width <= 0x7fff_ffff,
                0 <= height <= 0x7fff_ffff,
        ;
        let bytes: u64 = (width as u64) * (height as u64) * 4;
        if bytes > usize::MAX as u64 {
            return None;
        }
        Some(Viewport { width, height })
    }

    /// The width in pixels.
    pub fn width(&self) -> (width: usize)
        ensures
            width == self.width_spec(),
            viewport_fits(self.width_spec(), self.height_spec()),
    {
        proof {
            use_type_invariant(self);
        }
        self.width
    }

    /// The height in pixels.
    pub fn height(&self) -> (height: usize)
        ensures
            height == self.height_spec(),
            viewport_fits(self.width_spec(), self.height_spec()),
    {
        proof {
            use_type_invariant(self);
        }
        self.height
    }

    /// The width as the engine takes it.
    pub fn width_i32(&self) -> (width: i32)
        ensures
            width == self.width_spec(),
    {
        proof {
            use_type_invariant(self);
        }
        self.width as i32
    }

    /// The height as the engine takes it.
    pub fn height_i32(&self) -> (height: i32)
        ensures
            height == self.height_spec(),
    {
        proof {
            use_type_invariant(self);
        }
        self.height as i32
    }

    /// The number of bytes in a picture.
    pub fn buffer_len(&self) -> (len: usize)
        ensures
            len == frame_len(self.width_spec(), self.height_spec()),
    {
        proof {
            use_type_invariant(self);
            assert(self.width * self.height >= 0) by (nonlinear_arith);
        }
        self.width * self.height * BYTES_PER_PIXEL
    }

    /// A buffer of the size of a picture, filled with zeros, for the pixels
    /// to be read into.
    pub fn capture_buffer(&self) -> (buffer: Vec<u8>)
        ensures
            buffer@ == Seq::new(frame_len(self.width_spec(), self.height_spec()), |i: int| 0u8),
    {
        let len = self.buffer_len();
        let mut buffer: Vec<u8> = Vec::with_capacity(len);
        let mut i: usize = 0;
        while i < len
            invariant
                i <= len,
                buffer@ == Seq::new(i as nat, |k: int| 0u8),
            decreases len - i,
        {
            buffer.push(0u8);
            i = i + 1;
            assert(buffer@ =~= Seq::new(i as nat, |k: int| 0u8));
        }
        buffer
    }

    /// Turns the pixels as the graphics card returns them, bottom row first,
    /// into a picture with the top row first. Gives nothing when `raw` does
    /// not have the size of a picture.
    pub fn finish_capture(&self, raw: Vec<u8>) -> (picture: Option<Vec<u8>>)
        ensures
            raw@.len() == frame_len(self.width_spec(), self.height_spec()) ==> (picture matches Some(
                p,
            ) && p@ == flip_rows(raw@, self.width_spec() * 4, self.height_spec()) && p@.len()
                == frame_len(self.width_spec(), self.height_spec())),
            raw@.len() != frame_len(self.width_spec(), self.height_spec()) ==> picture is None,
    {
        let len = self.buffer_len();
        if raw.len() != len {
            return None;
        }
        proof {
            use_type_invariant(self);
            assert(self.width * 4 * self.height == self.width * self.height * 4) by (nonlinear_arith);
        }
        if self.height == 0 {
            assert(self.width * 0 * 4 == 0 && (self.width * 4) * 0 == 0) by (nonlinear_arith);
            assert(raw@ =~= flip_rows(raw@, self.width_spec() * 4, 0));
            return Some(raw);
        }
        assert(self.width * 4 <= self.width * self.height * 4) by (nonlinear_arith)
            requires
                self.height >= 1,
                self.width >= 0,
        ;
        Some(flip_vertical(&raw, self.width * BYTES_PER_PIXEL, self.height))
    }
}

/// The rows of `pixels` in reverse order: byte `i` of the result is the byte
/// at the same place in the row that is as far from the bottom as the row of
/// `i` is from the top.
pub open spec fn flip_rows(pixels: Seq<u8>, row_len: nat, rows: nat) -> Seq<u8> {
    Seq::new(
        row_len * rows,
        |i: int| pixels[(rows - 1 - i / (row_len as int)) * row_len + i % (row_len as int)],
    )
}

/// Reverses the order of the `rows` rows of `row_len` bytes in `pixels`.
fn flip_vertical(pixels: &Vec<u8>, row_len: usize, rows: usize) -> (flipped: Vec<u8>)
    requires
        pixels@.len() == row_len * rows,
    ensures
        flipped@ == flip_rows(pixels@, row_len as nat, rows as nat),
{
    let len = pixels.len();
    let mut flipped: Vec<u8> = Vec::with_capacity(len);
    let mut row: usize = 0;
    while row < rows
        invariant
            row <= rows,
            len == row_len * rows,
            pixels@.len() == len,
            flipped@.len() == row_len * row,
            forall|i: int|
                0 <= i < row_len * row ==> flipped@[i] == #[trigger] flip_rows(
                    pixels@,
                    row_len as nat,
                    rows as nat,
                )[i],
        decreases rows - row,
    {
        let source: usize = rows - 1 - row;
        proof {
            assert(row_len * source + row_len <= row_len * rows && row_len * source >= 0)
                by (nonlinear_arith)
                requires
                    0 <= source < rows,
                    row_len >= 0,
            ;
            assert(row_len * row + row_len <= row_len * rows && row_len * row >= 0)
                by (nonlinear_arith)
                requires
                    0 <= row < rows,
                    row_len >= 0,
            ;
        }
        let start: usize = row_len * source;
        let mut column: usize = 0;
        while column < row_len
            invariant
                row < rows,
                source == rows - 1 - row,
                column <= row_len,
                start == row_len * source,
                start + row_len <= len,
                row_len * row + row_len <= len,
                row_len * row >= 0,
                len == row_len * rows,
                pixels@.len() == len,
                flipped@.len() == row_len * row + column,
                forall|i: int|
                    0 <= i < row_len * row + column ==> flipped@[i] == #[trigger] flip_rows(
                        pixels@,
                        row_len as nat,
                        rows as nat,
                    )[i],
            decreases row_len - column,
        {
            let byte = pixels[start + column];
            proof {
                let i = row_len * row + column;
                lemma_fundamental_div_mod_converse(i, row_len as int, row as int, column as int);
                assert((rows - 1 - i / (row_len as int)) * row_len + i % (row_len as int) == start
                    + column) by (nonlinear_arith)
                    requires
                        i / (row_len as int) == row,
                        i % (row_len as int) == column,
                        start == row_len * source,
                        source == rows - 1 - row,
                ;
            }
            flipped.push(byte);
            column = column + 1;
        }
        row = row + 1;
        proof {
            assert(row_len * (row - 1) + row_len == row_len * row) by (nonlinear_arith);
        }
    }
    assert(flipped@ =~= flip_rows(pixels@, row_len as nat, rows as nat));
    flipped
}

} // verus!
