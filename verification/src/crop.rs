//! Matrix crops: a window of an 8 by 8 grid of cells laid over a picture,
//! and the pixel margins that cut the window out of a frame.

use crate::error::Error;
use crate::flow::AspectRatio;
use crate::text::{chars_of, parse_number, parse_unsigned, slice, split, split_spans};
use vstd::prelude::*;

verus! {

/// The whole of a window, in hundredths of a percent.
pub const PERCENT: u32 = 10_000;

/// The widest gap that a crop may have: half the window.
pub const MAX_GAP: u32 = 5_000;

/// Video matrix crop configuration
#[derive(Clone, Copy, Debug, PartialEq, Eq, Structural)]
pub struct MatrixCrop {
    /// Aspect ratio setting
    aspect: AspectRatio,
    /// X-position `0..=7` in matrix
    x: u8,
    /// Y-position `0..=7` in matrix
    y: u8,
    /// Width `1..=8` of matrix
    width: u8,
    /// Height `1..=8` of matrix
    height: u8,
    /// Horizontal gap at edges, in hundredths of percent of the window
    hgap: u32,
    /// Vertical gap at edges, in hundredths of percent of the window
    vgap: u32,
}

/// What a matrix crop says, as plain values.
pub struct MatrixCropView {
    pub aspect: AspectRatio,
    pub x: u8,
    pub y: u8,
    pub width: u8,
    pub height: u8,
    pub hgap: u32,
    pub vgap: u32,
}

/// Pixels to cut from one edge of a frame that is `dim` pixels long, where
/// `cells` of the `extent` cells of the matrix lie between that edge and the
/// window, and the gap is `gap` hundredths of a percent of the window: the
/// cells' share of the frame, and half the gap's share of one cell.
pub open spec fn margin(dim: int, cells: int, extent: int, gap: int) -> int {
    dim * cells / extent + dim * gap / (extent * PERCENT * 2)
}

impl MatrixCropView {
    /// The crop that keeps the whole picture.
    pub open spec fn whole() -> MatrixCropView {
        MatrixCropView {
            aspect: AspectRatio::PRESERVE,
            x: 0,
            y: 0,
            width: 1,
            height: 1,
            hgap: 0,
            vgap: 0,
        }
    }

    /// The window lies within a matrix of at most 8 by 8 cells, and no gap
    /// is wider than half the window.
    pub open spec fn valid(self) -> bool {
        &&& self.x < self.width <= 8
        &&& self.y < self.height <= 8
        &&& self.hgap <= MAX_GAP
        &&& self.vgap <= MAX_GAP
    }

    /// The window is a proper part of the picture.
    pub open spec fn is_cropped(self) -> bool {
        self.width > 1 || self.height > 1
    }

    /// Pixels to cut from the top of a frame `height` pixels high.
    pub open spec fn top(self, height: u32) -> int {
        margin(height as int, self.y as int, self.height as int, self.vgap as int)
    }

    /// Pixels to cut from the bottom of a frame `height` pixels high.
    pub open spec fn bottom(self, height: u32) -> int {
        margin(
            height as int,
            self.height - self.y - 1,
            self.height as int,
            self.vgap as int,
        )
    }

    /// Pixels to cut from the left of a frame `width` pixels wide.
    pub open spec fn left(self, width: u32) -> int {
        margin(width as int, self.x as int, self.width as int, self.hgap as int)
    }

    /// Pixels to cut from the right of a frame `width` pixels wide.
    pub open spec fn right(self, width: u32) -> int {
        margin(width as int, self.width - self.x - 1, self.width as int, self.hgap as int)
    }
}

/// The two margins on opposite edges of a frame never take more than the
/// frame: with `before` cells on one side of the window and `after` on the
/// other, out of `extent`, and a gap of at most half the window.
pub proof fn lemma_margins_fit(dim: int, before: int, after: int, extent: int, gap: int)
    requires
        0 <= dim,
        0 <= before,
        0 <= after,
        before + after + 1 == extent,
        0 <= gap <= MAX_GAP,
    ensures
        0 <= margin(dim, before, extent, gap),
        0 <= margin(dim, after, extent, gap),
        margin(dim, before, extent, gap) + margin(dim, after, extent, gap) <= dim,
{
    let a = dim * before / extent;
    let b = dim * after / extent;
    let g = dim * gap / (extent * PERCENT * 2);
    let d2 = extent * PERCENT * 2;
    assert(d2 == extent * 20000) by (nonlinear_arith)
        requires
            d2 == extent * PERCENT * 2,
    ;
    assert(0 <= a && a * extent <= dim * before) by (nonlinear_arith)
        requires
            a == dim * before / extent,
            extent > 0,
            dim >= 0,
            before >= 0,
    ;
    assert(0 <= b && b * extent <= dim * after) by (nonlinear_arith)
        requires
            b == dim * after / extent,
            extent > 0,
            dim >= 0,
            after >= 0,
    ;
    assert(0 <= g && g * (extent * 20000) <= dim * gap) by (nonlinear_arith)
        requires
            g == dim * gap / (extent * 20000),
            extent > 0,
            dim >= 0,
            gap >= 0,
    ;
    assert(dim * gap <= dim * 5000) by (nonlinear_arith)
        requires
            0 <= dim,
            0 <= gap <= 5000,
    ;
    assert((a + b + 2 * g) * extent * 2 <= dim * (2 * extent - 1)) by (nonlinear_arith)
        requires
            a * extent <= dim * before,
            b * extent <= dim * after,
            g * (extent * 20000) <= dim * 5000,
            before + after + 1 == extent,
            0 <= g,
            0 <= dim,
    ;
    assert(a + b + 2 * g <= dim) by (nonlinear_arith)
        requires
            (a + b + 2 * g) * extent * 2 <= dim * (2 * extent - 1),
            extent >= 1,
            0 <= dim,
    ;
}

/// The margins cut from the top and from the bottom of a frame leave its
/// height or less, for every valid crop and every frame height.
pub proof fn lemma_vertical_margins_fit(crop: MatrixCropView, height: u32)
    requires
        crop.valid(),
    ensures
        0 <= crop.top(height),
        0 <= crop.bottom(height),
        crop.top(height) + crop.bottom(height) <= height,
{
    lemma_margins_fit(
        height as int,
        crop.y as int,
        crop.height - crop.y - 1,
        crop.height as int,
        crop.vgap as int,
    );
}

/// The margins cut from the left and from the right of a frame leave its
/// width or less, for every valid crop and every frame width.
pub proof fn lemma_horizontal_margins_fit(crop: MatrixCropView, width: u32)
    requires
        crop.valid(),
    ensures
        0 <= crop.left(width),
        0 <= crop.right(width),
        crop.left(width) + crop.right(width) <= width,
{
    lemma_margins_fit(
        width as int,
        crop.x as int,
        crop.width - crop.x - 1,
        crop.width as int,
        crop.hgap as int,
    );
}

/// The matrix position that a letter of a crop code stands for: `A` to `H`
/// are the cells 0 to 7.
pub open spec fn cell(c: char) -> Option<u8> {
    if 'A' <= c <= 'H' {
        Some((c as int - 'A' as int) as u8)
    } else {
        None
    }
}

/// The crop that a definition denotes: three fields between commas, of
/// which the first is a code of four letters (column, row, last column, last
/// row) and the others are the horizontal and the vertical gap.
pub open spec fn parse_crop(s: Seq<char>) -> Option<MatrixCropView> {
    let p = split(s, ',');
    if p.len() == 3 && p[0].len() == 4 {
        match (
            cell(p[0][0]),
            cell(p[0][1]),
            cell(p[0][2]),
            cell(p[0][3]),
            parse_unsigned(p[1], MAX_GAP as nat),
            parse_unsigned(p[2], MAX_GAP as nat),
        ) {
            (Some(x), Some(y), Some(w), Some(h), Some(hgap), Some(vgap)) => if x <= w && y <= h {
                Some(
                    MatrixCropView {
                        aspect: AspectRatio::PRESERVE,
                        x,
                        y,
                        width: (w + 1) as u8,
                        height: (h + 1) as u8,
                        hgap: hgap as u32,
                        vgap: vgap as u32,
                    },
                )
            } else {
                None
            },
            _ => None,
        }
    } else {
        None
    }
}

/// Every crop that a definition denotes is valid.
pub proof fn lemma_parsed_crop_valid(s: Seq<char>)
    ensures
        parse_crop(s) matches Some(c) ==> c.valid(),
{
}

impl View for MatrixCrop {
    type V = MatrixCropView;

    closed spec fn view(&self) -> MatrixCropView {
        MatrixCropView {
            aspect: self.aspect,
            x: self.x,
            y: self.y,
            width: self.width,
            height: self.height,
            hgap: self.hgap,
            vgap: self.vgap,
        }
    }
}

impl Default for MatrixCrop {
    fn default() -> (r: Self)
        ensures
            r@ == MatrixCropView::whole(),
    {
        MatrixCrop {
            aspect: AspectRatio::PRESERVE,
            x: 0,
            y: 0,
            width: 1,
            height: 1,
            hgap: 0,
            vgap: 0,
        }
    }
}

impl TryFrom<&str> for MatrixCrop {
    type Error = Error;

    fn try_from(v: &str) -> (r: Result<Self, Error>)
        ensures
            match parse_crop(v@) {
                Some(c) => r matches Ok(m) && m@ == c,
                None => r == Err::<MatrixCrop, Error>(Error::InvalidCrop()),
            },
    {
        MatrixCrop::try_from(v)
    }
}

impl vstd::std_specs::convert::TryFromSpecImpl<&str> for MatrixCrop {
    open spec fn obeys_try_from_spec() -> bool {
        true
    }

    closed spec fn try_from_spec(v: &str) -> Result<Self, Error> {
        match parse_crop(v@) {
            Some(c) => Ok(
                MatrixCrop {
                    aspect: c.aspect,
                    x: c.x,
                    y: c.y,
                    width: c.width,
                    height: c.height,
                    hgap: c.hgap,
                    vgap: c.vgap,
                },
            ),
            None => Err(Error::InvalidCrop()),
        }
    }
}

impl MatrixCrop {
    #[verifier::type_invariant]
    spec fn inv(self) -> bool {
        self@.valid()
    }

    /// Parses a crop definition such as `"ABBC,500,500"`.
    pub fn try_from(v: &str) -> (r: Result<MatrixCrop, Error>)
        ensures
            match parse_crop(v@) {
                Some(c) => r matches Ok(m) && m@ == c,
                None => r == Err::<MatrixCrop, Error>(Error::InvalidCrop()),
            },
    {
        let chars = chars_of(v);
        let p = split_spans(&chars, ',');
        if p.len() != 3 {
            return Err(Error::InvalidCrop());
        }
        let code = p[0];
        assert(code.of(chars@) == split(v@, ',')[0]);
        assert(p@[1].of(chars@) == split(v@, ',')[1]);
        assert(p@[2].of(chars@) == split(v@, ',')[2]);
        if code.end - code.start != 4 {
            return Err(Error::InvalidCrop());
        }
        let x = MatrixCrop::position(chars[code.start]);
        let y = MatrixCrop::position(chars[code.start + 1]);
        let w = MatrixCrop::position(chars[code.start + 2]);
        let h = MatrixCrop::position(chars[code.start + 3]);
        let hgap = parse_number(slice(v, p[1]), MAX_GAP as u64);
        let vgap = parse_number(slice(v, p[2]), MAX_GAP as u64);
        match (x, y, w, h, hgap, vgap) {
            (Ok(x), Ok(y), Ok(w), Ok(h), Some(hgap), Some(vgap)) => {
                if x <= w && y <= h {
                    Ok(
                        MatrixCrop {
                            aspect: AspectRatio::PRESERVE,
                            x,
                            y,
                            width: w + 1,
                            height: h + 1,
                            hgap: hgap as u32,
                            vgap: vgap as u32,
                        },
                    )
                } else {
                    Err(Error::InvalidCrop())
                }
            },
            _ => Err(Error::InvalidCrop()),
        }
    }

    /// Get a matrix position from a crop code
    pub fn position(c: char) -> (r: Result<u8, Error>)
        ensures
            match cell(c) {
                Some(p) => r == Ok::<u8, Error>(p),
                None => r == Err::<u8, Error>(Error::InvalidCrop()),
            },
    {
        if 'A' <= c && c <= 'H' {
            Ok((c as u8) - 65)
        } else {
            Err(Error::InvalidCrop())
        }
    }

    /// Get the aspect ratio setting
    pub fn aspect(&self) -> (r: AspectRatio)
        ensures
            r == self@.aspect,
            self@.valid(),
    {
        proof {
            use_type_invariant(self);
        }
        self.aspect
    }

    /// Get the column of the window's left edge
    pub fn x(&self) -> (r: u8)
        ensures
            r == self@.x,
            self@.valid(),
    {
        proof {
            use_type_invariant(self);
        }
        self.x
    }

    /// Get the row of the window's top edge
    pub fn y(&self) -> (r: u8)
        ensures
            r == self@.y,
            self@.valid(),
    {
        proof {
            use_type_invariant(self);
        }
        self.y
    }

    /// Get the number of columns of the matrix
    pub fn width(&self) -> (r: u8)
        ensures
            r == self@.width,
            self@.valid(),
    {
        proof {
            use_type_invariant(self);
        }
        self.width
    }

    /// Get the number of rows of the matrix
    pub fn height(&self) -> (r: u8)
        ensures
            r == self@.height,
            self@.valid(),
    {
        proof {
            use_type_invariant(self);
        }
        self.height
    }

    /// Get the horizontal gap
    pub fn hgap(&self) -> (r: u32)
        ensures
            r == self@.hgap,
            self@.valid(),
    {
        proof {
            use_type_invariant(self);
        }
        self.hgap
    }

    /// Get the vertical gap
    pub fn vgap(&self) -> (r: u32)
        ensures
            r == self@.vgap,
            self@.valid(),
    {
        proof {
            use_type_invariant(self);
        }
        self.vgap
    }

    /// Check if window is cropped
    pub fn is_cropped(&self) -> (r: bool)
        ensures
            r == self@.is_cropped(),
    {
        self.width > 1 || self.height > 1
    }

    /// Get number of pixels to crop from top edge
    pub fn top(&self, height: u32) -> (r: u32)
        ensures
            r == self@.top(height),
            self@.valid(),
    {
        proof {
            use_type_invariant(self);
        }
        edge(height, self.y, self.height - self.y - 1, self.height, self.vgap)
    }

    /// Get number of pixels to crop from bottom edge
    pub fn bottom(&self, height: u32) -> (r: u32)
        ensures
            r == self@.bottom(height),
            self@.valid(),
    {
        proof {
            use_type_invariant(self);
        }
        edge(height, self.height - self.y - 1, self.y, self.height, self.vgap)
    }

    /// Get number of pixels to crop from left edge
    pub fn left(&self, width: u32) -> (r: u32)
        ensures
            r == self@.left(width),
            self@.valid(),
    {
        proof {
            use_type_invariant(self);
        }
        edge(width, self.x, self.width - self.x - 1, self.width, self.hgap)
    }

    /// Get number of pixels to crop from right edge
    pub fn right(&self, width: u32) -> (r: u32)
        ensures
            r == self@.right(width),
            self@.valid(),
    {
        proof {
            use_type_invariant(self);
        }
        edge(width, self.width - self.x - 1, self.x, self.width, self.hgap)
    }
}

/// The margin at one edge, computed in 64 bits so that no product overflows.
fn edge(dim: u32, cells: u8, others: u8, extent: u8, gap: u32) -> (r: u32)
    requires
        cells + others + 1 == extent,
        extent <= 8,
        gap <= MAX_GAP,
    ensures
        r == margin(dim as int, cells as int, extent as int, gap as int),
{
    let num: u64 = cells as u64;
    let den: u64 = extent as u64;
    assert(dim as u64 * num <= 0xffff_ffff * 8) by (nonlinear_arith)
        requires
            dim <= 0xffff_ffff,
            num <= 8,
    ;
    assert(dim as u64 * gap as u64 <= 0xffff_ffff * 5000) by (nonlinear_arith)
        requires
            dim <= 0xffff_ffff,
            gap <= 5000,
    ;
    assert(den * (PERCENT as u64) * 2 == extent * PERCENT * 2) by (nonlinear_arith)
        requires
            den == extent,
            PERCENT == 10000,
    ;
    let pix: u64 = (dim as u64) * num / den;
    let half: u64 = (dim as u64) * (gap as u64) / (den * (PERCENT as u64) * 2);
    proof {
        lemma_margins_fit(dim as int, cells as int, others as int, extent as int, gap as int);
        assert(pix + half == margin(dim as int, cells as int, extent as int, gap as int));
    }
    (pix + half) as u32
}

} // verus!
