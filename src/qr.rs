//! The payment code as a picture: a QR code's modules scaled up to square
//! blocks of pixels, in the display's RGB565 format.

use vstd::prelude::*;
use vstd::arithmetic::div_mod::lemma_fundamental_div_mod_converse;
use vstd::arithmetic::div_mod::lemma_multiply_divide_lt;
use vstd::string::StringSliceAdditionalSpecFns;

verus! {

/// The largest side, in pixels, that a picture may have: the largest for
/// which its bytes, two per pixel, still number under 2^32.
pub const MAX_SIDE: u32 = 46340;

/// The modules of a QR code, row by row, `true` for dark.
#[derive(Debug, PartialEq, Eq)]
pub struct QrMatrix {
    pub width: usize,
    pub dark: Vec<bool>,
}

impl QrMatrix {
    /// Square, and not empty.
    pub open spec fn wf(&self) -> bool {
        &&& self.width > 0
        &&& self.dark@.len() == self.width * self.width
    }
}

/// A picture ready for the display: `side` × `side` pixels of two bytes each,
/// low byte first.
#[derive(Debug, PartialEq, Eq)]
pub struct QrImage {
    pub pixels: Vec<u8>,
    pub side: u32,
}

/// Why no picture was made.
#[derive(Debug, Clone, Copy, PartialEq, Eq)]
pub enum QrError {
    /// The data does not fit in any QR code.
    Unencodable,
    /// The picture would be wider than `MAX_SIDE` pixels.
    TooLarge,
}

/// The width and modules of the QR code that encodes `data`, or `None` when
/// the data does not fit in one.
pub uninterp spec fn qr_code_of(data: Seq<u8>) -> Option<(nat, Seq<bool>)>;

/// Relies on `qrcode::QrCode::new` (medium error correction, smallest
/// version): its `width` is positive and its colours, row by row, number
/// `width * width`.
#[verifier::external_body]
fn encode_qr(data: &str) -> (r: Option<QrMatrix>)
    ensures
        match r {
            Some(m) => m.wf() && qr_code_of(data.spec_bytes()) == Some((m.width as nat, m.dark@)),
            None => qr_code_of(data.spec_bytes()) is None,
        },
{
    match qrcode::QrCode::new(data) {
        Ok(code) => Some(
            QrMatrix {
                width: code.width(),
                dark: code.into_colors().into_iter().map(
                    |c| match c {
                        qrcode::Color::Dark => true,
                        qrcode::Color::Light => false,
                    },
                ).collect(),
            },
        ),
        Err(_) => None,
    }
}

/// Pixels per module: as many whole ones as fit in `target`, at least one.
pub open spec fn scale_for(width: int, target: int) -> int {
    if target / width >= 1 {
        target / width
    } else {
        1
    }
}

/// Byte `k` of the picture of side `side` made from `dark` (of width
/// `width`) at `scale` pixels per module: both bytes of a pixel are 0x00 on
/// a dark module and 0xFF on a light one.
pub open spec fn pixel_byte(dark: Seq<bool>, width: int, scale: int, side: int, k: int) -> u8 {
    let p = k / 2;
    let x = p % side;
    let y = p / side;
    if dark[(y / scale) * width + x / scale] {
        0x00
    } else {
        0xFF
    }
}

/// The side in pixels of the picture of a code of width `width` for a
/// target size.
pub open spec fn side_for(width: int, target: int) -> int {
    width * scale_for(width, target)
}

/// Computes `side_for(width, target)`.
fn picture_side(width: u32, target: u32) -> (r: u32)
    requires
        width > 0,
    ensures
        r == side_for(width as int, target as int),
{
    if target / width >= 1 {
        assert(width * (target / width) <= target) by (nonlinear_arith)
            requires
                width > 0,
        ;
        width * (target / width)
    } else {
        width
    }
}

/// The bytes of the picture of `dark` (of width `width`) for a target size.
pub open spec fn picture_of(dark: Seq<bool>, width: int, target: int) -> Seq<u8> {
    let scale = scale_for(width, target);
    let side = width * scale;
    Seq::new((2 * side * side) as nat, |k: int| pixel_byte(dark, width, scale, side, k))
}

/// Scales `matrix` up to fit in `target_size` pixels (at least one pixel
/// per module) and returns the picture.
pub fn rasterize(matrix: &QrMatrix, target_size: u32) -> (r: QrImage)
    requires
        matrix.wf(),
        side_for(matrix.width as int, target_size as int) <= MAX_SIDE,
    ensures
        r.side == side_for(matrix.width as int, target_size as int),
        r.pixels@ == picture_of(matrix.dark@, matrix.width as int, target_size as int),
{
    assert(matrix.width <= MAX_SIDE) by (nonlinear_arith)
        requires
            matrix.width > 0,
            matrix.width * scale_for(matrix.width as int, target_size as int) <= MAX_SIDE,
            scale_for(matrix.width as int, target_size as int) >= 1,
    ;
    let width = matrix.width as u32;
    let scale: u32 = if target_size / width >= 1 {
        target_size / width
    } else {
        1
    };
    let side: u32 = picture_side(width, target_size);
    assert(0 < side) by (nonlinear_arith)
        requires
            side == width * scale,
            width > 0,
            scale > 0,
    ;
    let ghost w = width as int;
    let ghost picture = picture_of(matrix.dark@, w, target_size as int);
    let mut pixels: Vec<u8> = Vec::new();
    let mut y: u32 = 0;
    proof {
        assert(2 * y * side == 0) by (nonlinear_arith)
            requires
                y == 0,
        ;
        assert(side * side <= MAX_SIDE * MAX_SIDE) by (nonlinear_arith)
            requires
                0 < side <= MAX_SIDE,
        ;
    }
    while y < side
        invariant
            0 < side <= MAX_SIDE,
            side == w * scale,
            scale > 0,
            w == matrix.width,
            w <= MAX_SIDE,
            matrix.wf(),
            picture == picture_of(matrix.dark@, w, target_size as int),
            scale == scale_for(w, target_size as int),
            picture.len() == 2 * side * side,
            side * side <= MAX_SIDE * MAX_SIDE,
            y <= side,
            pixels@.len() == 2 * y * side,
            forall|k: int| 0 <= k < pixels@.len() ==> pixels@[k] == picture[k],
        decreases side - y,
    {
        let mut x: u32 = 0;
        assert(2 * y * side == 2 * (y * side + x)) by (nonlinear_arith)
            requires
                x == 0,
        ;
        while x < side
            invariant
                0 < side <= MAX_SIDE,
                side == w * scale,
                scale > 0,
                w == matrix.width,
                w <= MAX_SIDE,
                matrix.wf(),
                picture == picture_of(matrix.dark@, w, target_size as int),
                scale == scale_for(w, target_size as int),
                picture.len() == 2 * side * side,
                side * side <= MAX_SIDE * MAX_SIDE,
                y < side,
                x <= side,
                pixels@.len() == 2 * (y * side + x),
                forall|k: int| 0 <= k < pixels@.len() ==> pixels@[k] == picture[k],
            decreases side - x,
        {
            let module_x = x / scale;
            let module_y = y / scale;
            proof {
                lemma_multiply_divide_lt(x as int, scale as int, w);
                lemma_multiply_divide_lt(y as int, scale as int, w);
                assert(module_y * w + module_x < w * w <= MAX_SIDE * MAX_SIDE) by (nonlinear_arith)
                    requires
                        module_x < w,
                        module_y < w,
                        0 <= module_x,
                        0 <= module_y,
                        w <= MAX_SIDE,
                ;
                assert(module_y * w <= module_y * w + module_x);
                assert(y * side + x < side * side) by (nonlinear_arith)
                    requires
                        y < side,
                        x < side,
                ;
            }
            let index: usize = (module_y as usize) * matrix.width + (module_x as usize);
            let byte: u8 = if matrix.dark[index] {
                0x00
            } else {
                0xFF
            };
            let ghost p: int = y * side + x;
            proof {
                lemma_fundamental_div_mod_converse(p, side as int, y as int, x as int);
                lemma_fundamental_div_mod_converse(2 * p, 2, p, 0);
                lemma_fundamental_div_mod_converse(2 * p + 1, 2, p, 1);
                assert(2 * p + 1 < 2 * side * side) by (nonlinear_arith)
                    requires
                        p < side * side,
                ;
            }
            pixels.push(byte);
            pixels.push(byte);
            x = x + 1;
        }
        proof {
            assert(2 * (y * side + side) == 2 * (y + 1) * side) by (nonlinear_arith);
        }
        y = y + 1;
    }
    proof {
        assert(pixels@ =~= picture);
    }
    QrImage { pixels, side }
}

/// The picture of the QR code that encodes `data`, scaled to fit in
/// `target_size` pixels (at least one pixel per module).
pub fn qr_image(data: &str, target_size: u32) -> (r: Result<QrImage, QrError>)
    ensures
        match qr_code_of(data.spec_bytes()) {
            None => r == Err::<QrImage, QrError>(QrError::Unencodable),
            Some((width, dark)) => if side_for(width as int, target_size as int) <= MAX_SIDE {
                r matches Ok(img) && img.side == side_for(width as int, target_size as int)
                    && img.pixels@ == picture_of(dark, width as int, target_size as int)
            } else {
                r == Err::<QrImage, QrError>(QrError::TooLarge)
            },
        },
{
    match encode_qr(data) {
        None => Err(QrError::Unencodable),
        Some(matrix) => {
            if matrix.width > MAX_SIDE as usize {
                assert(side_for(matrix.width as int, target_size as int) > MAX_SIDE) by (
                nonlinear_arith)
                    requires
                        matrix.width > MAX_SIDE,
                        scale_for(matrix.width as int, target_size as int) >= 1,
                ;
                return Err(QrError::TooLarge);
            }
            if picture_side(matrix.width as u32, target_size) > MAX_SIDE {
                Err(QrError::TooLarge)
            } else {
                Ok(rasterize(&matrix, target_size))
            }
        },
    }
}

} // verus!
