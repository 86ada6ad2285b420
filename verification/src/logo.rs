//! The logo image: decoding the bundled asset into pixels, the aspect ratio,
//! and the size at which the logo is displayed.
//!
//! Decoding itself is done by the `image` crate behind a trusted wrapper; what
//! the decoder hands back is then checked and reshaped by verified code. The
//! aspect ratio and the display height are kept as exact integer fractions, so
//! that the rendering shell can divide them at whatever precision it draws in.

use vstd::prelude::*;

verus! {

/// One RGBA pixel, as the rendering backend expects it: straight from the
/// decoder's byte stream, alpha last.
#[derive(Clone, Copy, PartialEq, Eq, Structural, Debug)]
pub struct Pixel {
    pub red: u8,
    pub green: u8,
    pub blue: u8,
    pub alpha: u8,
}

/// What decoding a byte blob yields: `None` when the format cannot be guessed
/// or the bytes cannot be decoded, otherwise the width, the height, and the
/// RGBA bytes, row-major, four bytes per pixel. Decoding is deterministic, so
/// this is a function of the bytes alone; nothing else is assumed about it.
pub uninterp spec fn logo_decode(bytes: Seq<u8>) -> Option<(u32, u32, Seq<u8>)>;

/// Relies on `image::load_from_memory`, which guesses the format of the byte
/// blob and decodes it, on `image::DynamicImage::width` / `height`, and on
/// `image::DynamicImage::to_rgba8` / `image::ImageBuffer::into_raw`, whose raw
/// buffer holds exactly `width * height * 4` bytes, one RGBA quadruple per
/// pixel in row-major order.
#[verifier::external_body]
fn decode_rgba(bytes: &[u8]) -> (r: Option<(u32, u32, Vec<u8>)>)
    ensures
        r is Some <==> logo_decode(bytes@) is Some,
        r matches Some(t) ==> logo_decode(bytes@) matches Some(d) && t.0 == d.0 && t.1 == d.1
            && t.2@ == d.2 && t.2@.len() == t.0 as int * t.1 as int * 4,
{
    match image::load_from_memory(bytes) {
        Ok(img) => Some((img.width(), img.height(), img.to_rgba8().into_raw())),
        Err(_) => None,
    }
}

/// The pixel whose four bytes start at offset `4 * k` of `bytes`.
pub open spec fn pixel_at(bytes: Seq<u8>, k: int) -> Pixel {
    Pixel {
        red: bytes[4 * k],
        green: bytes[4 * k + 1],
        blue: bytes[4 * k + 2],
        alpha: bytes[4 * k + 3],
    }
}

/// The pixels encoded by a raw RGBA byte stream, four bytes each.
pub open spec fn pixels_of(bytes: Seq<u8>) -> Seq<Pixel> {
    Seq::new((bytes.len() / 4) as nat, |k: int| pixel_at(bytes, k))
}

/// Groups a raw RGBA byte stream into pixels, four bytes at a time.
pub fn pixels_from_rgba_bytes(bytes: &Vec<u8>) -> (r: Vec<Pixel>)
    requires
        bytes@.len() % 4 == 0,
    ensures
        r@ == pixels_of(bytes@),
{
    let mut out: Vec<Pixel> = Vec::new();
    let mut i: usize = 0;
    while i < bytes.len()
        invariant
            bytes@.len() % 4 == 0,
            i % 4 == 0,
            i <= bytes@.len(),
            4 * out@.len() == i,
            forall|k: int| 0 <= k < out@.len() ==> out@[k] == pixel_at(bytes@, k),
        decreases bytes@.len() - i,
    {
        assert(i + 4 <= bytes@.len()) by {
            assert((bytes@.len() - i) % 4 == 0);
        }
        let pixel = Pixel {
            red: bytes[i],
            green: bytes[i + 1],
            blue: bytes[i + 2],
            alpha: bytes[i + 3],
        };
        proof {
            assert(pixel == pixel_at(bytes@, out@.len() as int));
        }
        out.push(pixel);
        i = i + 4;
    }
    proof {
        assert(out@ =~= pixels_of(bytes@));
    }
    out
}

/// The fixed width, in logical units, at which the logo is drawn.
pub const LOGO_DISPLAY_WIDTH: u64 = 30;

/// The decoded logo: its dimensions and its pixels. Set up once at startup and
/// immutable afterwards.
pub struct Logo {
    pub width: u32,
    pub height: u32,
    pub pixels: Vec<Pixel>,
}

impl Logo {
    /// Both dimensions are positive and there is one pixel per grid cell, so
    /// the aspect ratio `width / height` and the displayed height
    /// `LOGO_DISPLAY_WIDTH / (width / height)` are well defined.
    pub open spec fn wf(&self) -> bool {
        &&& self.width >= 1
        &&& self.height >= 1
        &&& self.pixels@.len() == self.width as int * self.height as int
    }

    /// Decodes the bundled asset. Returns `None` exactly when the bytes do not
    /// decode, or decode to an image with an empty dimension, on which no
    /// aspect ratio could be formed; the caller treats that as fatal.
    pub fn from_bytes(bytes: &[u8]) -> (r: Option<Logo>)
        ensures
            r is Some <==> (logo_decode(bytes@) matches Some(d) && d.0 >= 1 && d.1 >= 1),
            r matches Some(l) ==> logo_decode(bytes@) matches Some(d) && l.width == d.0
                && l.height == d.1 && l.pixels@ == pixels_of(d.2) && l.wf(),
    {
        match decode_rgba(bytes) {
            None => None,
            Some((width, height, raw)) => {
                if width == 0 || height == 0 {
                    None
                } else {
                    proof {
                        assert(raw@.len() % 4 == 0);
                    }
                    let pixels = pixels_from_rgba_bytes(&raw);
                    proof {
                        assert(pixels@.len() == width as int * height as int) by {
                            assert(raw@.len() == (width as int * height as int) * 4);
                            assert(((width as int * height as int) * 4) / 4
                                == width as int * height as int) by (nonlinear_arith);
                        }
                    }
                    Some(Logo { width, height, pixels })
                }
            },
        }
    }

    /// The aspect ratio `width / height`, as an exact fraction: the numerator
    /// and the denominator. The rendering shell divides them in its own
    /// floating-point coordinates.
    pub fn aspect_ratio_frac(&self) -> (r: (u32, u32))
        ensures
            r.0 == self.width,
            r.1 == self.height,
    {
        (self.width, self.height)
    }

    /// The height at which the logo is drawn, as an exact fraction
    /// `LOGO_DISPLAY_WIDTH * height / width`: the displayed width divided by
    /// the aspect ratio, so the proportions of the image are kept.
    pub fn display_height_frac(&self) -> (r: (u64, u64))
        requires
            self.wf(),
        ensures
            r.0 == LOGO_DISPLAY_WIDTH * self.height as u64,
            r.1 == self.width as u64,
            r.1 >= 1,
    {
        (LOGO_DISPLAY_WIDTH * self.height as u64, self.width as u64)
    }
}

} // verus!
