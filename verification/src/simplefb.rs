//! Framebuffer logo composition.
//!
//! The embedded logo is a PNG stream; the decoder is outside the
//! library, but everything computed from its output — the conversion of
//! the raw samples into screen pixels with alpha blending over a white
//! background, and the centred placement on the screen — is verified
//! here.  The caller blits the returned pixels into the framebuffer.

use vstd::arithmetic::div_mod::lemma_fundamental_div_mod;
use vstd::prelude::*;

verus! {

/// Colour layout of a decoded image's sample bytes.
#[derive(Clone, Copy, Debug, PartialEq, Eq, Structural)]
pub enum PngColorKind {
    /// Four bytes per pixel: red, green, blue, alpha.
    Rgba,
    /// Three bytes per pixel: red, green, blue.
    Rgb,
    /// Two bytes per pixel: gray, alpha.
    GrayAlpha,
    /// Any other layout; such images are not composed.
    Other,
}

/// Numeric code of a colour layout, as the decoded-image name carries
/// it.
pub open spec fn kind_code(k: PngColorKind) -> int {
    match k {
        PngColorKind::Rgba => 0,
        PngColorKind::Rgb => 1,
        PngColorKind::GrayAlpha => 2,
        PngColorKind::Other => 3,
    }
}

/// A decoded image: its dimensions, colour layout, and raw sample
/// bytes.
pub struct PngImage {
    /// Width in pixels.
    pub width: usize,
    /// Height in pixels.
    pub height: usize,
    /// Colour layout of `pixels`.
    pub kind: PngColorKind,
    /// Raw sample bytes, rows first.
    pub pixels: Vec<u8>,
}

/// Name for what the PNG decoder returns for a byte stream: width,
/// height, colour-layout code and sample bytes, or nothing where the
/// stream is not a decodable PNG.  A function of the bytes alone.
pub uninterp spec fn png_decoded(bytes: Seq<u8>) -> Option<(int, int, int, Seq<u8>)>;

/// Relies on minipng's `decode_png_header` and `decode_png`: a PNG
/// stream decodes to the dimensions its header declares and to its
/// sample bytes, a function of the stream alone; both reject a stream
/// that is not a PNG.  The two are one pipeline because `decode_png`
/// fills a buffer sized by the header.
#[verifier::external_body]
fn decode_png_raw(bytes: &Vec<u8>) -> (r: Option<PngImage>)
    ensures
        r is Some <==> png_decoded(bytes@) is Some,
        r matches Some(img) ==> png_decoded(bytes@) == Some(
            (img.width as int, img.height as int, kind_code(img.kind), img.pixels@),
        ),
{
    let header = minipng::decode_png_header(bytes).ok()?;
    let mut buf = vec![0u8; header.required_bytes()];
    let image = minipng::decode_png(bytes, &mut buf).ok()?;
    let kind = match image.color_type() {
        minipng::ColorType::Rgba => PngColorKind::Rgba,
        minipng::ColorType::Rgb => PngColorKind::Rgb,
        minipng::ColorType::GrayAlpha => PngColorKind::GrayAlpha,
        _ => PngColorKind::Other,
    };
    let (width, height) = (image.width() as usize, image.height() as usize);
    Some(PngImage { width, height, kind, pixels: image.pixels().to_vec() })
}

/// One colour channel alpha-blended over a white background.
pub open spec fn blend(c: int, a: int) -> int {
    (c * a + 255 * (255 - a)) / 255
}

/// The screen pixel composed for image position `i` from sample bytes
/// of layout `code`: alpha layouts blend over white, plain RGB packs
/// the channels, and positions whose samples run past the byte array,
/// or an unsupported layout, stay black.
pub open spec fn argb_pixel(code: int, p: Seq<u8>, i: int) -> u32 {
    if code == 0 {
        if 4 * i + 3 < p.len() {
            let a = p[4 * i + 3] as int;
            (blend(p[4 * i] as int, a) * 0x10000 + blend(p[4 * i + 1] as int, a) * 0x100 + blend(
                p[4 * i + 2] as int,
                a,
            )) as u32
        } else {
            0
        }
    } else if code == 1 {
        if 3 * i + 2 < p.len() {
            ((p[3 * i] as int) * 0x10000 + (p[3 * i + 1] as int) * 0x100 + (p[3 * i
                + 2] as int)) as u32
        } else {
            0
        }
    } else if code == 2 {
        if 2 * i + 1 < p.len() {
            let v = blend(p[2 * i] as int, p[2 * i + 1] as int);
            (v * 0x10000 + v * 0x100 + v) as u32
        } else {
            0
        }
    } else {
        0
    }
}

/// The composed pixels of a whole image.
pub open spec fn argb_image(code: int, p: Seq<u8>, count: int) -> Seq<u32> {
    Seq::new(count as nat, |i: int| argb_pixel(code, p, i))
}

/// A sample index is in range exactly when the pixel index is below the
/// per-channel quota of the byte array.
proof fn lemma_samples_fit(len: int, i: int, c: int)
    requires
        0 <= len,
        0 <= i,
        1 <= c,
    ensures
        (i < len / c) <==> (c * i + (c - 1) < len),
{
    lemma_fundamental_div_mod(len, c);
    vstd::arithmetic::div_mod::lemma_mod_bound(len, c);
    if i < len / c {
        assert(c * i + (c - 1) < len) by (nonlinear_arith)
            requires
                i < len / c,
                len == c * (len / c) + len % c,
                0 <= len % c,
                1 <= c,
        ;
    }
    if c * i + (c - 1) < len {
        assert(i < len / c) by (nonlinear_arith)
            requires
                c * i + (c - 1) < len,
                len == c * (len / c) + len % c,
                len % c < c,
                1 <= c,
        ;
    }
}

/// A blended channel stays a channel: at most 255.
proof fn lemma_blend_bounds(c: int, a: int)
    requires
        0 <= c <= 255,
        0 <= a <= 255,
    ensures
        0 <= blend(c, a) <= 255,
{
    assert(0 <= (c * a + 255 * (255 - a)) / 255 <= 255) by (nonlinear_arith)
        requires
            0 <= c <= 255,
            0 <= a <= 255,
    ;
}

/// Blends one channel over a white background.
fn blend_channel(c: u8, a: u8) -> (r: u32)
    ensures
        r == blend(c as int, a as int),
        r <= 255,
{
    let c32 = c as u32;
    let a32 = a as u32;
    proof {
        lemma_blend_bounds(c as int, a as int);
    }
    (c32 * a32 + 255 * (255 - a32)) / 255
}

/// Packs three channels into one screen pixel.
fn pack_rgb(r: u32, g: u32, b: u32) -> (c: u32)
    requires
        r <= 255,
        g <= 255,
        b <= 255,
    ensures
        c == r * 0x10000 + g * 0x100 + b,
{
    proof {
        assert((r << 16u32) | (g << 8u32) | b == r * 0x10000 + g * 0x100 + b) by (bit_vector)
            requires
                r <= 255,
                g <= 255,
                b <= 255,
        ;
    }
    (r << 16u32) | (g << 8u32) | b
}

/// Decodes a PNG stream and composes its screen pixels: the dimensions
/// and, for each pixel position, the packed colour, alpha layouts
/// blended over a white background.  Nothing is returned for a stream
/// that is not a decodable PNG or whose pixel count does not fit the
/// machine.
pub fn decode_png(bytes: &Vec<u8>) -> (r: Option<(usize, usize, Vec<u32>)>)
    ensures
        r is Some <==> (png_decoded(bytes@) matches Some(d) && d.0 * d.1 <= usize::MAX),
        r matches Some(t) ==> (png_decoded(bytes@) matches Some(d) && t.0 == d.0 && t.1 == d.1
            && t.2@ == argb_image(d.2, d.3, d.0 * d.1)),
{
    let img = match decode_png_raw(bytes) {
        Some(img) => img,
        None => {
            return None;
        },
    };
    let w = img.width;
    let h = img.height;
    if h != 0 && w > usize::MAX / h {
        proof {
            lemma_fundamental_div_mod(usize::MAX as int, h as int);
            vstd::arithmetic::div_mod::lemma_mod_bound(usize::MAX as int, h as int);
            assert(w * h > usize::MAX) by (nonlinear_arith)
                requires
                    w > (usize::MAX as int) / (h as int),
                    h >= 1,
                    usize::MAX as int == (h as int) * ((usize::MAX as int) / (h as int)) + (
                    usize::MAX as int) % (h as int),
                    (usize::MAX as int) % (h as int) < (h as int),
            ;
        }
        return None;
    }
    proof {
        if h != 0 {
            lemma_fundamental_div_mod(usize::MAX as int, h as int);
            vstd::arithmetic::div_mod::lemma_mod_bound(usize::MAX as int, h as int);
            assert(w * h <= usize::MAX) by (nonlinear_arith)
                requires
                    w <= (usize::MAX as int) / (h as int),
                    h >= 1,
                    usize::MAX as int == (h as int) * ((usize::MAX as int) / (h as int)) + (
                    usize::MAX as int) % (h as int),
                    0 <= (usize::MAX as int) % (h as int),
            ;
        }
    }
    let count = w * h;
    let ghost code = kind_code(img.kind);
    let ghost p = img.pixels@;
    let mut data: Vec<u32> = Vec::new();
    match img.kind {
        PngColorKind::Rgba => {
            let quota = img.pixels.len() / 4;
            for i in 0..count
                invariant
                    quota == p.len() / 4,
                    p.len() <= usize::MAX,
                    p == img.pixels@,
                    code == 0,
                    data@ =~= argb_image(code, p, i as int),
            {
                proof {
                    lemma_samples_fit(p.len() as int, i as int, 4);
                }
                if i < quota {
                    let a = img.pixels[4 * i + 3];
                    let fr = blend_channel(img.pixels[4 * i], a);
                    let fg = blend_channel(img.pixels[4 * i + 1], a);
                    let fb = blend_channel(img.pixels[4 * i + 2], a);
                    data.push(pack_rgb(fr, fg, fb));
                } else {
                    data.push(0);
                }
                proof {
                    assert(data@ =~= argb_image(code, p, i + 1));
                }
            }
        },
        PngColorKind::Rgb => {
            let quota = img.pixels.len() / 3;
            for i in 0..count
                invariant
                    quota == p.len() / 3,
                    p.len() <= usize::MAX,
                    p == img.pixels@,
                    code == 1,
                    data@ =~= argb_image(code, p, i as int),
            {
                proof {
                    lemma_samples_fit(p.len() as int, i as int, 3);
                }
                if i < quota {
                    let r = img.pixels[3 * i] as u32;
                    let g = img.pixels[3 * i + 1] as u32;
                    let b = img.pixels[3 * i + 2] as u32;
                    data.push(pack_rgb(r, g, b));
                } else {
                    data.push(0);
                }
                proof {
                    assert(data@ =~= argb_image(code, p, i + 1));
                }
            }
        },
        PngColorKind::GrayAlpha => {
            let quota = img.pixels.len() / 2;
            for i in 0..count
                invariant
                    quota == p.len() / 2,
                    p.len() <= usize::MAX,
                    p == img.pixels@,
                    code == 2,
                    data@ =~= argb_image(code, p, i as int),
            {
                proof {
                    lemma_samples_fit(p.len() as int, i as int, 2);
                }
                if i < quota {
                    let v = blend_channel(img.pixels[2 * i], img.pixels[2 * i + 1]);
                    data.push(pack_rgb(v, v, v));
                } else {
                    data.push(0);
                }
                proof {
                    assert(data@ =~= argb_image(code, p, i + 1));
                }
            }
        },
        PngColorKind::Other => {
            for i in 0..count
                invariant
                    p == img.pixels@,
                    code == 3,
                    data@ =~= argb_image(code, p, i as int),
            {
                data.push(0);
                proof {
                    assert(data@ =~= argb_image(code, p, i + 1));
                }
            }
        },
    }
    Some((w, h, data))
}

/// The offset that centres a length inside a screen dimension: half the
/// slack, or zero when the image is larger.
pub open spec fn center_offset(screen: int, img: int) -> int {
    if img <= screen {
        (screen - img) / 2
    } else {
        0
    }
}

/// Centred position of an image on a screen.
pub fn center_offsets(screen_w: usize, screen_h: usize, img_w: usize, img_h: usize) -> (r: (
    usize,
    usize,
))
    ensures
        r.0 == center_offset(screen_w as int, img_w as int),
        r.1 == center_offset(screen_h as int, img_h as int),
{
    let x = if img_w <= screen_w {
        (screen_w - img_w) / 2
    } else {
        0
    };
    let y = if img_h <= screen_h {
        (screen_h - img_h) / 2
    } else {
        0
    };
    (x, y)
}

/// Where and what to draw for the logo.
pub struct LogoPlacement {
    /// Left edge of the image on the screen.
    pub x_offset: usize,
    /// Top edge of the image on the screen.
    pub y_offset: usize,
    /// Image width in pixels.
    pub width: usize,
    /// Image height in pixels.
    pub height: usize,
    /// Composed image pixels, rows first.
    pub pixels: Vec<u32>,
}

/// Decodes the logo stream and computes its centred placement on a
/// screen of the given dimensions.  The caller fills the screen white
/// and blits the returned pixels at the returned offsets, clipping at
/// the screen edges.
pub fn show_logo(screen_w: usize, screen_h: usize, png: &Vec<u8>) -> (r: Option<LogoPlacement>)
    ensures
        r is Some <==> (png_decoded(png@) matches Some(d) && d.0 * d.1 <= usize::MAX),
        r matches Some(pl) ==> (png_decoded(png@) matches Some(d) && pl.width == d.0 && pl.height
            == d.1 && pl.pixels@ == argb_image(d.2, d.3, d.0 * d.1) && pl.x_offset == center_offset(
            screen_w as int,
            d.0,
        ) && pl.y_offset == center_offset(screen_h as int, d.1)),
{
    let (width, height, pixels) = match decode_png(png) {
        Some(t) => t,
        None => {
            return None;
        },
    };
    let (x_offset, y_offset) = center_offsets(screen_w, screen_h, width, height);
    Some(LogoPlacement { x_offset, y_offset, width, height, pixels })
}

} // verus!
