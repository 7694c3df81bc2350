use vstd::prelude::*;

use crate::color::Color;
use vstd::arithmetic::div_mod::{lemma_fundamental_div_mod, lemma_div_pos_is_pos, lemma_mod_pos_bound};
use vstd::arithmetic::mul::lemma_mul_is_commutative;

verus! {

/// An RGB frame buffer.
#[verifier::external_body]
pub struct Frame {
    buffer: image::RgbImage,
}

/// Width of a rendered frame, in pixels.
pub const IMAGE_WIDTH: u32 = 1024;

/// Height of a rendered frame, in pixels.
pub const IMAGE_HEIGHT: u32 = 768;

/// Width and height of a frame buffer.
pub uninterp spec fn frame_size(f: Frame) -> (u32, u32);

/// The channels of each pixel of a frame buffer, keyed by `(x, y)`.
pub uninterp spec fn frame_pixels(f: Frame) -> Map<(u32, u32), Seq<u8>>;

/// A buffer of this size can be allocated without its byte count overflowing.
pub open spec fn frame_fits(width: u32, height: u32) -> bool {
    3 * width * height <= usize::MAX
}

/// The pixels of a `width` × `height` frame whose pixels before `(x, y)`, taken
/// row by row from the top left, are the first ones of `colors`, and whose
/// other pixels are black.
spec fn frame_prefix(colors: Seq<Color>, width: u32, height: u32, x: u32, y: u32) -> Map<
    (u32, u32),
    Seq<u8>,
> {
    Map::new(
        |k: (u32, u32)| k.0 < width && k.1 < height,
        |k: (u32, u32)|
            if k.1 < y || (k.1 == y && k.0 < x) {
                colors[k.1 * width + k.0].channels()
            } else {
                seq![0u8, 0u8, 0u8]
            },
    )
}

/// The pixels of a `width` × `height` frame that is black all over.
pub open spec fn black_frame(width: u32, height: u32) -> Map<(u32, u32), Seq<u8>> {
    Map::new(|k: (u32, u32)| k.0 < width && k.1 < height, |k: (u32, u32)| seq![0u8, 0u8, 0u8])
}

/// The pixels of a `width` × `height` frame whose pixels, taken row by row from
/// the top left, are `colors`.
pub open spec fn frame_of(colors: Seq<Color>, width: u32, height: u32) -> Map<(u32, u32), Seq<u8>> {
    Map::new(
        |k: (u32, u32)| k.0 < width && k.1 < height,
        |k: (u32, u32)| colors[k.1 * width + k.0].channels(),
    )
}

/// The bytes of a buffer of pixels `pixels`, `width` × `height`, laid out row
/// by row from the top left, three channels to a pixel.
pub open spec fn raw_layout(pixels: Map<(u32, u32), Seq<u8>>, width: u32, height: u32) -> Seq<u8> {
    Seq::new(
        (3 * width * height) as nat,
        |i: int| pixels[(((i / 3) % width as int) as u32, ((i / 3) / width as int) as u32)][i % 3],
    )
}

/// The channels of `colors`, one color after another.
pub open spec fn channels_of(colors: Seq<Color>) -> Seq<u8> {
    Seq::new(3 * colors.len(), |i: int| colors[i / 3].channels()[i % 3])
}

/// The bytes of the frame whose pixels, row by row from the top left, are
/// `colors` are the channels of `colors`, one color after another.
pub proof fn lemma_frame_bytes(colors: Seq<Color>, width: u32, height: u32)
    requires
        colors.len() == width * height,
    ensures
        raw_layout(frame_of(colors, width, height), width, height) == channels_of(colors),
{
    let raw = raw_layout(frame_of(colors, width, height), width, height);
    assert forall|i: int| 0 <= i < raw.len() implies raw[i] == channels_of(colors)[i] by {
        let j = i / 3;
        let w = width as int;
        assert(0 <= j < w * height && w > 0) by (nonlinear_arith)
            requires
                0 <= i < 3 * w * height,
                j == i / 3,
        ;
        lemma_fundamental_div_mod(j, w);
        lemma_mod_pos_bound(j, w);
        lemma_div_pos_is_pos(j, w);
        let x = j % w;
        let y = j / w;
        assert(y < height) by (nonlinear_arith)
            requires
                j == w * y + x,
                0 <= x,
                j < w * height,
                w > 0,
        ;
        lemma_mul_is_commutative(w, y);
        assert(frame_of(colors, width, height).contains_key((x as u32, y as u32)));
    }
    assert(3 * width * height == 3 * (width * height)) by (nonlinear_arith);
    assert(raw =~= channels_of(colors));
}

/// Relies on `ImageBuffer::new`: a `width` × `height` buffer whose channels are
/// all zero. It panics only where the byte count overflows `usize`.
#[verifier::external_body]
fn blank_frame(width: u32, height: u32) -> (img: Frame)
    requires
        frame_fits(width, height),
    ensures
        frame_size(img) == (width, height),
        frame_pixels(img) == black_frame(width, height),
{
    Frame { buffer: image::RgbImage::new(width, height) }
}

/// Relies on `ImageBuffer::put_pixel`: the pixel at `(x, y)` becomes `pixel`,
/// the rest stays. It panics only where `(x, y)` lies outside the buffer.
#[verifier::external_body]
fn put_frame_pixel(img: &mut Frame, x: u32, y: u32, pixel: image::Rgb<u8>)
    requires
        x < frame_size(*old(img)).0,
        y < frame_size(*old(img)).1,
    ensures
        frame_size(*final(img)) == frame_size(*old(img)),
        frame_pixels(*final(img)) == frame_pixels(*old(img)).insert((x, y), pixel.0@),
{
    img.buffer.put_pixel(x, y, pixel)
}

/// Relies on `ImageBuffer::into_raw`: the buffer's bytes, which it keeps row by
/// row from the top left, three channels to a pixel.
#[verifier::external_body]
fn raw_frame(img: Frame) -> (bytes: Vec<u8>)
    ensures
        bytes@ == raw_layout(frame_pixels(img), frame_size(img).0, frame_size(img).1),
{
    img.buffer.into_raw()
}

impl Frame {
    /// The bytes of this frame, row by row from the top left, three channels
    /// to a pixel.
    pub fn into_raw(self) -> (bytes: Vec<u8>)
        ensures
            bytes@ == raw_layout(frame_pixels(self), frame_size(self).0, frame_size(self).1),
    {
        raw_frame(self)
    }
}

/// The position of the pixel that comes `index`-th when a frame `width` pixels
/// wide is walked row by row from the top left.
pub fn pixel_position(index: u32, width: u32) -> (p: (u32, u32))
    requires
        width > 0,
    ensures
        p.0 < width,
        index == p.1 * width + p.0,
{
    proof {
        lemma_fundamental_div_mod(index as int, width as int);
        lemma_mul_is_commutative(width as int, index as int / width as int);
    }
    (index % width, index / width)
}

/// The RGB buffer of `width` × `height` pixels whose pixels, taken row by row
/// from the top left, are `colors`.
pub fn frame_buffer(colors: &Vec<Color>, width: u32, height: u32) -> (img: Frame)
    requires
        colors.len() == width * height,
        frame_fits(width, height),
    ensures
        frame_size(img) == (width, height),
        frame_pixels(img) == frame_of(colors@, width, height),
{
    let mut img = blank_frame(width, height);
    assert(frame_pixels(img) =~= frame_prefix(colors@, width, height, 0, 0));
    let mut y: u32 = 0;
    while y < height
        invariant
            y <= height,
            colors.len() == width * height,
            frame_size(img) == (width, height),
            frame_pixels(img) == frame_prefix(colors@, width, height, 0, y),
        decreases height - y,
    {
        let mut x: u32 = 0;
        while x < width
            invariant
                x <= width,
                y < height,
                colors.len() == width * height,
                frame_size(img) == (width, height),
                frame_pixels(img) == frame_prefix(colors@, width, height, x, y),
            decreases width - x,
        {
            proof {
                assert(y * width + x < width * height) by (nonlinear_arith)
                    requires
                        x < width,
                        y < height,
                ;
            }
            let i: usize = y as usize * width as usize + x as usize;
            put_frame_pixel(&mut img, x, y, colors[i].as_rgb());
            assert(frame_pixels(img) =~= frame_prefix(colors@, width, height, (x + 1) as u32, y));
            x += 1;
        }
        assert(frame_pixels(img) =~= frame_prefix(colors@, width, height, 0, (y + 1) as u32));
        y += 1;
    }
    assert(frame_pixels(img) =~= frame_of(colors@, width, height));
    img
}

/// The bytes of the RGB buffer of `width` × `height` pixels whose pixels,
/// taken row by row from the top left, are `colors`: the channels of `colors`,
/// one color after another.
pub fn frame_bytes(colors: &Vec<Color>, width: u32, height: u32) -> (bytes: Vec<u8>)
    requires
        colors.len() == width * height,
        frame_fits(width, height),
    ensures
        bytes@ == channels_of(colors@),
{
    let frame = frame_buffer(colors, width, height);
    proof {
        lemma_frame_bytes(colors@, width, height);
    }
    frame.into_raw()
}

} // verus!
