use vstd::prelude::*;

use crate::color::Color;
use image::GenericImageView;

verus! {

#[verifier::external_type_specification]
#[verifier::external_body]
pub struct ExDynamicImage(image::DynamicImage);

#[verifier::external_type_specification]
#[verifier::reject_recursive_types(T)]
pub struct ExRgba<T>(image::Rgba<T>);

/// Width and height of a decoded texture.
pub uninterp spec fn texture_size(img: image::DynamicImage) -> (u32, u32);

/// The red, green, blue and alpha channels of each texel of a decoded texture,
/// keyed by `(x, y)`.
pub uninterp spec fn texture_texels(img: image::DynamicImage) -> Map<(u32, u32), Seq<u8>>;

/// Relies on `GenericImageView::dimensions` of `DynamicImage`: the texture's
/// width and height.
#[verifier::external_body]
fn dimensions_of(img: &image::DynamicImage) -> (d: (u32, u32))
    ensures
        d == texture_size(*img),
{
    img.dimensions()
}

/// Relies on `GenericImageView::get_pixel` of `DynamicImage`: the texel at
/// `(x, y)` as 8-bit RGBA. It panics only where `(x, y)` lies outside the
/// texture.
#[verifier::external_body]
fn rgba_texel(img: &image::DynamicImage, x: u32, y: u32) -> (p: image::Rgba<u8>)
    requires
        x < texture_size(*img).0,
        y < texture_size(*img).1,
    ensures
        p.0@ == texture_texels(*img)[(x, y)],
{
    img.get_pixel(x, y)
}

/// The color that a ray which hits nothing gets where the scene has no
/// background texture.
pub fn flat_background() -> (c: Color)
    ensures
        c == (Color { r: 50, g: 180, b: 200 }),
{
    Color { r: 50, g: 180, b: 200 }
}

/// Width and height of a background texture.
pub fn texture_dimensions(img: &image::DynamicImage) -> (d: (u32, u32))
    ensures
        d == texture_size(*img),
{
    dimensions_of(img)
}

/// The color of the texel at `(x, y)` of a background texture: its red, green
/// and blue channels, without alpha.
pub fn texel_color(img: &image::DynamicImage, x: u32, y: u32) -> (c: Color)
    requires
        x < texture_size(*img).0,
        y < texture_size(*img).1,
    ensures
        c.channels() == texture_texels(*img)[(x, y)].take(3),
{
    let p = rgba_texel(img, x, y);
    let c = Color { r: p.0[0], g: p.0[1], b: p.0[2] };
    assert(c.channels() =~= p.0@.take(3));
    c
}

/// The texel index that nearest-neighbour sampling reads on an axis of
/// `size` texels for the scaled coordinate `scaled`: that index, clamped to
/// the last one.
pub open spec fn clamped_index(scaled: u32, size: u32) -> u32 {
    if scaled < size {
        scaled
    } else {
        (size - 1) as u32
    }
}

/// The color that a ray which hits nothing gets: without a background
/// texture, the flat background color; with one, the texel at the scaled
/// texture coordinates `(x, y)`, each clamped to the texture's last column or
/// row.
pub fn background_sample(background: Option<&image::DynamicImage>, x: u32, y: u32) -> (c: Color)
    requires
        background matches Some(img) ==> texture_size(*img).0 > 0 && texture_size(*img).1 > 0,
    ensures
        background is None ==> c == (Color { r: 50, g: 180, b: 200 }),
        background matches Some(img) ==> c.channels() == texture_texels(*img)[(
            clamped_index(x, texture_size(*img).0),
            clamped_index(y, texture_size(*img).1),
        )].take(3),
{
    match background {
        None => flat_background(),
        Some(img) => {
            let (width, height) = dimensions_of(img);
            let tx = if x < width {
                x
            } else {
                width - 1
            };
            let ty = if y < height {
                y
            } else {
                height - 1
            };
            texel_color(img, tx, ty)
        }
    }
}

} // verus!
