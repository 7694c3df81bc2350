use vstd::prelude::*;

verus! {

#[verifier::external_type_specification]
#[verifier::reject_recursive_types(T)]
pub struct ExRgb<T>(image::Rgb<T>);

/// A color with three 8-bit channels.
#[derive(Clone, Copy, Debug, PartialEq, Eq, Structural)]
pub struct Color {
    pub r: u8,
    pub g: u8,
    pub b: u8,
}

impl Color {
    /// The three channels in red, green, blue order.
    pub open spec fn channels(self) -> Seq<u8> {
        seq![self.r, self.g, self.b]
    }

    /// The pixel of an `image` RGB buffer that holds this color.
    pub fn as_rgb(&self) -> (p: image::Rgb<u8>)
        ensures
            p.0@ == self.channels(),
    {
        image::Rgb([self.r, self.g, self.b])
    }
}

} // verus!
