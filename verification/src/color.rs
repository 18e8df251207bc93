//! Colours with fixed-point channels.
use vstd::prelude::*;
use crate::animation::{lemma_number_blend_end_points, Interpolable};
use crate::fixed::Fixed;

verus! {

/// A colour in the sRGB colour space. Every channel runs from zero to one.
#[derive(Clone, Copy, Debug, PartialEq, Eq, Structural, Hash)]
pub struct Color {
    /// Red.
    pub r: Fixed,
    /// Green.
    pub g: Fixed,
    /// Blue.
    pub b: Fixed,
    /// Opacity.
    pub a: Fixed,
}

impl Color {
    /// The colour that lies `ratio` of the way from `self` to `other`, channel
    /// by channel.
    pub open spec fn mixed_spec(self, other: Color, ratio: Fixed) -> Color {
        Color {
            r: self.r.interpolated_spec(other.r, ratio),
            g: self.g.interpolated_spec(other.g, ratio),
            b: self.b.interpolated_spec(other.b, ratio),
            a: self.a.interpolated_spec(other.a, ratio),
        }
    }

    /// The colour that lies `ratio` of the way from `self` to `other`, channel
    /// by channel.
    pub fn mixed(self, other: Color, ratio: Fixed) -> (mix: Color)
        ensures
            mix == self.mixed_spec(other, ratio),
    {
        Color {
            r: self.r.interpolated(other.r, ratio),
            g: self.g.interpolated(other.g, ratio),
            b: self.b.interpolated(other.b, ratio),
            a: self.a.interpolated(other.a, ratio),
        }
    }
}

/// Colours blend by mixing.
impl Interpolable for Color {
    open spec fn interpolated_spec(self, other: Color, ratio: Fixed) -> Color {
        self.mixed_spec(other, ratio)
    }

    fn interpolated(self, other: Color, ratio: Fixed) -> (blended: Color) {
        self.mixed(other, ratio)
    }
}

/// A blend of colours at a ratio of zero is the first colour, and at a ratio
/// of one the second.
pub proof fn lemma_color_blend_end_points(a: Color, b: Color)
    ensures
        a.interpolated_spec(b, Fixed::zero()) == a,
        a.interpolated_spec(b, Fixed::one()) == b,
{
    lemma_number_blend_end_points(a.r, b.r);
    lemma_number_blend_end_points(a.g, b.g);
    lemma_number_blend_end_points(a.b, b.b);
    lemma_number_blend_end_points(a.a, b.a);
}

} // verus!
