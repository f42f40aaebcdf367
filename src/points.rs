//! The user-facing point types and their conversion into wire points.

use crate::protocol::Point;
use vstd::prelude::*;


verus! {

/// The integer point of the `point` crate: x and y in 16 bits, eight bits per
/// color, and a blanking mark. Its fields are all public plain values.
#[verifier::external_type_specification]
pub struct ExSimplePoint(::point::SimplePoint);

/// An eight-bit color channel widened to sixteen bits: `c · 257`, so that
/// 0 stays 0 and 255 becomes 65 535.
pub open spec fn expand_color(c: u8) -> u16 {
    (c as int * 257) as u16
}

/// The largest of three channels.
pub open spec fn max3(r: u8, g: u8, b: u8) -> u8 {
    if r >= g && r >= b {
        r
    } else if g >= b {
        g
    } else {
        b
    }
}

/// The wire point for `p`: each color times 257, the intensity the brightest
/// channel times 257.
pub open spec fn simple_to_point(p: ::point::SimplePoint) -> Point {
    Point {
        control: 0,
        x: p.x,
        y: p.y,
        r: expand_color(p.r),
        g: expand_color(p.g),
        b: expand_color(p.b),
        i: expand_color(max3(p.r, p.g, p.b)),
        u1: 0,
        u2: 0,
    }
}

/// Widens an eight-bit color channel to sixteen bits.
pub fn expand(c: u8) -> (r: u16)
    ensures
        r == expand_color(c),
        r as int == c as int * 257,
{
    c as u16 * 257
}

impl Point {
    /// The wire point for a simple point.
    pub fn from_simple(p: &::point::SimplePoint) -> (r: Point)
        ensures
            r == simple_to_point(*p),
    {
        let m = if p.r >= p.g && p.r >= p.b {
            p.r
        } else if p.g >= p.b {
            p.g
        } else {
            p.b
        };
        Point {
            control: 0,
            x: p.x,
            y: p.y,
            r: expand(p.r),
            g: expand(p.g),
            b: expand(p.b),
            i: expand(m),
            u1: 0,
            u2: 0,
        }
    }
}

/// Each color channel `c` of a simple point becomes `c · 257` on the wire: 0
/// stays 0 and 255 becomes 65 535, so the full range maps onto the full range.
pub proof fn lemma_color_expansion(p: ::point::SimplePoint)
    ensures
        simple_to_point(p).r as int == p.r as int * 257,
        simple_to_point(p).g as int == p.g as int * 257,
        simple_to_point(p).b as int == p.b as int * 257,
        expand_color(0) == 0,
        expand_color(255) == 65535,
{
}

}
