use vstd::prelude::*;

verus! {

/// Drawable surface size in pixels.
#[derive(Clone, Copy, Debug, PartialEq, Eq)]
pub struct Dimensions {
    pub width: u32,
    pub height: u32,
}

/// A vertex position in clip space, in thousandths of a unit, so that the
/// fixed triangle geometry stays within integer arithmetic.
#[derive(Clone, Copy, Debug, PartialEq, Eq)]
pub struct VertexPos {
    pub x_milli: i32,
    pub y_milli: i32,
}

/// An RGBA clear colour, each channel in thousandths of full intensity.
#[derive(Clone, Copy, Debug, PartialEq, Eq)]
pub struct ClearColor {
    pub red_milli: u32,
    pub green_milli: u32,
    pub blue_milli: u32,
    pub alpha_milli: u32,
}

/// The fixed clear colour every frame starts from: opaque blue.
pub open spec fn clear_color_spec() -> ClearColor {
    ClearColor { red_milli: 0, green_milli: 0, blue_milli: 1000, alpha_milli: 1000 }
}

pub fn clear_color() -> (c: ClearColor)
    ensures
        c == clear_color_spec(),
{
    ClearColor { red_milli: 0, green_milli: 0, blue_milli: 1000, alpha_milli: 1000 }
}

/// The three vertices of the fixed triangle, in draw order.
pub open spec fn triangle_vertices_spec() -> Seq<VertexPos> {
    seq![
        VertexPos { x_milli: -500i32, y_milli: -250i32 },
        VertexPos { x_milli: 0i32, y_milli: 500i32 },
        VertexPos { x_milli: 250i32, y_milli: -100i32 },
    ]
}

pub fn triangle_vertices() -> (v: Vec<VertexPos>)
    ensures
        v@ == triangle_vertices_spec(),
{
    let mut v: Vec<VertexPos> = Vec::new();
    v.push(VertexPos { x_milli: -500, y_milli: -250 });
    v.push(VertexPos { x_milli: 0, y_milli: 500 });
    v.push(VertexPos { x_milli: 250, y_milli: -100 });
    proof {
        assert(v@ =~= triangle_vertices_spec());
    }
    v
}

} // verus!
