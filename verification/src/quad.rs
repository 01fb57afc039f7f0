//! The full-screen quad that the compositor draws.

use vstd::prelude::*;

verus! {

/// The width that the quad is made for until the surface tells its own.
pub const DEFAULT_WIDTH: u32 = 1046;

/// The height that the quad is made for until the surface tells its own.
pub const DEFAULT_HEIGHT: u32 = 1025;

/// One corner of a triangle of the full-screen quad.
#[derive(Clone, Copy, Debug, PartialEq, Eq)]
pub struct RayVVertex {
    /// Clip-space coordinates; each is -1 or 1.
    pub position: [i32; 2],
    /// Width and height, in pixels, of the image the quad is mapped against.
    pub resolution: [u32; 2],
}

/// The clip-space positions of the quad, in drawing order: the triangle of
/// the lower left, lower right and upper right corner, then the triangle of
/// the lower left, upper right and upper left corner.
pub open spec fn quad_positions() -> Seq<[i32; 2]> {
    seq![[-1i32, -1i32], [1i32, -1i32], [1i32, 1i32], [-1i32, -1i32], [1i32, 1i32], [-1i32, 1i32]]
}

/// The quad for an image of `width` by `height` pixels: its six corners,
/// each with that resolution.
pub open spec fn screen_quad(width: u32, height: u32) -> Seq<RayVVertex> {
    Seq::new(
        6,
        |i: int| RayVVertex { position: quad_positions()[i], resolution: [width, height] },
    )
}

/// `vertices` with every resolution replaced by `width` and `height`.
pub open spec fn with_resolution(vertices: Seq<RayVVertex>, width: u32, height: u32) -> Seq<
    RayVVertex,
> {
    Seq::new(
        vertices.len(),
        |i: int| RayVVertex { position: vertices[i].position, resolution: [width, height] },
    )
}

/// The two triangles that cover the whole viewport, made for the default
/// resolution.
pub fn get_vertices_for_entire_screen() -> (vertices: Vec<RayVVertex>)
    ensures
        vertices@ == screen_quad(DEFAULT_WIDTH, DEFAULT_HEIGHT),
{
    let vertices = vec![
        RayVVertex { position: [-1, -1], resolution: [DEFAULT_WIDTH, DEFAULT_HEIGHT] },
        RayVVertex { position: [1, -1], resolution: [DEFAULT_WIDTH, DEFAULT_HEIGHT] },
        RayVVertex { position: [1, 1], resolution: [DEFAULT_WIDTH, DEFAULT_HEIGHT] },
        RayVVertex { position: [-1, -1], resolution: [DEFAULT_WIDTH, DEFAULT_HEIGHT] },
        RayVVertex { position: [1, 1], resolution: [DEFAULT_WIDTH, DEFAULT_HEIGHT] },
        RayVVertex { position: [-1, 1], resolution: [DEFAULT_WIDTH, DEFAULT_HEIGHT] },
    ];
    vertices
}

/// Writes the extent of a rebuilt surface into every vertex.
pub fn set_resolution(vertices: &mut Vec<RayVVertex>, width: u32, height: u32)
    ensures
        final(vertices)@ == with_resolution(old(vertices)@, width, height),
{
    let count: usize = vertices.len();
    for i in 0..count
        invariant
            vertices@.len() == count,
            count == old(vertices)@.len(),
            forall|j: int|
                0 <= j < i ==> vertices@[j] == (RayVVertex {
                    position: old(vertices)@[j].position,
                    resolution: [width, height],
                }),
            forall|j: int| i <= j < count ==> vertices@[j] == old(vertices)@[j],
    {
        let vertex = vertices[i];
        vertices[i] = RayVVertex { position: vertex.position, resolution: [width, height] };
    }
}

/// The quad of one extent, rewritten for another, is the quad of that other
/// extent.
pub proof fn lemma_resized_quad(width: u32, height: u32, new_width: u32, new_height: u32)
    ensures
        with_resolution(screen_quad(width, height), new_width, new_height) == screen_quad(
            new_width,
            new_height,
        ),
{
    assert(with_resolution(screen_quad(width, height), new_width, new_height) =~= screen_quad(
        new_width,
        new_height,
    ));
}

} // verus!
