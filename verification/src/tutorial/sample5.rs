//! The rotating cube: six faces in six colours, drawn anew on every display
//! refresh while the cube turns.

use vstd::prelude::*;
use vstd::slice::slice_to_vec;
use crate::geometry::{upload_attributes, upload_indices, AttributeKind, Geometry, GeometryBuffer};
use crate::gl::{FLOAT, TRIANGLES};
use crate::host::{Attribute, Call};
use crate::scene::{descriptor_of, frame_calls, render_frame, Frame, Sample, Scene};
use crate::session::Session;
use crate::shader::LinkedProgram;

pub use crate::shader::{compile_shader, link_program};

verus! {

/// One unit of length, in thousandths.
pub const P: i32 = 1000;

/// One unit of length in the negative direction, in thousandths.
pub const N: i32 = -1000;

/// The corners of the cube's twelve triangles, three components each. Every
/// face is two triangles that share a diagonal of the face.
pub const CUBE_POSITIONS: [i32; 108] = [
    // front
    N, N, P, P, N, P, P, P, P,
    N, N, P, N, P, P, P, P, P,
    // back
    N, N, N, N, P, N, P, P, N,
    N, N, N, P, N, N, P, P, N,
    // top
    N, P, N, N, P, P, P, P, P,
    N, P, N, P, P, N, P, P, P,
    // bottom
    N, N, N, P, N, N, P, N, P,
    N, N, N, N, N, P, P, N, P,
    // right
    P, N, N, P, P, N, P, P, P,
    P, N, N, P, N, P, P, P, P,
    // left
    N, N, N, N, N, P, N, P, P,
    N, N, N, N, P, N, N, P, P,
];

/// The colours of the six faces, four components each: white, red, green,
/// blue, yellow and purple, all opaque.
pub const FACE_COLORS: [i32; 24] = [
    1000, 1000, 1000, 1000,
    1000, 0, 0, 1000,
    0, 1000, 0, 1000,
    0, 0, 1000, 1000,
    1000, 1000, 0, 1000,
    1000, 0, 1000, 1000,
];

/// Two triangles for each face of a cube whose faces have four corners of
/// their own.
pub const CUBE_INDICES: [u16; 36] = [
    0, 1, 2, 0, 2, 3,
    4, 5, 6, 4, 6, 7,
    8, 9, 10, 8, 10, 11,
    12, 13, 14, 12, 14, 15,
    16, 17, 18, 16, 18, 19,
    20, 21, 22, 20, 22, 23,
];

/// The number of vertices in the cube: 6 faces of 2 triangles of 3 corners.
pub const CUBE_VERTICES: usize = 36;

/// Component `i` of the cube's colour data. Each vertex carries the colour of
/// its face, and a face has six vertices in a row.
pub open spec fn cube_color_component(i: int) -> i32 {
    FACE_COLORS@[(i / 24) * 4 + i % 4]
}

/// The colour data of the cube: 36 vertices of four components.
pub open spec fn cube_colors() -> Seq<i32> {
    Seq::new(144, |i: int| cube_color_component(i))
}

/// What the buffers of the cube hold.
pub open spec fn is_cube(geometry: Geometry) -> bool {
    &&& geometry.positions matches GeometryBuffer::Attributes { kind, data }
    &&& kind == AttributeKind::Position3
    &&& data@ == CUBE_POSITIONS@
    &&& geometry.colors matches GeometryBuffer::Attributes { kind, data }
    &&& kind == AttributeKind::Color
    &&& data@ == cube_colors()
    &&& geometry.indices matches Some(GeometryBuffer::Indices { entries })
    &&& entries@ == CUBE_INDICES@
}

fn cube_color_data() -> (data: Vec<i32>)
    ensures
        data@ == cube_colors(),
{
    let mut data: Vec<i32> = Vec::new();
    let mut i: usize = 0;
    while i < 144
        invariant
            i <= 144,
            data@.len() == i,
            forall|j: int| 0 <= j < i ==> data@[j] == cube_color_component(j),
        decreases 144 - i,
    {
        data.push(FACE_COLORS[(i / 24) * 4 + i % 4]);
        i = i + 1;
    }
    data
}

/// Builds the buffers of the cube: 108 position components, 144 colour
/// components and 36 indices. The index buffer holds its own 36 entries; what
/// is drawn is the plain list of 36 vertices.
pub fn init_buffers() -> (geometry: Geometry)
    ensures
        is_cube(geometry),
        geometry.wf(),
        geometry.vertex_count_of() == CUBE_VERTICES,
{
    let positions = upload_attributes(
        AttributeKind::Position3,
        slice_to_vec(CUBE_POSITIONS.as_slice()),
    );
    let colors = upload_attributes(AttributeKind::Color, cube_color_data());
    let indices = upload_indices(slice_to_vec(CUBE_INDICES.as_slice()));
    Geometry { positions: positions.unwrap(), colors: colors.unwrap(), indices: Some(indices) }
}

/// Composes the frame of the cube for a viewport and a scene. The cube is
/// turned by the scene's angle; the scene is left as it is.
pub fn draw_scene(program: &LinkedProgram, width: u32, height: u32, scene: &Scene) -> (frame: Frame)
    ensures
        frame.descriptor@ == descriptor_of(Sample::Cube, width, height, *scene),
        frame.calls@ == frame_calls(Sample::Cube, *program),
{
    render_frame(Sample::Cube, program, width, height, scene)
}

/// Begins a session that sets the cube up and then draws it on every
/// display refresh, until it is cancelled.
pub fn draw(width: u32, height: u32) -> (session: Session)
    ensures
        session == Session::initial(Sample::Cube, width, height),
{
    Session::new(Sample::Cube, width, height)
}

/// The frame of the cube reads the buffers of the cube as they were built:
/// positions by three components and colours by four, one vertex after the
/// other, and it draws every vertex that the buffers hold.
pub proof fn frame_fits_buffers(program: LinkedProgram, geometry: Geometry)
    requires
        is_cube(geometry),
    ensures
        frame_calls(Sample::Cube, program)[6] == (Call::VertexAttribPointer {
            index: program.index_of(Attribute::Position),
            size: AttributeKind::Position3.components_of() as i32,
            kind: FLOAT,
            normalized: false,
            stride: 0,
            offset: 0,
        }),
        frame_calls(Sample::Cube, program)[9] == (Call::VertexAttribPointer {
            index: program.index_of(Attribute::Color),
            size: AttributeKind::Color.components_of() as i32,
            kind: FLOAT,
            normalized: false,
            stride: 0,
            offset: 0,
        }),
        frame_calls(Sample::Cube, program).last() == (Call::DrawArrays {
            mode: TRIANGLES,
            first: 0,
            count: geometry.vertex_count_of() as i32,
        }),
        geometry.colors.count_of() == geometry.vertex_count_of(),
{
    assert(frame_calls(Sample::Cube, program).len() == 16);
    assert(CUBE_POSITIONS@.len() == 108);
    assert(cube_colors().len() == 144);
}

} // verus!
