//! The square: four corners in four colours, drawn once.

use vstd::prelude::*;
use vstd::slice::slice_to_vec;
use crate::geometry::{upload_attributes, AttributeKind, Geometry, GeometryBuffer};
use crate::gl::{FLOAT, TRIANGLE_STRIP};
use crate::host::{Attribute, Call};
use crate::scene::{descriptor_of, frame_calls, render_frame, Frame, Sample, Scene};
use crate::session::Session;
use crate::shader::LinkedProgram;

pub use crate::shader::{compile_shader, link_program};

verus! {

/// The corners of the square, two components each, in the order of a
/// triangle strip.
pub const QUAD_POSITIONS: [i32; 8] = [
    1000, 1000,
    -1000, 1000,
    1000, -1000,
    -1000, -1000,
];

/// The colours of the corners, four components each: white, red, green and
/// blue, all opaque.
pub const QUAD_COLORS: [i32; 16] = [
    1000, 1000, 1000, 1000,
    1000, 0, 0, 1000,
    0, 1000, 0, 1000,
    0, 0, 1000, 1000,
];

/// The number of vertices in the square.
pub const QUAD_VERTICES: usize = 4;

/// What the buffers of the square hold.
pub open spec fn is_quad(geometry: Geometry) -> bool {
    &&& geometry.positions matches GeometryBuffer::Attributes { kind, data }
    &&& kind == AttributeKind::Position2
    &&& data@ == QUAD_POSITIONS@
    &&& geometry.colors matches GeometryBuffer::Attributes { kind, data }
    &&& kind == AttributeKind::Color
    &&& data@ == QUAD_COLORS@
    &&& geometry.indices is None
}

/// Builds the buffers of the square: 8 position components and 16 colour
/// components.
pub fn init_buffers() -> (geometry: Geometry)
    ensures
        is_quad(geometry),
        geometry.wf(),
        geometry.vertex_count_of() == QUAD_VERTICES,
{
    let positions = upload_attributes(
        AttributeKind::Position2,
        slice_to_vec(QUAD_POSITIONS.as_slice()),
    );
    let colors = upload_attributes(AttributeKind::Color, slice_to_vec(QUAD_COLORS.as_slice()));
    Geometry { positions: positions.unwrap(), colors: colors.unwrap(), indices: None }
}

/// Composes the frame of the square for a viewport. The square does not
/// turn: its model-view matrix is the plain move to z = -6.
pub fn draw_scene(program: &LinkedProgram, width: u32, height: u32) -> (frame: Frame)
    ensures
        frame.descriptor@ == descriptor_of(Sample::FlatQuad, width, height, Scene { rotation: 0 }),
        frame.calls@ == frame_calls(Sample::FlatQuad, *program),
{
    render_frame(Sample::FlatQuad, program, width, height, &Scene { rotation: 0 })
}

/// Begins a session that sets the square up and draws it once.
pub fn draw(width: u32, height: u32) -> (session: Session)
    ensures
        session == Session::initial(Sample::FlatQuad, width, height),
{
    Session::new(Sample::FlatQuad, width, height)
}

/// The frame of the square reads the buffers of the square as they were
/// built: positions by two components and colours by four, one vertex after
/// the other, and it draws every vertex that the buffers hold.
pub proof fn frame_fits_buffers(program: LinkedProgram, geometry: Geometry)
    requires
        is_quad(geometry),
    ensures
        frame_calls(Sample::FlatQuad, program)[3] == (Call::VertexAttribPointer {
            index: program.index_of(Attribute::Position),
            size: AttributeKind::Position2.components_of() as i32,
            kind: FLOAT,
            normalized: false,
            stride: 0,
            offset: 0,
        }),
        frame_calls(Sample::FlatQuad, program)[6] == (Call::VertexAttribPointer {
            index: program.index_of(Attribute::Color),
            size: AttributeKind::Color.components_of() as i32,
            kind: FLOAT,
            normalized: false,
            stride: 0,
            offset: 0,
        }),
        frame_calls(Sample::FlatQuad, program).last() == (Call::DrawArrays {
            mode: TRIANGLE_STRIP,
            first: 0,
            count: geometry.vertex_count_of() as i32,
        }),
        geometry.colors.count_of() == geometry.vertex_count_of(),
{
    assert(frame_calls(Sample::FlatQuad, program).len() == 12);
    assert(QUAD_POSITIONS@.len() == 8);
    assert(QUAD_COLORS@.len() == 16);
}

} // verus!
