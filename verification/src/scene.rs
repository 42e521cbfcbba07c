//! Composing one frame: the two transforms and the calls that draw with them.
//!
//! Lengths are whole numbers of thousandths of a unit. The scene's angle is a
//! whole number of milliradians; the angle of a turn is a whole number of
//! tenths of a milliradian, so that seven tenths of any scene's angle is one.
//! The host evaluates the transforms in floating point; here they are
//! described exactly.

use vstd::prelude::*;
use crate::gl::{
    clear_mask, clear_mask_of, ARRAY_BUFFER, DEPTH_TEST, ELEMENT_ARRAY_BUFFER, FLOAT, LEQUAL,
    TRIANGLES, TRIANGLE_STRIP,
};
use crate::host::{quiet, unscheduled, Attribute, BufferRole, Call, Uniform};
use crate::shader::LinkedProgram;

verus! {

/// The samples that the library knows how to draw.
#[derive(Clone, Copy, Debug, PartialEq, Eq, Structural)]
pub enum Sample {
    /// An empty, black canvas.
    Clear,
    /// A square in the plane with a colour at each corner, drawn once.
    FlatQuad,
    /// A cube with a colour on each face, turning while it is drawn again and again.
    Cube,
}

/// The state that changes from frame to frame.
#[derive(Clone, Copy, Debug, PartialEq, Eq, Structural)]
pub struct Scene {
    /// The angle by which the scene has turned, in milliradians.
    pub rotation: u64,
}

/// A perspective projection.
#[derive(Clone, Copy, Debug, PartialEq, Eq, Structural)]
pub struct Perspective {
    /// The vertical field of view, in degrees.
    pub fov_degrees: u32,
    /// The width of the viewport. The aspect ratio is width to height.
    pub width: u32,
    /// The height of the viewport.
    pub height: u32,
    /// The distance of the near plane, in thousandths.
    pub near: i32,
    /// The distance of the far plane, in thousandths.
    pub far: i32,
}

/// The most that a viewport may be taller than it is wide and still have a
/// projection: a million times.
pub const MAX_SLENDERNESS: u64 = 1_000_000;

/// The farthest that a plane of projection may lie, in thousandths: 10 000
/// units. Up to there, planes that differ by a thousandth stay apart in
/// single precision.
pub const MAX_DEPTH: i32 = 10_000_000;

impl Perspective {
    /// Whether the projection has a matrix. The viewport must have an area
    /// and an aspect ratio that does not vanish, the field of view must lie
    /// strictly between 0 and 180 degrees, and the near plane must lie in
    /// front of the far plane, both before the camera and within
    /// [`MAX_DEPTH`]. Where a projection has no matrix there is nothing to
    /// upload for it, and the host leaves the uniform as it is.
    pub open spec fn projectable(self) -> bool {
        &&& self.width > 0
        &&& self.height > 0
        &&& self.height <= self.width * MAX_SLENDERNESS
        &&& 0 < self.fov_degrees < 180
        &&& 0 < self.near < self.far <= MAX_DEPTH
    }

    /// Returns whether the projection has a matrix.
    pub fn has_matrix(&self) -> (defined: bool)
        ensures
            defined == self.projectable(),
    {
        self.width > 0 && self.height > 0 && self.height as u64 <= self.width as u64
            * MAX_SLENDERNESS && 0 < self.fov_degrees && self.fov_degrees < 180 && 0 < self.near
            && self.near < self.far && self.far <= MAX_DEPTH
    }
}

/// One step in building the model-view matrix. Each step is applied to the
/// result of the steps before it, the first to the identity.
#[derive(Clone, Copy, Debug, PartialEq, Eq, Structural)]
pub enum Transform {
    /// Move by a vector, in thousandths.
    Translate { x: i32, y: i32, z: i32 },
    /// Turn by an angle, in tenths of a milliradian, about an axis, in thousandths.
    Rotate { angle: u128, x: i32, y: i32, z: i32 },
}

/// The two transforms of one frame. They are computed anew for every frame
/// and belong to it alone.
#[derive(Clone, Debug, PartialEq, Eq)]
pub struct FrameDescriptor {
    /// The projection matrix, by its parameters.
    pub projection: Perspective,
    /// The model-view matrix, by the steps that build it from the identity.
    pub model_view: Vec<Transform>,
}

/// A [`FrameDescriptor`] with its steps as a sequence.
pub struct FrameDescriptorView {
    pub projection: Perspective,
    pub model_view: Seq<Transform>,
}

impl View for FrameDescriptor {
    type V = FrameDescriptorView;

    open spec fn view(&self) -> FrameDescriptorView {
        FrameDescriptorView { projection: self.projection, model_view: self.model_view@ }
    }
}

/// One frame: its two transforms and the calls that draw it.
#[derive(Clone, Debug, PartialEq, Eq)]
pub struct Frame {
    pub descriptor: FrameDescriptor,
    pub calls: Vec<Call>,
}

/// The vertical field of view of every sample, in degrees.
pub const FIELD_OF_VIEW: u32 = 45;

/// The near plane of every sample: 0.1, in thousandths.
pub const NEAR_PLANE: i32 = 100;

/// The far plane of every sample: 100, in thousandths.
pub const FAR_PLANE: i32 = 100_000;

/// Where the drawing is put on the z axis, the camera looking down -z: at -6,
/// in thousandths.
pub const PLACEMENT_Z: i32 = -6000;

/// The projection of a frame that fills a viewport.
pub open spec fn projection_of(width: u32, height: u32) -> Perspective {
    Perspective { fov_degrees: FIELD_OF_VIEW, width, height, near: NEAR_PLANE, far: FAR_PLANE }
}

/// The projection of a sample's frame has a matrix exactly if the viewport
/// has an area and is not more than [`MAX_SLENDERNESS`] times as tall as wide.
pub proof fn projection_has_matrix(width: u32, height: u32)
    ensures
        projection_of(width, height).projectable() <==> width > 0 && height > 0 && height <= width
            * MAX_SLENDERNESS,
{
}

/// The move that every drawing starts with: away from the camera, along -z.
pub open spec fn set_back() -> Transform {
    Transform::Translate { x: 0, y: 0, z: PLACEMENT_Z }
}

/// The angle of the cube's first turn, in tenths of a milliradian: the
/// scene's angle.
pub open spec fn first_angle(rotation: u64) -> u128 {
    (10 * rotation) as u128
}

/// The angle of the cube's second turn, in tenths of a milliradian: seven
/// tenths of the scene's angle, for every scene.
pub open spec fn second_angle(rotation: u64) -> u128 {
    (7 * rotation) as u128
}

/// The steps of a sample's model-view matrix. Only the cube turns: by the
/// scene's angle about (0.5, 0, 1), then by seven tenths of it about (0, 1, 0).
pub open spec fn model_view_of(sample: Sample, scene: Scene) -> Seq<Transform> {
    match sample {
        Sample::Clear => seq![],
        Sample::FlatQuad => seq![set_back()],
        Sample::Cube => seq![
            set_back(),
            Transform::Rotate { angle: first_angle(scene.rotation), x: 500, y: 0, z: 1000 },
            Transform::Rotate { angle: second_angle(scene.rotation), x: 0, y: 1000, z: 0 },
        ],
    }
}

/// The two transforms of a sample's frame, for a viewport and a scene.
pub open spec fn descriptor_of(sample: Sample, width: u32, height: u32, scene: Scene)
    -> FrameDescriptorView {
    FrameDescriptorView {
        projection: projection_of(width, height),
        model_view: model_view_of(sample, scene),
    }
}

/// The calls that empty the canvas. Colour is cleared to opaque black. With
/// `depth`, the depth buffer is cleared too and depth testing is switched on,
/// so that of two fragments the nearer wins, and the later one on a tie.
pub open spec fn clear_calls(depth: bool) -> Seq<Call> {
    if depth {
        seq![
            Call::ClearColor { red: 0, green: 0, blue: 0, alpha: 1000 },
            Call::ClearDepth { depth: 1000 },
            Call::Enable { capability: DEPTH_TEST },
            Call::DepthFunc { func: LEQUAL },
            Call::Clear { mask: clear_mask_of(true) },
        ]
    } else {
        seq![
            Call::ClearColor { red: 0, green: 0, blue: 0, alpha: 1000 },
            Call::Clear { mask: clear_mask_of(false) },
        ]
    }
}

/// The calls that feed an attribute from a buffer: `size` floating-point
/// components per vertex, tightly packed, taken as they are.
pub open spec fn attribute_calls(buffer: BufferRole, index: u32, size: i32) -> Seq<Call> {
    seq![
        Call::BindBuffer { target: ARRAY_BUFFER, buffer },
        Call::VertexAttribPointer {
            index,
            size,
            kind: FLOAT,
            normalized: false,
            stride: 0,
            offset: 0,
        },
        Call::EnableVertexAttribArray { index },
    ]
}

/// The calls that make the program current and hand it the two matrices. A
/// matrix whose uniform the program lacks is uploaded all the same; the
/// rendering context ignores it.
pub open spec fn uniform_calls() -> Seq<Call> {
    seq![
        Call::UseProgram,
        Call::UniformMatrix4 { uniform: Uniform::Projection, transpose: false },
        Call::UniformMatrix4 { uniform: Uniform::ModelView, transpose: false },
    ]
}

/// The draw call of a sample: the square as a strip of 4 vertices, the cube
/// as a list of 36.
///
/// The cube is drawn from its vertex list and not through its index buffer:
/// its 36 vertices are the corners of its twelve triangles already, in
/// order. The index buffer is bound all the same; the draw does not read it.
pub open spec fn draw_call(sample: Sample) -> Call {
    match sample {
        Sample::Cube => Call::DrawArrays { mode: TRIANGLES, first: 0, count: 36 },
        _ => Call::DrawArrays { mode: TRIANGLE_STRIP, first: 0, count: 4 },
    }
}

/// The calls of one frame, in the order in which they are made: clear, feed
/// positions, feed colours, bind the indices where there are any, make the
/// program current, upload the matrices, draw.
pub open spec fn frame_calls(sample: Sample, program: LinkedProgram) -> Seq<Call> {
    match sample {
        Sample::Clear => clear_calls(false),
        Sample::FlatQuad => clear_calls(false) + attribute_calls(
            BufferRole::Positions,
            program.index_of(Attribute::Position),
            2,
        ) + attribute_calls(BufferRole::Colors, program.index_of(Attribute::Color), 4)
            + uniform_calls() + seq![draw_call(sample)],
        Sample::Cube => clear_calls(true) + attribute_calls(
            BufferRole::Positions,
            program.index_of(Attribute::Position),
            3,
        ) + attribute_calls(BufferRole::Colors, program.index_of(Attribute::Color), 4)
            + seq![Call::BindBuffer { target: ELEMENT_ARRAY_BUFFER, buffer: BufferRole::Indices }]
            + uniform_calls() + seq![draw_call(sample)],
    }
}

/// Computes the angle of the cube's first turn: the scene's angle, in the
/// unit of a turn.
pub fn first_turn(rotation: u64) -> (angle: u128)
    ensures
        angle == first_angle(rotation),
        angle == 10 * rotation,
{
    10 * (rotation as u128)
}

/// Computes the angle of the cube's second turn: seven tenths of the first.
pub fn second_turn(rotation: u64) -> (angle: u128)
    ensures
        angle == second_angle(rotation),
        angle == 7 * rotation,
        angle * 10 == 7 * first_angle(rotation),
{
    7 * (rotation as u128)
}

/// Lists the steps of a sample's model-view matrix.
pub fn model_view(sample: Sample, scene: &Scene) -> (steps: Vec<Transform>)
    ensures
        steps@ == model_view_of(sample, *scene),
{
    let back = Transform::Translate { x: 0, y: 0, z: PLACEMENT_Z };
    let steps: Vec<Transform> = match sample {
        Sample::Clear => Vec::new(),
        Sample::FlatQuad => vec![back],
        Sample::Cube => vec![
            back,
            Transform::Rotate { angle: first_turn(scene.rotation), x: 500, y: 0, z: 1000 },
            Transform::Rotate { angle: second_turn(scene.rotation), x: 0, y: 1000, z: 0 },
        ],
    };
    assert(steps@ =~= model_view_of(sample, *scene));
    steps
}

fn push_clear(calls: &mut Vec<Call>, depth: bool)
    ensures
        final(calls)@ == old(calls)@ + clear_calls(depth),
{
    calls.push(Call::ClearColor { red: 0, green: 0, blue: 0, alpha: 1000 });
    if depth {
        calls.push(Call::ClearDepth { depth: 1000 });
        calls.push(Call::Enable { capability: DEPTH_TEST });
        calls.push(Call::DepthFunc { func: LEQUAL });
    }
    calls.push(Call::Clear { mask: clear_mask(depth) });
    assert(calls@ =~= old(calls)@ + clear_calls(depth));
}

fn push_attribute(calls: &mut Vec<Call>, buffer: BufferRole, index: u32, size: i32)
    ensures
        final(calls)@ == old(calls)@ + attribute_calls(buffer, index, size),
{
    calls.push(Call::BindBuffer { target: ARRAY_BUFFER, buffer });
    calls.push(
        Call::VertexAttribPointer {
            index,
            size,
            kind: FLOAT,
            normalized: false,
            stride: 0,
            offset: 0,
        },
    );
    calls.push(Call::EnableVertexAttribArray { index });
    assert(calls@ =~= old(calls)@ + attribute_calls(buffer, index, size));
}

fn push_uniforms(calls: &mut Vec<Call>)
    ensures
        final(calls)@ == old(calls)@ + uniform_calls(),
{
    calls.push(Call::UseProgram);
    calls.push(Call::UniformMatrix4 { uniform: Uniform::Projection, transpose: false });
    calls.push(Call::UniformMatrix4 { uniform: Uniform::ModelView, transpose: false });
    assert(calls@ =~= old(calls)@ + uniform_calls());
}

/// Composes one frame of a sample: the projection for the viewport, the
/// model-view steps for the scene, and the calls that draw with the program's
/// inputs. The same steps are taken in the same order on every call.
pub fn render_frame(
    sample: Sample,
    program: &LinkedProgram,
    width: u32,
    height: u32,
    scene: &Scene,
) -> (frame: Frame)
    ensures
        frame.descriptor@ == descriptor_of(sample, width, height, *scene),
        frame.calls@ == frame_calls(sample, *program),
{
    let projection = Perspective {
        fov_degrees: FIELD_OF_VIEW,
        width,
        height,
        near: NEAR_PLANE,
        far: FAR_PLANE,
    };
    let steps = model_view(sample, scene);
    let mut calls: Vec<Call> = Vec::new();
    match sample {
        Sample::Clear => {
            push_clear(&mut calls, false);
        },
        Sample::FlatQuad => {
            push_clear(&mut calls, false);
            push_attribute(
                &mut calls,
                BufferRole::Positions,
                program.attribute_index(Attribute::Position),
                2,
            );
            push_attribute(
                &mut calls,
                BufferRole::Colors,
                program.attribute_index(Attribute::Color),
                4,
            );
            push_uniforms(&mut calls);
            calls.push(Call::DrawArrays { mode: TRIANGLE_STRIP, first: 0, count: 4 });
        },
        Sample::Cube => {
            push_clear(&mut calls, true);
            push_attribute(
                &mut calls,
                BufferRole::Positions,
                program.attribute_index(Attribute::Position),
                3,
            );
            push_attribute(
                &mut calls,
                BufferRole::Colors,
                program.attribute_index(Attribute::Color),
                4,
            );
            calls.push(
                Call::BindBuffer { target: ELEMENT_ARRAY_BUFFER, buffer: BufferRole::Indices },
            );
            push_uniforms(&mut calls);
            calls.push(Call::DrawArrays { mode: TRIANGLES, first: 0, count: 36 });
        },
    }
    assert(calls@ =~= frame_calls(sample, *program));
    Frame { descriptor: FrameDescriptor { projection, model_view: steps }, calls }
}

/// A frame of the square or of the cube draws exactly once, with its last
/// call: the square as a triangle strip of 4 vertices, the cube as a triangle
/// list of 36. This holds whatever the program's inputs are.
pub proof fn frame_draws_once(sample: Sample, program: LinkedProgram)
    requires
        sample != Sample::Clear,
    ensures
        frame_calls(sample, program).len() > 0,
        frame_calls(sample, program).last() == draw_call(sample),
        forall|i: int|
            0 <= i < frame_calls(sample, program).len() ==> ((#[trigger] frame_calls(
                sample,
                program,
            )[i]).draws() <==> i == frame_calls(sample, program).len() - 1),
        sample == Sample::FlatQuad ==> draw_call(sample) == (Call::DrawArrays {
            mode: TRIANGLE_STRIP,
            first: 0,
            count: 4,
        }),
        sample == Sample::Cube ==> draw_call(sample) == (Call::DrawArrays {
            mode: TRIANGLES,
            first: 0,
            count: 36,
        }),
{
    let calls = frame_calls(sample, program);
    if sample == Sample::FlatQuad {
        assert(calls.len() == 12);
    } else {
        assert(calls.len() == 16);
    }
}

/// No frame registers a callback: composing a frame never touches the frame
/// scheduler.
pub proof fn frame_never_schedules(sample: Sample, program: LinkedProgram)
    ensures
        unscheduled(frame_calls(sample, program)),
{
    let calls = frame_calls(sample, program);
    match sample {
        Sample::Clear => {
            assert(calls.len() == 2);
        },
        Sample::FlatQuad => {
            assert(calls.len() == 12);
        },
        Sample::Cube => {
            assert(calls.len() == 16);
        },
    }
}

/// A frame of the empty canvas draws nothing: it only clears.
pub proof fn clear_frame_draws_nothing(program: LinkedProgram)
    ensures
        frame_calls(Sample::Clear, program) == clear_calls(false),
        quiet(frame_calls(Sample::Clear, program)),
{
}

/// The turns of the cube are exact for every scene: the first is by the
/// scene's angle, the second by seven tenths of the first, and neither is
/// rounded.
pub proof fn turns_are_exact(scene: Scene)
    ensures
        model_view_of(Sample::Cube, scene)[1] == (Transform::Rotate {
            angle: first_angle(scene.rotation),
            x: 500,
            y: 0,
            z: 1000,
        }),
        model_view_of(Sample::Cube, scene)[2] == (Transform::Rotate {
            angle: second_angle(scene.rotation),
            x: 0,
            y: 1000,
            z: 0,
        }),
        first_angle(scene.rotation) == 10 * scene.rotation,
        10 * second_angle(scene.rotation) == 7 * first_angle(scene.rotation),
{
}

/// While the scene has not turned, both turns of the cube are by the angle
/// zero: but for them, its model-view steps are those of the square, the
/// plain move to z = -6.
pub proof fn model_view_at_rest(scene: Scene)
    requires
        scene.rotation == 0,
    ensures
        model_view_of(Sample::Cube, scene).len() == 3,
        model_view_of(Sample::Cube, scene)[0] == (Transform::Translate { x: 0, y: 0, z: -6000i32 }),
        model_view_of(Sample::Cube, scene)[1] matches Transform::Rotate { angle, .. } && angle == 0,
        model_view_of(Sample::Cube, scene)[2] matches Transform::Rotate { angle, .. } && angle == 0,
        model_view_of(Sample::FlatQuad, scene) == seq![model_view_of(Sample::Cube, scene)[0]],
{
}

} // verus!
