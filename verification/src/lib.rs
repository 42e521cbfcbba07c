//! Plans the WebGL calls of a few small rendering samples.
//!
//! The library never touches a rendering context. It decides which calls are
//! made, in which order and with which arguments, and reacts to what the host
//! reports back; the host performs the calls.
//!
//! - [`host`]: the calls and events that pass between library and host.
//! - [`shader`]: compiling the two shader stages and linking the program.
//! - [`geometry`]: vertex data and its upload.
//! - [`scene`]: the transforms and the calls of one frame.
//! - [`animation`]: the loop that turns the scene from frame to frame.
//! - [`session`]: setup and drawing of one sample, turn by turn.
//! - [`runs`]: what holds of a session over any number of turns.
//! - [`tutorial`]: the samples.
//!
//! Real numbers are held exactly: lengths and colour components as whole
//! numbers of thousandths, the scene's angle as a whole number of
//! milliradians, the angle of a turn as a whole number of tenths of a
//! milliradian. Turning them into floating point is left to the host.

use vstd::prelude::*;

pub mod animation;
pub mod error;
pub mod geometry;
pub mod gl;
pub mod host;
pub mod runs;
pub mod scene;
pub mod session;
pub mod shader;
pub mod tutorial;

use crate::scene::Sample;
use crate::session::Session;

verus! {

/// The session that an identifier selects for a canvas of a given size: 1
/// the empty canvas, which uses no viewport, 3 the square, 5 the cube. No
/// other identifier selects a sample of this library.
pub open spec fn selected(sample_id: u8, width: u32, height: u32) -> Option<Session> {
    if sample_id == 1 {
        Some(Session::initial(Sample::Clear, 0, 0))
    } else if sample_id == 3 {
        Some(Session::initial(Sample::FlatQuad, width, height))
    } else if sample_id == 5 {
        Some(Session::initial(Sample::Cube, width, height))
    } else {
        None
    }
}

/// Begins the session of the sample that an identifier selects, for a canvas
/// of the given size. Where the identifier selects nothing, nothing is begun
/// and nothing will be drawn.
pub fn drawwebgl(sample_id: u8, width: u32, height: u32) -> (session: Option<Session>)
    ensures
        session == selected(sample_id, width, height),
{
    match sample_id {
        1 => Some(tutorial::sample1::draw()),
        3 => Some(tutorial::sample3::draw(width, height)),
        5 => Some(tutorial::sample5::draw(width, height)),
        _ => None,
    }
}

} // verus!
