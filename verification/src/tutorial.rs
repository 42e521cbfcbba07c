//! The samples, each in a module of its own.

use vstd::prelude::*;
use crate::geometry::Geometry;
use crate::scene::Sample;
use crate::session::is_indexed;

pub mod sample1;
pub mod sample3;
pub mod sample5;

verus! {

/// Builds the buffers that a sample draws from. The empty canvas has none.
/// The others have a buffer for every role that their session uploads:
/// positions, colours and, where the session is indexed, indices.
pub fn init_buffers(sample: Sample) -> (geometry: Option<Geometry>)
    ensures
        sample == Sample::Clear ==> geometry is None,
        sample == Sample::FlatQuad ==> (geometry matches Some(square) && sample3::is_quad(square)),
        sample == Sample::Cube ==> (geometry matches Some(cube) && sample5::is_cube(cube)),
        geometry matches Some(built) ==> built.wf() && (built.indices is Some <==> is_indexed(
            sample,
        )),
{
    match sample {
        Sample::Clear => None,
        Sample::FlatQuad => Some(sample3::init_buffers()),
        Sample::Cube => Some(sample5::init_buffers()),
    }
}

} // verus!
