//! The empty canvas: cleared to opaque black, once.

use vstd::prelude::*;
use crate::scene::Sample;
use crate::session::Session;

verus! {

/// Begins a session that clears the canvas. The sample uses no viewport.
pub fn draw() -> (session: Session)
    ensures
        session == Session::initial(Sample::Clear, 0, 0),
{
    Session::new(Sample::Clear, 0, 0)
}

} // verus!
