//! The ways in which setting a sample up can fail.

use vstd::prelude::*;
use vstd::string::StringExecFns;

verus! {

/// The kinds of GPU object that a session allocates.
#[derive(Clone, Copy, Debug, PartialEq, Eq, Structural)]
pub enum Resource {
    Shader,
    Program,
    Buffer,
}

/// Why setup was abandoned. Every failure is final: nothing is retried and
/// nothing is drawn.
#[derive(Clone, Debug, PartialEq, Eq)]
pub enum SetupError {
    /// A shader did not compile; the text is the driver's diagnostic.
    Compile(String),
    /// The program did not link; the text is the driver's diagnostic.
    Link(String),
    /// The context could not allocate an object. No diagnostic exists for this.
    ResourceAllocation(Resource),
}

/// A [`SetupError`] with its text as a sequence of characters.
pub enum SetupErrorView {
    Compile(Seq<char>),
    Link(Seq<char>),
    ResourceAllocation(Resource),
}

impl View for SetupError {
    type V = SetupErrorView;

    open spec fn view(&self) -> SetupErrorView {
        match self {
            SetupError::Compile(text) => SetupErrorView::Compile(text@),
            SetupError::Link(text) => SetupErrorView::Link(text@),
            SetupError::ResourceAllocation(resource) => SetupErrorView::ResourceAllocation(
                *resource,
            ),
        }
    }
}

/// The text that stands in for a compile diagnostic when the driver gives none.
pub open spec fn unknown_compile_error() -> Seq<char> {
    "Unknown error creating shader"@
}

/// The text that stands in for a link diagnostic when the driver gives none.
pub open spec fn unknown_link_error() -> Seq<char> {
    "Unknown error creating program object"@
}

/// The message of a failure: the diagnostic of a compile or link failure as it
/// is, and a fixed sentence for an object that could not be allocated.
pub open spec fn message_of(error: SetupErrorView) -> Seq<char> {
    match error {
        SetupErrorView::Compile(text) => text,
        SetupErrorView::Link(text) => text,
        SetupErrorView::ResourceAllocation(Resource::Buffer) => "failed to create buffer"@,
        SetupErrorView::ResourceAllocation(_) => "Unable to create shader object"@,
    }
}

impl SetupError {
    /// Returns the message to surface for this failure.
    pub fn message(&self) -> (message: String)
        ensures
            message@ == message_of(self@),
    {
        match self {
            SetupError::Compile(text) => text.clone(),
            SetupError::Link(text) => text.clone(),
            SetupError::ResourceAllocation(Resource::Buffer) => String::from_str(
                "failed to create buffer",
            ),
            SetupError::ResourceAllocation(_) => String::from_str("Unable to create shader object"),
        }
    }
}

} // verus!
