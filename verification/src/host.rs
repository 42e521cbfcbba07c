//! The vocabulary that the library and its host share.
//!
//! A [`Call`] is one request to the rendering context or to the frame
//! scheduler. An [`Event`] is what the host reports back: the answer to the
//! last call it performed, or the firing of a frame callback. GPU objects never
//! cross this boundary; they are named by the part they play.

use vstd::prelude::*;
use crate::error::{SetupError, SetupErrorView};
use crate::gl::{FRAGMENT_SHADER, VERTEX_SHADER};

verus! {

/// The two programmable stages of the pipeline.
#[derive(Clone, Copy, Debug, PartialEq, Eq, Structural)]
pub enum ShaderStage {
    Vertex,
    Fragment,
}

impl ShaderStage {
    /// The shader kind under which the rendering context knows the stage.
    pub open spec fn code_of(self) -> u32 {
        match self {
            ShaderStage::Vertex => VERTEX_SHADER,
            ShaderStage::Fragment => FRAGMENT_SHADER,
        }
    }

    /// Returns the shader kind to create a shader of this stage with.
    pub fn code(self) -> (code: u32)
        ensures
            code == self.code_of(),
    {
        match self {
            ShaderStage::Vertex => VERTEX_SHADER,
            ShaderStage::Fragment => FRAGMENT_SHADER,
        }
    }
}

/// The per-vertex inputs of the shader pair.
#[derive(Clone, Copy, Debug, PartialEq, Eq, Structural)]
pub enum Attribute {
    Position,
    Color,
}

impl Attribute {
    /// The name that the shader source declares the attribute under.
    pub open spec fn name_of(self) -> Seq<char> {
        match self {
            Attribute::Position => "aVertexPosition"@,
            Attribute::Color => "aVertexColor"@,
        }
    }

    /// Returns the name to look the attribute's location up by.
    pub fn name(self) -> (name: &'static str)
        ensures
            name@ == self.name_of(),
    {
        match self {
            Attribute::Position => "aVertexPosition",
            Attribute::Color => "aVertexColor",
        }
    }
}

/// The per-draw inputs of the shader pair: the two transform matrices.
#[derive(Clone, Copy, Debug, PartialEq, Eq, Structural)]
pub enum Uniform {
    Projection,
    ModelView,
}

impl Uniform {
    /// The name that the shader source declares the uniform under.
    pub open spec fn name_of(self) -> Seq<char> {
        match self {
            Uniform::Projection => "uProjectionMatrix"@,
            Uniform::ModelView => "uModelViewMatrix"@,
        }
    }

    /// Returns the name to look the uniform's location up by.
    pub fn name(self) -> (name: &'static str)
        ensures
            name@ == self.name_of(),
    {
        match self {
            Uniform::Projection => "uProjectionMatrix",
            Uniform::ModelView => "uModelViewMatrix",
        }
    }
}

/// The buffers of a rendering session, by what they hold.
#[derive(Clone, Copy, Debug, PartialEq, Eq, Structural)]
pub enum BufferRole {
    Positions,
    Colors,
    Indices,
}

/// One request to the host. Real numbers are given in thousandths.
#[derive(Clone, Copy, Debug, PartialEq, Eq, Structural)]
pub enum Call {
    /// Create the shader object of a stage. Answered by [`Event::Created`].
    CreateShader(ShaderStage),
    /// Hand the stage's source text to its shader object: of the session's
    /// two texts, the one of that stage, unchanged.
    ShaderSource(ShaderStage),
    /// Compile the stage's shader object.
    CompileShader(ShaderStage),
    /// Read the stage's compile status. Answered by [`Event::Status`].
    GetCompileStatus(ShaderStage),
    /// Read the stage's compile diagnostics. Answered by [`Event::InfoLog`].
    GetShaderInfoLog(ShaderStage),
    /// Create the program object. Answered by [`Event::Created`].
    CreateProgram,
    /// Attach the stage's shader object to the program.
    AttachShader(ShaderStage),
    /// Link the program.
    LinkProgram,
    /// Read the program's link status. Answered by [`Event::Status`].
    GetLinkStatus,
    /// Read the program's link diagnostics. Answered by [`Event::InfoLog`].
    GetProgramInfoLog,
    /// Look an attribute up by its name. Answered by [`Event::AttribLocation`].
    GetAttribLocation(Attribute),
    /// Look a uniform up by its name. Answered by [`Event::UniformLocation`].
    GetUniformLocation(Uniform),
    /// Create the buffer object of a role. Answered by [`Event::Created`].
    CreateBuffer(BufferRole),
    /// Bind the role's buffer object to a binding point.
    BindBuffer { target: u32, buffer: BufferRole },
    /// Fill the buffer bound to `target` with the role's data.
    BufferData { target: u32, buffer: BufferRole, usage: u32 },
    /// Set the colour that clearing writes.
    ClearColor { red: i32, green: i32, blue: i32, alpha: i32 },
    /// Set the depth that clearing writes.
    ClearDepth { depth: i32 },
    /// Switch a capability on.
    Enable { capability: u32 },
    /// Choose the depth comparison.
    DepthFunc { func: u32 },
    /// Clear the buffers that the mask selects.
    Clear { mask: u32 },
    /// Describe how an attribute reads the buffer bound to the array binding point.
    VertexAttribPointer { index: u32, size: i32, kind: u32, normalized: bool, stride: i32, offset: i32 },
    /// Let an attribute read from its array.
    EnableVertexAttribArray { index: u32 },
    /// Make the linked program current.
    UseProgram,
    /// Upload the frame's matrix for a uniform, as sixteen column-major numbers.
    UniformMatrix4 { uniform: Uniform, transpose: bool },
    /// Draw `count` consecutive vertices, starting at `first`.
    DrawArrays { mode: u32, first: i32, count: i32 },
    /// Ask the frame scheduler for one callback. Answered, in time, by [`Event::Frame`].
    RequestAnimationFrame,
}

impl Call {
    /// Whether the call draws.
    pub open spec fn draws(self) -> bool {
        self is DrawArrays
    }

    /// Whether the call registers a frame callback.
    pub open spec fn schedules(self) -> bool {
        self is RequestAnimationFrame
    }

    /// Whether the call has an answer that the library waits for.
    pub open spec fn asks(self) -> bool {
        match self {
            Call::CreateShader(_) => true,
            Call::GetCompileStatus(_) => true,
            Call::GetShaderInfoLog(_) => true,
            Call::CreateProgram => true,
            Call::GetLinkStatus => true,
            Call::GetProgramInfoLog => true,
            Call::GetAttribLocation(_) => true,
            Call::GetUniformLocation(_) => true,
            Call::CreateBuffer(_) => true,
            _ => false,
        }
    }
}

/// Calls that neither draw nor register a frame callback.
pub open spec fn quiet(calls: Seq<Call>) -> bool {
    forall|i: int| 0 <= i < calls.len() ==> !(#[trigger] calls[i]).draws() && !calls[i].schedules()
}

/// Calls among which none registers a frame callback.
pub open spec fn unscheduled(calls: Seq<Call>) -> bool {
    forall|i: int| 0 <= i < calls.len() ==> !(#[trigger] calls[i]).schedules()
}

/// What the host reports to the library.
///
/// During setup the event of a turn is the answer to the last call of the
/// turn before. An event of another kind than the one that is awaited counts
/// as the answer that nothing came back: no object, no success, no text, no
/// location.
#[derive(Clone, Debug, PartialEq, Eq)]
pub enum Event {
    /// Nothing has been asked yet, or the last call has no answer.
    Nothing,
    /// Whether the object asked for came into being.
    Created(bool),
    /// A status parameter, read as a boolean where it is one.
    Status(Option<bool>),
    /// Diagnostic text, where the driver has any.
    InfoLog(Option<String>),
    /// The location of an attribute, negative where the program has none of that name.
    AttribLocation(i32),
    /// Whether the program has a uniform of the name asked for.
    UniformLocation(bool),
    /// A frame callback fired.
    Frame,
}

impl Event {
    /// Whether the event reports an object that was created.
    pub open spec fn created(self) -> bool {
        self == Event::Created(true)
    }

    /// Whether the event reports a status that is set.
    pub open spec fn succeeded(self) -> bool {
        self == Event::Status(Some(true))
    }

    /// The diagnostic text that the event carries, if it carries any.
    pub open spec fn info_log(self) -> Option<Seq<char>> {
        match self {
            Event::InfoLog(Some(text)) => Some(text@),
            _ => None,
        }
    }

    /// The attribute location that the event reports; -1, the value for "no
    /// such attribute", where it reports none.
    pub open spec fn attrib_location(self) -> i32 {
        match self {
            Event::AttribLocation(location) => location,
            _ => -1i32,
        }
    }

    /// Whether the event reports a uniform that was found.
    pub open spec fn uniform_found(self) -> bool {
        self == Event::UniformLocation(true)
    }
}

/// What one turn of a setup phase asks of the host.
#[derive(Clone, Debug, PartialEq, Eq)]
pub struct Advance<S> {
    /// The calls to perform, in order. The answer to the last one is the next event.
    pub calls: Vec<Call>,
    /// The step that the phase has reached.
    pub next: S,
}

/// An [`Advance`] with its calls as a sequence.
pub struct Planned<S> {
    pub calls: Seq<Call>,
    pub next: S,
}

impl<S> View for Advance<S> {
    type V = Planned<S>;

    open spec fn view(&self) -> Planned<S> {
        Planned { calls: self.calls@, next: self.next }
    }
}

/// How one turn of a setup phase ends: with calls to perform, or with the
/// failure that ends setup.
pub open spec fn outcome_of<S>(result: Result<Advance<S>, SetupError>) -> Result<
    Planned<S>,
    SetupErrorView,
> {
    match result {
        Ok(advance) => Ok(advance@),
        Err(error) => Err(error@),
    }
}

} // verus!
