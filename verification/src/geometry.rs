//! Vertex data on its way to the GPU: what a buffer holds, when its contents
//! are acceptable, and the order of the calls that upload it.
//!
//! Attribute components are whole numbers of thousandths; the host widens
//! them to single precision when it fills the buffer.

use vstd::prelude::*;
use crate::error::{Resource, SetupError, SetupErrorView};
use crate::gl::{ARRAY_BUFFER, ELEMENT_ARRAY_BUFFER, STATIC_DRAW};
use crate::host::{outcome_of, quiet, Advance, BufferRole, Call, Event, Planned};

verus! {

/// What the components of one vertex mean.
#[derive(Clone, Copy, Debug, PartialEq, Eq, Structural)]
pub enum AttributeKind {
    /// A position in the plane: 2 components.
    Position2,
    /// A position in space: 3 components.
    Position3,
    /// A colour with opacity: 4 components.
    Color,
}

impl AttributeKind {
    /// The number of components that one vertex takes.
    pub open spec fn components_of(self) -> nat {
        match self {
            AttributeKind::Position2 => 2,
            AttributeKind::Position3 => 3,
            AttributeKind::Color => 4,
        }
    }

    /// Returns the number of components that one vertex takes.
    pub fn components(self) -> (n: usize)
        ensures
            n == self.components_of(),
    {
        match self {
            AttributeKind::Position2 => 2,
            AttributeKind::Position3 => 3,
            AttributeKind::Color => 4,
        }
    }
}

/// Attribute data that cannot be uploaded.
#[derive(Clone, Copy, Debug, PartialEq, Eq, Structural)]
pub enum GeometryError {
    /// The data ends in the middle of a vertex: `length` is not a multiple of
    /// the component count of `kind`.
    IncompleteVertex { kind: AttributeKind, length: usize },
}

/// The contents of one GPU buffer. Buffers are written once, at setup, and
/// never changed.
#[derive(Clone, Debug, PartialEq, Eq)]
pub enum GeometryBuffer {
    /// Per-vertex attribute data, vertex after vertex.
    Attributes { kind: AttributeKind, data: Vec<i32> },
    /// Indices into the vertices.
    Indices { entries: Vec<u16> },
}

impl GeometryBuffer {
    /// Attribute data holds whole vertices only.
    pub open spec fn wf(self) -> bool {
        match self {
            GeometryBuffer::Attributes { kind, data } => data@.len() % kind.components_of() == 0,
            GeometryBuffer::Indices { .. } => true,
        }
    }

    /// The binding point that the buffer is bound to for its upload.
    pub open spec fn target_of(self) -> u32 {
        match self {
            GeometryBuffer::Attributes { .. } => ARRAY_BUFFER,
            GeometryBuffer::Indices { .. } => ELEMENT_ARRAY_BUFFER,
        }
    }

    /// The number of elements in the buffer: vertices of attribute data,
    /// entries of index data.
    pub open spec fn count_of(self) -> nat {
        match self {
            GeometryBuffer::Attributes { kind, data } => data@.len() / kind.components_of(),
            GeometryBuffer::Indices { entries } => entries@.len(),
        }
    }

    /// Returns the binding point that the buffer is bound to for its upload.
    pub fn target(&self) -> (target: u32)
        ensures
            target == self.target_of(),
    {
        match self {
            GeometryBuffer::Attributes { .. } => ARRAY_BUFFER,
            GeometryBuffer::Indices { .. } => ELEMENT_ARRAY_BUFFER,
        }
    }

    /// Returns the number of elements in the buffer.
    pub fn count(&self) -> (count: usize)
        ensures
            count == self.count_of(),
    {
        match self {
            GeometryBuffer::Attributes { kind, data } => data.len() / kind.components(),
            GeometryBuffer::Indices { entries } => entries.len(),
        }
    }
}

/// Accepts attribute data for upload. Data that ends in the middle of a
/// vertex is rejected here, before any call reaches the host.
pub fn upload_attributes(kind: AttributeKind, data: Vec<i32>) -> (result: Result<
    GeometryBuffer,
    GeometryError,
>)
    ensures
        data@.len() % kind.components_of() == 0 ==> result == Ok::<GeometryBuffer, GeometryError>(
            GeometryBuffer::Attributes { kind, data },
        ),
        data@.len() % kind.components_of() != 0 ==> result == Err::<GeometryBuffer, GeometryError>(
            GeometryError::IncompleteVertex { kind, length: data.len() },
        ),
        result is Ok ==> result->Ok_0.wf(),
{
    let length: usize = data.len();
    if length % kind.components() == 0 {
        Ok(GeometryBuffer::Attributes { kind, data })
    } else {
        Err(GeometryError::IncompleteVertex { kind, length })
    }
}

/// Accepts index data for upload. Every sequence of indices is acceptable.
pub fn upload_indices(entries: Vec<u16>) -> (buffer: GeometryBuffer)
    ensures
        buffer == (GeometryBuffer::Indices { entries }),
        buffer.wf(),
{
    GeometryBuffer::Indices { entries }
}

/// The buffers of one rendering session.
#[derive(Clone, Debug, PartialEq, Eq)]
pub struct Geometry {
    pub positions: GeometryBuffer,
    pub colors: GeometryBuffer,
    pub indices: Option<GeometryBuffer>,
}

impl Geometry {
    /// The buffers fit together: positions and colours describe the same
    /// vertices, and every index names one of them.
    pub open spec fn wf(self) -> bool {
        &&& self.positions.wf()
        &&& self.positions matches GeometryBuffer::Attributes { kind, .. }
        &&& kind != AttributeKind::Color
        &&& self.colors.wf()
        &&& self.colors matches GeometryBuffer::Attributes { kind: AttributeKind::Color, .. }
        &&& self.colors.count_of() == self.positions.count_of()
        &&& self.indices matches Some(buffer) ==> {
            &&& buffer matches GeometryBuffer::Indices { entries }
            &&& forall|i: int| 0 <= i < entries@.len() ==> entries@[i] < self.positions.count_of()
        }
    }

    /// The number of vertices that the buffers describe.
    pub open spec fn vertex_count_of(self) -> nat {
        self.positions.count_of()
    }

    /// The buffer that plays a part in the session, if the session has one for it.
    pub open spec fn buffer_of(self, role: BufferRole) -> Option<GeometryBuffer> {
        match role {
            BufferRole::Positions => Some(self.positions),
            BufferRole::Colors => Some(self.colors),
            BufferRole::Indices => self.indices,
        }
    }

    /// Returns the number of vertices that the buffers describe.
    pub fn vertex_count(&self) -> (count: usize)
        ensures
            count == self.vertex_count_of(),
    {
        self.positions.count()
    }

    /// Returns the buffer to fill the role's GPU buffer from.
    pub fn buffer(&self, role: BufferRole) -> (buffer: Option<&GeometryBuffer>)
        ensures
            buffer matches Some(found) ==> self.buffer_of(role) == Some(*found),
            buffer is None ==> self.buffer_of(role) is None,
    {
        match role {
            BufferRole::Positions => Some(&self.positions),
            BufferRole::Colors => Some(&self.colors),
            BufferRole::Indices => self.indices.as_ref(),
        }
    }
}

/// Where the upload of a session's buffers stands.
#[derive(Clone, Copy, Debug, PartialEq, Eq, Structural)]
pub enum UploadStep {
    /// Nothing has been asked of the host yet.
    Start,
    /// The creation of the role's buffer object has been asked for.
    Creating(BufferRole),
    /// Every buffer is on the GPU.
    Uploaded,
}

/// The binding point through which the role's buffer is filled.
pub open spec fn target_for(role: BufferRole) -> u32 {
    match role {
        BufferRole::Indices => ELEMENT_ARRAY_BUFFER,
        _ => ARRAY_BUFFER,
    }
}

/// The role whose buffer is uploaded after `role`, if any. Index data comes
/// last, and only where the geometry is indexed.
pub open spec fn role_after(role: BufferRole, indexed: bool) -> Option<BufferRole> {
    match role {
        BufferRole::Positions => Some(BufferRole::Colors),
        BufferRole::Colors => if indexed {
            Some(BufferRole::Indices)
        } else {
            None
        },
        BufferRole::Indices => None,
    }
}

/// The calls that fill the role's buffer object once it exists: bind it, then
/// hand over the data, marked as written once.
pub open spec fn fill_calls(role: BufferRole) -> Seq<Call> {
    seq![
        Call::BindBuffer { target: target_for(role), buffer: role },
        Call::BufferData { target: target_for(role), buffer: role, usage: STATIC_DRAW },
    ]
}

/// One turn of the upload. Buffers are created and filled one after the
/// other: positions, colours and, for indexed geometry, indices. A buffer
/// object that the context cannot create ends setup.
pub open spec fn upload_plan(indexed: bool, step: UploadStep, event: Event) -> Result<
    Planned<UploadStep>,
    SetupErrorView,
> {
    match step {
        UploadStep::Start => Ok(
            Planned {
                calls: seq![Call::CreateBuffer(BufferRole::Positions)],
                next: UploadStep::Creating(BufferRole::Positions),
            },
        ),
        UploadStep::Creating(role) => if !event.created() {
            Err(SetupErrorView::ResourceAllocation(Resource::Buffer))
        } else {
            match role_after(role, indexed) {
                Some(following) => Ok(
                    Planned {
                        calls: fill_calls(role).push(Call::CreateBuffer(following)),
                        next: UploadStep::Creating(following),
                    },
                ),
                None => Ok(Planned { calls: fill_calls(role), next: UploadStep::Uploaded }),
            }
        },
        UploadStep::Uploaded => Ok(Planned { calls: seq![], next: UploadStep::Uploaded }),
    }
}

/// Takes one turn of the upload: given the step that was reached and the
/// host's answer to the last call, says which calls come next.
pub fn upload_buffers(indexed: bool, step: UploadStep, event: Event) -> (result: Result<
    Advance<UploadStep>,
    SetupError,
>)
    ensures
        outcome_of(result) == upload_plan(indexed, step, event),
{
    match step {
        UploadStep::Start => {
            let calls: Vec<Call> = vec![Call::CreateBuffer(BufferRole::Positions)];
            assert(calls@ =~= seq![Call::CreateBuffer(BufferRole::Positions)]);
            Ok(Advance { calls, next: UploadStep::Creating(BufferRole::Positions) })
        },
        UploadStep::Creating(role) => {
            if !matches!(event, Event::Created(true)) {
                return Err(SetupError::ResourceAllocation(Resource::Buffer));
            }
            let target: u32 = match role {
                BufferRole::Indices => ELEMENT_ARRAY_BUFFER,
                _ => ARRAY_BUFFER,
            };
            let mut calls: Vec<Call> = vec![
                Call::BindBuffer { target, buffer: role },
                Call::BufferData { target, buffer: role, usage: STATIC_DRAW },
            ];
            assert(calls@ =~= fill_calls(role));
            let following: Option<BufferRole> = match role {
                BufferRole::Positions => Some(BufferRole::Colors),
                BufferRole::Colors => if indexed {
                    Some(BufferRole::Indices)
                } else {
                    None
                },
                BufferRole::Indices => None,
            };
            match following {
                Some(next_role) => {
                    calls.push(Call::CreateBuffer(next_role));
                    Ok(Advance { calls, next: UploadStep::Creating(next_role) })
                },
                None => Ok(Advance { calls, next: UploadStep::Uploaded }),
            }
        },
        UploadStep::Uploaded => Ok(Advance { calls: Vec::new(), next: UploadStep::Uploaded }),
    }
}

/// Where the upload stands after the host has reported `events`, one per
/// turn, and the calls that were asked for on the way; or the failure that
/// one of the turns ended with.
pub open spec fn upload_run(indexed: bool, events: Seq<Event>) -> Result<
    Planned<UploadStep>,
    SetupErrorView,
>
    decreases events.len(),
{
    if events.len() == 0 {
        Ok(Planned { calls: seq![], next: UploadStep::Start })
    } else {
        match upload_run(indexed, events.drop_last()) {
            Ok(so_far) => match upload_plan(indexed, so_far.next, events.last()) {
                Ok(planned) => Ok(
                    Planned { calls: so_far.calls + planned.calls, next: planned.next },
                ),
                Err(error) => Err(error),
            },
            Err(error) => Err(error),
        }
    }
}

/// The calls of an upload in which every buffer object is created: each
/// buffer is created, bound and filled, exactly once, one buffer after the other.
pub open spec fn upload_calls(indexed: bool) -> Seq<Call> {
    let vertices = seq![Call::CreateBuffer(BufferRole::Positions)] + fill_calls(
        BufferRole::Positions,
    ) + seq![Call::CreateBuffer(BufferRole::Colors)] + fill_calls(BufferRole::Colors);
    if indexed {
        vertices + seq![Call::CreateBuffer(BufferRole::Indices)] + fill_calls(BufferRole::Indices)
    } else {
        vertices
    }
}

/// What an upload comes to, by what the host answers to the creation of the
/// three buffer objects. The third answer counts for indexed geometry only.
pub open spec fn upload_result(indexed: bool, created: Seq<Event>) -> Result<
    Planned<UploadStep>,
    SetupErrorView,
> {
    if created[0].created() && created[1].created() && (indexed ==> created[2].created()) {
        Ok(Planned { calls: upload_calls(indexed), next: UploadStep::Uploaded })
    } else {
        Err(SetupErrorView::ResourceAllocation(Resource::Buffer))
    }
}

proof fn upload_run_unfold(indexed: bool, events: Seq<Event>, event: Event)
    ensures
        upload_run(indexed, events.push(event)) == match upload_run(indexed, events) {
            Ok(so_far) => match upload_plan(indexed, so_far.next, event) {
                Ok(planned) => Ok(
                    Planned { calls: so_far.calls + planned.calls, next: planned.next },
                ),
                Err(error) => Err::<Planned<UploadStep>, SetupErrorView>(error),
            },
            Err(error) => Err(error),
        },
{
    assert(events.push(event).drop_last() =~= events);
}

/// An upload succeeds exactly if every buffer object that it needs is
/// created; otherwise it fails for want of a resource. Where it succeeds,
/// every buffer has been created, bound and filled exactly once.
pub proof fn upload_comes_to(indexed: bool, first: Event, created: Seq<Event>)
    requires
        created.len() == 3,
    ensures
        upload_run(indexed, seq![first] + created) == upload_result(indexed, created),
{
    let none = Seq::<Event>::empty();
    let e1 = none.push(first);
    let e2 = e1.push(created[0]);
    let e3 = e2.push(created[1]);
    let e4 = e3.push(created[2]);
    upload_run_unfold(indexed, none, first);
    upload_run_unfold(indexed, e1, created[0]);
    upload_run_unfold(indexed, e2, created[1]);
    upload_run_unfold(indexed, e3, created[2]);
    assert(seq![first] + created =~= e4);
    if upload_result(indexed, created) is Ok {
        assert(upload_run(indexed, e4)->Ok_0.calls =~= upload_calls(indexed));
    }
}

/// No turn of the upload draws or registers a frame callback.
pub proof fn upload_is_quiet(indexed: bool, step: UploadStep, event: Event)
    ensures
        upload_plan(indexed, step, event) matches Ok(planned) ==> quiet(planned.calls),
{
}

} // verus!
