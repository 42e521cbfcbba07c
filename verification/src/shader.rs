//! Shader programs: compiling the two stages, linking them, and finding the
//! inputs of the linked program.

use vstd::prelude::*;
use vstd::string::StringExecFns;
use crate::error::{
    unknown_compile_error, unknown_link_error, Resource, SetupError, SetupErrorView,
};
use crate::host::{
    outcome_of, quiet, Advance, Attribute, Call, Event, Planned, ShaderStage, Uniform,
};

verus! {

/// What is known of a linked program: where its inputs are.
#[derive(Clone, Copy, Debug, PartialEq, Eq, Structural)]
pub struct LinkedProgram {
    /// The location of the position attribute; negative if the program has none.
    pub position: i32,
    /// The location of the colour attribute; negative if the program has none.
    pub color: i32,
    /// Whether the program has the projection matrix.
    pub projection: bool,
    /// Whether the program has the model-view matrix.
    pub model_view: bool,
}

impl LinkedProgram {
    /// The location that was found for an attribute.
    pub open spec fn location_of(self, attribute: Attribute) -> i32 {
        match attribute {
            Attribute::Position => self.position,
            Attribute::Color => self.color,
        }
    }

    /// All four inputs of the program were found.
    pub open spec fn resolves_all(self) -> bool {
        &&& self.position >= 0
        &&& self.color >= 0
        &&& self.projection
        &&& self.model_view
    }

    /// The index under which the rendering context is told of an attribute:
    /// its location as an unsigned number. A location that was not found
    /// wraps around to an index that no context has, and the context ignores
    /// what is asked for it.
    pub open spec fn index_of(self, attribute: Attribute) -> u32 {
        let location = self.location_of(attribute);
        if location >= 0 {
            location as u32
        } else {
            (location + 0x1_0000_0000) as u32
        }
    }

    /// Returns whether all four inputs of the program were found.
    pub fn is_complete(&self) -> (complete: bool)
        ensures
            complete == self.resolves_all(),
    {
        self.position >= 0 && self.color >= 0 && self.projection && self.model_view
    }

    /// Returns the index under which the rendering context is told of an attribute.
    pub fn attribute_index(&self, attribute: Attribute) -> (index: u32)
        ensures
            index == self.index_of(attribute),
    {
        let location: i32 = match attribute {
            Attribute::Position => self.position,
            Attribute::Color => self.color,
        };
        if location >= 0 {
            location as u32
        } else {
            u32::MAX - ((-(location + 1)) as u32)
        }
    }
}

/// The source text of a stage, of the two texts that a session is given.
pub open spec fn source_of(stage: ShaderStage, vertex: Seq<char>, fragment: Seq<char>) -> Seq<
    char,
> {
    match stage {
        ShaderStage::Vertex => vertex,
        ShaderStage::Fragment => fragment,
    }
}

/// Picks the text to hand to the shader object of a stage: the vertex text
/// for the vertex stage and the fragment text for the fragment stage, as it
/// was given, unchanged.
pub fn shader_source<'a>(stage: ShaderStage, vertex: &'a str, fragment: &'a str) -> (text: &'a str)
    ensures
        text@ == source_of(stage, vertex@, fragment@),
        stage == ShaderStage::Vertex ==> text == vertex,
        stage == ShaderStage::Fragment ==> text == fragment,
{
    match stage {
        ShaderStage::Vertex => vertex,
        ShaderStage::Fragment => fragment,
    }
}

/// Where the compilation of one stage stands.
#[derive(Clone, Copy, Debug, PartialEq, Eq, Structural)]
pub enum CompileStep {
    /// Nothing has been asked of the host yet.
    Start,
    /// The creation of the shader object has been asked for.
    Creating,
    /// The source has been handed over and compiled; the status has been asked for.
    Compiling,
    /// Compilation failed; the diagnostic has been asked for.
    Diagnosing,
    /// The stage is compiled.
    Compiled,
}

/// One turn of compiling a stage. The shader object is created, given its
/// source and compiled. A status other than `true` is a failure, whose
/// diagnostic is then fetched and returned as the driver wrote it. Nothing
/// is retried, and a shader object that did not compile is left for the
/// context to release when it is torn down.
pub open spec fn compile_plan(stage: ShaderStage, step: CompileStep, event: Event) -> Result<
    Planned<CompileStep>,
    SetupErrorView,
> {
    match step {
        CompileStep::Start => Ok(
            Planned { calls: seq![Call::CreateShader(stage)], next: CompileStep::Creating },
        ),
        CompileStep::Creating => if event.created() {
            Ok(
                Planned {
                    calls: seq![
                        Call::ShaderSource(stage),
                        Call::CompileShader(stage),
                        Call::GetCompileStatus(stage),
                    ],
                    next: CompileStep::Compiling,
                },
            )
        } else {
            Err(SetupErrorView::ResourceAllocation(Resource::Shader))
        },
        CompileStep::Compiling => if event.succeeded() {
            Ok(Planned { calls: seq![], next: CompileStep::Compiled })
        } else {
            Ok(Planned { calls: seq![Call::GetShaderInfoLog(stage)], next: CompileStep::Diagnosing })
        },
        CompileStep::Diagnosing => Err(
            SetupErrorView::Compile(
                match event.info_log() {
                    Some(text) => text,
                    None => unknown_compile_error(),
                },
            ),
        ),
        CompileStep::Compiled => Ok(Planned { calls: seq![], next: CompileStep::Compiled }),
    }
}

/// Takes one turn of compiling a stage: given the step that was reached and
/// the host's answer to the last call, says which calls come next, or why
/// the stage cannot be compiled.
pub fn compile_shader(stage: ShaderStage, step: CompileStep, event: Event) -> (result: Result<
    Advance<CompileStep>,
    SetupError,
>)
    ensures
        outcome_of(result) == compile_plan(stage, step, event),
{
    match step {
        CompileStep::Start => {
            let calls: Vec<Call> = vec![Call::CreateShader(stage)];
            assert(calls@ =~= seq![Call::CreateShader(stage)]);
            Ok(Advance { calls, next: CompileStep::Creating })
        },
        CompileStep::Creating => {
            if matches!(event, Event::Created(true)) {
                let calls: Vec<Call> = vec![
                    Call::ShaderSource(stage),
                    Call::CompileShader(stage),
                    Call::GetCompileStatus(stage),
                ];
                assert(calls@ =~= seq![
                    Call::ShaderSource(stage),
                    Call::CompileShader(stage),
                    Call::GetCompileStatus(stage),
                ]);
                Ok(Advance { calls, next: CompileStep::Compiling })
            } else {
                Err(SetupError::ResourceAllocation(Resource::Shader))
            }
        },
        CompileStep::Compiling => {
            if matches!(event, Event::Status(Some(true))) {
                Ok(Advance { calls: Vec::new(), next: CompileStep::Compiled })
            } else {
                let calls: Vec<Call> = vec![Call::GetShaderInfoLog(stage)];
                assert(calls@ =~= seq![Call::GetShaderInfoLog(stage)]);
                Ok(Advance { calls, next: CompileStep::Diagnosing })
            }
        },
        CompileStep::Diagnosing => match event {
            Event::InfoLog(Some(text)) => Err(SetupError::Compile(text)),
            _ => Err(SetupError::Compile(String::from_str("Unknown error creating shader"))),
        },
        CompileStep::Compiled => Ok(Advance { calls: Vec::new(), next: CompileStep::Compiled }),
    }
}

/// An input of the program that is looked up by its name.
#[derive(Clone, Copy, Debug, PartialEq, Eq, Structural)]
pub enum Input {
    Attribute(Attribute),
    Uniform(Uniform),
}

/// Where linking stands.
#[derive(Clone, Copy, Debug, PartialEq, Eq, Structural)]
pub enum LinkStep {
    /// Nothing has been asked of the host yet.
    Start,
    /// The creation of the program object has been asked for.
    Creating,
    /// The shaders have been attached and linked; the status has been asked for.
    Linking,
    /// Linking failed; the diagnostic has been asked for.
    Diagnosing,
    /// The program is linked; the location of the input has been asked for.
    Locating(Input),
    /// The program is linked and its inputs have been looked up.
    Linked,
}

/// The state of linking: the step that was reached, and what is known of the
/// program so far.
#[derive(Clone, Copy, Debug, PartialEq, Eq, Structural)]
pub struct Link {
    pub step: LinkStep,
    pub program: LinkedProgram,
}

/// A program of which no input has been found.
pub open spec fn unresolved() -> LinkedProgram {
    LinkedProgram { position: -1i32, color: -1i32, projection: false, model_view: false }
}

/// The state in which linking starts.
pub open spec fn link_start() -> Link {
    Link { step: LinkStep::Start, program: unresolved() }
}

/// One turn of linking. The program object is created, both shaders are
/// attached and the program is linked. A status other than `true` is a
/// failure, whose diagnostic is then fetched and returned as the driver wrote
/// it. On success the four inputs are looked up by name, attributes first; an
/// input that the program lacks is noted as absent and is no failure.
pub open spec fn link_plan(link: Link, event: Event) -> Result<Planned<Link>, SetupErrorView> {
    let program = link.program;
    match link.step {
        LinkStep::Start => Ok(
            Planned {
                calls: seq![Call::CreateProgram],
                next: Link { step: LinkStep::Creating, program },
            },
        ),
        LinkStep::Creating => if event.created() {
            Ok(
                Planned {
                    calls: seq![
                        Call::AttachShader(ShaderStage::Vertex),
                        Call::AttachShader(ShaderStage::Fragment),
                        Call::LinkProgram,
                        Call::GetLinkStatus,
                    ],
                    next: Link { step: LinkStep::Linking, program },
                },
            )
        } else {
            Err(SetupErrorView::ResourceAllocation(Resource::Program))
        },
        LinkStep::Linking => if event.succeeded() {
            Ok(
                Planned {
                    calls: seq![Call::GetAttribLocation(Attribute::Position)],
                    next: Link {
                        step: LinkStep::Locating(Input::Attribute(Attribute::Position)),
                        program,
                    },
                },
            )
        } else {
            Ok(
                Planned {
                    calls: seq![Call::GetProgramInfoLog],
                    next: Link { step: LinkStep::Diagnosing, program },
                },
            )
        },
        LinkStep::Diagnosing => Err(
            SetupErrorView::Link(
                match event.info_log() {
                    Some(text) => text,
                    None => unknown_link_error(),
                },
            ),
        ),
        LinkStep::Locating(Input::Attribute(Attribute::Position)) => Ok(
            Planned {
                calls: seq![Call::GetAttribLocation(Attribute::Color)],
                next: Link {
                    step: LinkStep::Locating(Input::Attribute(Attribute::Color)),
                    program: LinkedProgram { position: event.attrib_location(), ..program },
                },
            },
        ),
        LinkStep::Locating(Input::Attribute(Attribute::Color)) => Ok(
            Planned {
                calls: seq![Call::GetUniformLocation(Uniform::Projection)],
                next: Link {
                    step: LinkStep::Locating(Input::Uniform(Uniform::Projection)),
                    program: LinkedProgram { color: event.attrib_location(), ..program },
                },
            },
        ),
        LinkStep::Locating(Input::Uniform(Uniform::Projection)) => Ok(
            Planned {
                calls: seq![Call::GetUniformLocation(Uniform::ModelView)],
                next: Link {
                    step: LinkStep::Locating(Input::Uniform(Uniform::ModelView)),
                    program: LinkedProgram { projection: event.uniform_found(), ..program },
                },
            },
        ),
        LinkStep::Locating(Input::Uniform(Uniform::ModelView)) => Ok(
            Planned {
                calls: seq![],
                next: Link {
                    step: LinkStep::Linked,
                    program: LinkedProgram { model_view: event.uniform_found(), ..program },
                },
            },
        ),
        LinkStep::Linked => Ok(Planned { calls: seq![], next: link }),
    }
}

/// Returns the state in which linking starts.
pub fn start_link() -> (link: Link)
    ensures
        link == link_start(),
{
    Link {
        step: LinkStep::Start,
        program: LinkedProgram { position: -1, color: -1, projection: false, model_view: false },
    }
}

fn single(call: Call) -> (calls: Vec<Call>)
    ensures
        calls@ == seq![call],
{
    let calls: Vec<Call> = vec![call];
    assert(calls@ =~= seq![call]);
    calls
}

/// Takes one turn of linking: given the state that was reached and the
/// host's answer to the last call, says which calls come next and what is
/// now known of the program, or why the program cannot be linked.
pub fn link_program(link: Link, event: Event) -> (result: Result<Advance<Link>, SetupError>)
    ensures
        outcome_of(result) == link_plan(link, event),
{
    let program = link.program;
    match link.step {
        LinkStep::Start => Ok(
            Advance {
                calls: single(Call::CreateProgram),
                next: Link { step: LinkStep::Creating, program },
            },
        ),
        LinkStep::Creating => {
            if matches!(event, Event::Created(true)) {
                let calls: Vec<Call> = vec![
                    Call::AttachShader(ShaderStage::Vertex),
                    Call::AttachShader(ShaderStage::Fragment),
                    Call::LinkProgram,
                    Call::GetLinkStatus,
                ];
                assert(calls@ =~= seq![
                    Call::AttachShader(ShaderStage::Vertex),
                    Call::AttachShader(ShaderStage::Fragment),
                    Call::LinkProgram,
                    Call::GetLinkStatus,
                ]);
                Ok(Advance { calls, next: Link { step: LinkStep::Linking, program } })
            } else {
                Err(SetupError::ResourceAllocation(Resource::Program))
            }
        },
        LinkStep::Linking => {
            if matches!(event, Event::Status(Some(true))) {
                Ok(
                    Advance {
                        calls: single(Call::GetAttribLocation(Attribute::Position)),
                        next: Link {
                            step: LinkStep::Locating(Input::Attribute(Attribute::Position)),
                            program,
                        },
                    },
                )
            } else {
                Ok(
                    Advance {
                        calls: single(Call::GetProgramInfoLog),
                        next: Link { step: LinkStep::Diagnosing, program },
                    },
                )
            }
        },
        LinkStep::Diagnosing => match event {
            Event::InfoLog(Some(text)) => Err(SetupError::Link(text)),
            _ => Err(SetupError::Link(String::from_str("Unknown error creating program object"))),
        },
        LinkStep::Locating(input) => {
            let location: i32 = match event {
                Event::AttribLocation(location) => location,
                _ => -1,
            };
            let found: bool = matches!(event, Event::UniformLocation(true));
            match input {
                Input::Attribute(Attribute::Position) => Ok(
                    Advance {
                        calls: single(Call::GetAttribLocation(Attribute::Color)),
                        next: Link {
                            step: LinkStep::Locating(Input::Attribute(Attribute::Color)),
                            program: LinkedProgram { position: location, ..program },
                        },
                    },
                ),
                Input::Attribute(Attribute::Color) => Ok(
                    Advance {
                        calls: single(Call::GetUniformLocation(Uniform::Projection)),
                        next: Link {
                            step: LinkStep::Locating(Input::Uniform(Uniform::Projection)),
                            program: LinkedProgram { color: location, ..program },
                        },
                    },
                ),
                Input::Uniform(Uniform::Projection) => Ok(
                    Advance {
                        calls: single(Call::GetUniformLocation(Uniform::ModelView)),
                        next: Link {
                            step: LinkStep::Locating(Input::Uniform(Uniform::ModelView)),
                            program: LinkedProgram { projection: found, ..program },
                        },
                    },
                ),
                Input::Uniform(Uniform::ModelView) => Ok(
                    Advance {
                        calls: Vec::new(),
                        next: Link {
                            step: LinkStep::Linked,
                            program: LinkedProgram { model_view: found, ..program },
                        },
                    },
                ),
            }
        },
        LinkStep::Linked => Ok(Advance { calls: Vec::new(), next: link }),
    }
}

/// The calls of a compilation that succeeds: create the shader object, hand
/// it the source, compile, ask how it went.
pub open spec fn compile_calls(stage: ShaderStage) -> Seq<Call> {
    seq![
        Call::CreateShader(stage),
        Call::ShaderSource(stage),
        Call::CompileShader(stage),
        Call::GetCompileStatus(stage),
    ]
}

/// Where compiling a stage stands after the host has reported `events`, one
/// per turn, and the calls that were asked for on the way; or the failure
/// that one of the turns ended with.
pub open spec fn compile_run(stage: ShaderStage, events: Seq<Event>) -> Result<
    Planned<CompileStep>,
    SetupErrorView,
>
    decreases events.len(),
{
    if events.len() == 0 {
        Ok(Planned { calls: seq![], next: CompileStep::Start })
    } else {
        match compile_run(stage, events.drop_last()) {
            Ok(so_far) => match compile_plan(stage, so_far.next, events.last()) {
                Ok(planned) => Ok(
                    Planned { calls: so_far.calls + planned.calls, next: planned.next },
                ),
                Err(error) => Err(error),
            },
            Err(error) => Err(error),
        }
    }
}

/// What compiling a stage comes to, by what the host answers to the creation
/// of the shader object, to the status query and to the query for the
/// diagnostic.
pub open spec fn compile_result(stage: ShaderStage, created: Event, status: Event, log: Event)
    -> Result<Planned<CompileStep>, SetupErrorView> {
    if !created.created() {
        Err(SetupErrorView::ResourceAllocation(Resource::Shader))
    } else if status.succeeded() {
        Ok(Planned { calls: compile_calls(stage), next: CompileStep::Compiled })
    } else {
        Err(
            SetupErrorView::Compile(
                match log.info_log() {
                    Some(text) => text,
                    None => unknown_compile_error(),
                },
            ),
        )
    }
}

proof fn compile_run_unfold(stage: ShaderStage, events: Seq<Event>, event: Event)
    ensures
        compile_run(stage, events.push(event)) == match compile_run(stage, events) {
            Ok(so_far) => match compile_plan(stage, so_far.next, event) {
                Ok(planned) => Ok(
                    Planned { calls: so_far.calls + planned.calls, next: planned.next },
                ),
                Err(error) => Err::<Planned<CompileStep>, SetupErrorView>(error),
            },
            Err(error) => Err(error),
        },
{
    assert(events.push(event).drop_last() =~= events);
}

/// Compiling a stage succeeds exactly if the shader object is created and
/// its compile status is `true`; the calls that were made are then those of
/// [`compile_calls`]. Without the object, it fails for want of a resource.
/// With another status, it fails with the diagnostic that the driver gives,
/// unchanged, or with a fixed text where the driver gives none. Whatever is
/// reported after success changes nothing.
pub proof fn compile_comes_to(
    stage: ShaderStage,
    first: Event,
    created: Event,
    status: Event,
    log: Event,
)
    ensures
        compile_run(stage, seq![first, created, status, log]) == compile_result(
            stage,
            created,
            status,
            log,
        ),
{
    let none = Seq::<Event>::empty();
    let e1 = none.push(first);
    let e2 = e1.push(created);
    let e3 = e2.push(status);
    let e4 = e3.push(log);
    compile_run_unfold(stage, none, first);
    compile_run_unfold(stage, e1, created);
    compile_run_unfold(stage, e2, status);
    compile_run_unfold(stage, e3, log);
    assert(seq![first, created, status, log] =~= e4);
    if compile_result(stage, created, status, log) is Ok {
        assert(compile_run(stage, e4)->Ok_0.calls =~= compile_calls(stage));
    }
}

/// No turn of compiling draws or registers a frame callback.
pub proof fn compile_is_quiet(stage: ShaderStage, step: CompileStep, event: Event)
    ensures
        compile_plan(stage, step, event) matches Ok(planned) ==> quiet(planned.calls),
{
}

/// The calls of a link that succeeds: create the program object, attach both
/// shaders, link, ask how it went, then look the four inputs up.
pub open spec fn link_calls() -> Seq<Call> {
    seq![
        Call::CreateProgram,
        Call::AttachShader(ShaderStage::Vertex),
        Call::AttachShader(ShaderStage::Fragment),
        Call::LinkProgram,
        Call::GetLinkStatus,
        Call::GetAttribLocation(Attribute::Position),
        Call::GetAttribLocation(Attribute::Color),
        Call::GetUniformLocation(Uniform::Projection),
        Call::GetUniformLocation(Uniform::ModelView),
    ]
}

/// Where linking stands after the host has reported `events`, one per turn,
/// and the calls that were asked for on the way; or the failure that one of
/// the turns ended with.
pub open spec fn link_run(events: Seq<Event>) -> Result<Planned<Link>, SetupErrorView>
    decreases events.len(),
{
    if events.len() == 0 {
        Ok(Planned { calls: seq![], next: link_start() })
    } else {
        match link_run(events.drop_last()) {
            Ok(so_far) => match link_plan(so_far.next, events.last()) {
                Ok(planned) => Ok(
                    Planned { calls: so_far.calls + planned.calls, next: planned.next },
                ),
                Err(error) => Err(error),
            },
            Err(error) => Err(error),
        }
    }
}

/// What linking comes to, by what the host answers to the creation of the
/// program object, to the status query, and then either to the query for the
/// diagnostic or to the four lookups.
pub open spec fn link_result(created: Event, status: Event, answers: Seq<Event>) -> Result<
    Planned<Link>,
    SetupErrorView,
> {
    if !created.created() {
        Err(SetupErrorView::ResourceAllocation(Resource::Program))
    } else if !status.succeeded() {
        Err(
            SetupErrorView::Link(
                match answers[0].info_log() {
                    Some(text) => text,
                    None => unknown_link_error(),
                },
            ),
        )
    } else {
        Ok(
            Planned {
                calls: link_calls(),
                next: Link {
                    step: LinkStep::Linked,
                    program: LinkedProgram {
                        position: answers[0].attrib_location(),
                        color: answers[1].attrib_location(),
                        projection: answers[2].uniform_found(),
                        model_view: answers[3].uniform_found(),
                    },
                },
            },
        )
    }
}

proof fn link_run_unfold(events: Seq<Event>, event: Event)
    ensures
        link_run(events.push(event)) == match link_run(events) {
            Ok(so_far) => match link_plan(so_far.next, event) {
                Ok(planned) => Ok(
                    Planned { calls: so_far.calls + planned.calls, next: planned.next },
                ),
                Err(error) => Err::<Planned<Link>, SetupErrorView>(error),
            },
            Err(error) => Err(error),
        },
{
    assert(events.push(event).drop_last() =~= events);
}

/// Linking succeeds exactly if the program object is created and its link
/// status is `true`; the calls that were made are then those of
/// [`link_calls`], and the program holds, for each of its four inputs, what
/// the host found. Without the object, linking fails for want of a resource.
/// With another status, it fails with the diagnostic that the driver gives,
/// unchanged, or with a fixed text where the driver gives none.
pub proof fn link_comes_to(first: Event, created: Event, status: Event, answers: Seq<Event>)
    requires
        answers.len() == 4,
    ensures
        link_run(seq![first, created, status] + answers) == link_result(created, status, answers),
{
    let none = Seq::<Event>::empty();
    let e1 = none.push(first);
    let e2 = e1.push(created);
    let e3 = e2.push(status);
    let e4 = e3.push(answers[0]);
    let e5 = e4.push(answers[1]);
    let e6 = e5.push(answers[2]);
    let e7 = e6.push(answers[3]);
    link_run_unfold(none, first);
    link_run_unfold(e1, created);
    link_run_unfold(e2, status);
    link_run_unfold(e3, answers[0]);
    link_run_unfold(e4, answers[1]);
    link_run_unfold(e5, answers[2]);
    link_run_unfold(e6, answers[3]);
    assert(seq![first, created, status] + answers =~= e7);
    if link_result(created, status, answers) is Ok {
        assert(link_run(e7)->Ok_0.calls =~= link_calls());
    }
}

/// A program that links and has all four inputs, as the host reports it,
/// ends linking complete: every one of the four names has a location.
pub proof fn link_resolves_all(first: Event, position: i32, color: i32)
    requires
        position >= 0,
        color >= 0,
    ensures
        link_run(
            seq![
                first,
                Event::Created(true),
                Event::Status(Some(true)),
                Event::AttribLocation(position),
                Event::AttribLocation(color),
                Event::UniformLocation(true),
                Event::UniformLocation(true),
            ],
        ) matches Ok(linked) && linked.next.step == LinkStep::Linked
            && linked.next.program.resolves_all() && linked.next.program.position == position
            && linked.next.program.color == color,
{
    let answers = seq![
        Event::AttribLocation(position),
        Event::AttribLocation(color),
        Event::UniformLocation(true),
        Event::UniformLocation(true),
    ];
    link_comes_to(first, Event::Created(true), Event::Status(Some(true)), answers);
    assert(seq![first, Event::Created(true), Event::Status(Some(true))] + answers =~= seq![
        first,
        Event::Created(true),
        Event::Status(Some(true)),
        Event::AttribLocation(position),
        Event::AttribLocation(color),
        Event::UniformLocation(true),
        Event::UniformLocation(true),
    ]);
}

/// Attributes that the host finds at different locations are fed under
/// different indices, whether the locations are valid or not: the buffers of
/// positions and of colours never feed the same attribute.
pub proof fn indices_differ_where_locations_do(program: LinkedProgram)
    requires
        program.position != program.color,
    ensures
        program.index_of(Attribute::Position) != program.index_of(Attribute::Color),
{
}

/// No turn of linking draws or registers a frame callback.
pub proof fn link_is_quiet(link: Link, event: Event)
    ensures
        link_plan(link, event) matches Ok(planned) ==> quiet(planned.calls),
{
}

} // verus!
