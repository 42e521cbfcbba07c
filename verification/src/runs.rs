//! Whole runs of a session: what follows, for any number of turns, from what
//! a single turn does.

use vstd::prelude::*;
use crate::animation::{AnimationDriver, DriverState};
use crate::error::SetupErrorView;
use crate::geometry::{fill_calls, upload_calls, UploadStep};
use crate::host::{quiet, unscheduled, Attribute, BufferRole, Call, Event, ShaderStage, Uniform};
use crate::scene::{
    descriptor_of, frame_calls, frame_draws_once, frame_never_schedules, draw_call, Sample, Scene,
};
use crate::session::{is_indexed, transition, Phase, Session, TurnView};
use crate::shader::{
    compile_calls, link_calls, unresolved, CompileStep, Input, Link, LinkStep, LinkedProgram,
};

verus! {

/// The calls of a turn; none where the turn failed.
pub open spec fn calls_of(outcome: Result<TurnView, SetupErrorView>) -> Seq<Call> {
    match outcome {
        Ok(turn) => turn.calls,
        Err(_) => seq![],
    }
}

impl Session {
    /// The session after the host has reported `events`, one per turn.
    #[verifier::opaque]
    pub open spec fn after(self, events: Seq<Event>) -> Session
        decreases events.len(),
    {
        if events.len() == 0 {
            self
        } else {
            transition(self.after(events.drop_last()), events.last()).next
        }
    }

    /// Every call that the session asks for while the host reports `events`,
    /// one per turn, in the order in which they are asked.
    #[verifier::opaque]
    pub open spec fn asked(self, events: Seq<Event>) -> Seq<Call>
        decreases events.len(),
    {
        if events.len() == 0 {
            seq![]
        } else {
            self.asked(events.drop_last()) + calls_of(
                transition(self.after(events.drop_last()), events.last()).outcome,
            )
        }
    }
}

proof fn run_of_none(session: Session)
    ensures
        session.after(Seq::empty()) == session,
        session.asked(Seq::empty()) == Seq::<Call>::empty(),
{
    reveal(Session::after);
    reveal(Session::asked);
}

proof fn run_of_more(session: Session, events: Seq<Event>, event: Event)
    ensures
        session.after(events.push(event)) == transition(session.after(events), event).next,
        session.asked(events.push(event)) == session.asked(events) + calls_of(
            transition(session.after(events), event).outcome,
        ),
{
    reveal(Session::after);
    reveal(Session::asked);
    assert(events.push(event).drop_last() =~= events);
}

/// A turn that leaves the session in setup neither draws nor registers a
/// frame callback, and composes no frame: nothing is drawn before setup is
/// complete.
pub proof fn setup_is_quiet(session: Session, event: Event)
    requires
        transition(session, event).next.in_setup(),
    ensures
        transition(session, event).outcome matches Ok(turn) && quiet(turn.calls)
            && turn.frame is None,
{
}

/// A turn that leaves the session in setup ends with a call that the host
/// has an answer to, and asks no other such call before it: the session
/// never waits for an answer that nothing was asked for, and no answer is
/// lost.
pub proof fn setup_turn_ends_with_its_question(session: Session, event: Event)
    requires
        transition(session, event).next.in_setup(),
    ensures
        transition(session, event).outcome matches Ok(turn) && turn.calls.len() > 0
            && turn.calls.last().asks() && forall|i: int|
            0 <= i < turn.calls.len() - 1 ==> !(#[trigger] turn.calls[i]).asks(),
{
}

/// Whether a session has drawn nothing yet: it has not begun, is in setup,
/// or has failed.
pub open spec fn undrawn(session: Session) -> bool {
    session.phase == Phase::Start || session.in_setup() || session.phase == Phase::Failed
}

/// Nothing is drawn unless all of setup succeeds. A session that is still in
/// setup, or has failed, has neither drawn nor registered a frame callback,
/// whatever the host has reported: there is no drawing with half a setup.
pub proof fn nothing_is_drawn_before_setup_ends(session: Session, events: Seq<Event>)
    requires
        undrawn(session),
        undrawn(session.after(events)),
    ensures
        quiet(session.asked(events)),
    decreases events.len(),
{
    reveal(Session::after);
    reveal(Session::asked);
    if events.len() > 0 {
        let before = session.after(events.drop_last());
        assert(undrawn(before));
        nothing_is_drawn_before_setup_ends(session, events.drop_last());
        assert(quiet(calls_of(transition(before, events.last()).outcome)));
    }
}

/// A session that has failed stays failed, and one that is finished stays
/// finished: whatever the host reports, the session asks for nothing more.
pub proof fn end_is_final(session: Session, events: Seq<Event>)
    requires
        session.phase == Phase::Failed || session.phase == Phase::Finished,
    ensures
        session.after(events) == session,
        session.asked(events) == Seq::<Call>::empty(),
    decreases events.len(),
{
    reveal(Session::after);
    reveal(Session::asked);
    if events.len() > 0 {
        end_is_final(session, events.drop_last());
    }
}

/// Cancelling is for good: no turn after it registers a frame callback, in
/// whatever phase the session was cancelled and whatever the host reports
/// from then on.
pub proof fn cancelled_session_registers_nothing(session: Session, events: Seq<Event>)
    requires
        session.driver.cancelled,
    ensures
        session.after(events).driver.cancelled,
        unscheduled(session.asked(events)),
    decreases events.len(),
{
    reveal(Session::after);
    reveal(Session::asked);
    if events.len() > 0 {
        cancelled_session_registers_nothing(session, events.drop_last());
        let before = session.after(events.drop_last());
        frame_never_schedules(before.sample, before.program);
        assert(unscheduled(calls_of(transition(before, events.last()).outcome)));
    }
}

/// Whether a call makes a GPU object or fills one: the work that is done
/// once, at setup, and never again.
pub open spec fn allocates(call: Call) -> bool {
    call is CreateShader || call is CreateProgram || call is CreateBuffer || call is BufferData
}

/// Whether two calls make the same object, or fill the same buffer.
pub open spec fn same_allocation(first: Call, second: Call) -> bool {
    match (first, second) {
        (Call::CreateShader(stage), Call::CreateShader(other)) => stage == other,
        (Call::CreateProgram, Call::CreateProgram) => true,
        (Call::CreateBuffer(role), Call::CreateBuffer(other)) => role == other,
        (Call::BufferData { buffer, .. }, Call::BufferData { buffer: other, .. }) => buffer
            == other,
        _ => false,
    }
}

/// How far a session has come, as a number that never falls from one turn
/// to the next.
pub open spec fn progress(phase: Phase) -> nat {
    match phase {
        Phase::Start => 0,
        Phase::Compiling(ShaderStage::Vertex, CompileStep::Start) => 0,
        Phase::Compiling(ShaderStage::Vertex, _) => 1,
        Phase::Compiling(ShaderStage::Fragment, CompileStep::Start) => 1,
        Phase::Compiling(ShaderStage::Fragment, _) => 2,
        Phase::Linking(link) => if link.step == LinkStep::Start {
            2
        } else {
            3
        },
        Phase::Uploading(UploadStep::Start) => 3,
        Phase::Uploading(UploadStep::Creating(BufferRole::Positions)) => 4,
        Phase::Uploading(UploadStep::Creating(BufferRole::Colors)) => 5,
        Phase::Uploading(UploadStep::Creating(BufferRole::Indices)) => 6,
        Phase::Uploading(UploadStep::Uploaded) => 7,
        Phase::Animating => 7,
        Phase::Finished => 7,
        Phase::Failed => 7,
    }
}

/// The progress that a session has reached by the end of the turn in which
/// it asks for an allocation, and had not reached before.
pub open spec fn made_at(call: Call) -> nat {
    match call {
        Call::CreateShader(ShaderStage::Vertex) => 1,
        Call::CreateShader(ShaderStage::Fragment) => 2,
        Call::CreateProgram => 3,
        Call::CreateBuffer(BufferRole::Positions) => 4,
        Call::BufferData { buffer: BufferRole::Positions, .. } => 5,
        Call::CreateBuffer(BufferRole::Colors) => 5,
        Call::BufferData { buffer: BufferRole::Colors, .. } => 6,
        Call::CreateBuffer(BufferRole::Indices) => 6,
        Call::BufferData { buffer: BufferRole::Indices, .. } => 7,
        _ => 0,
    }
}

proof fn turn_allocates_ahead(session: Session, event: Event)
    ensures
        ({
            let turned = transition(session, event);
            let calls = calls_of(turned.outcome);
            &&& progress(session.phase) <= progress(turned.next.phase)
            &&& forall|i: int|
                0 <= i < calls.len() && allocates(#[trigger] calls[i]) ==> progress(session.phase)
                    < made_at(calls[i]) <= progress(turned.next.phase)
            &&& forall|i: int, j: int|
                0 <= i < j < calls.len() && allocates(#[trigger] calls[i]) ==> !same_allocation(
                    calls[i],
                    #[trigger] calls[j],
                )
        }),
{
    let frame = frame_calls(session.sample, session.program);
    match session.sample {
        Sample::Clear => {
            assert(frame.len() == 2);
        },
        Sample::FlatQuad => {
            assert(frame.len() == 12);
        },
        Sample::Cube => {
            assert(frame.len() == 16);
        },
    }
    assert forall|i: int| 0 <= i < frame.len() implies !allocates(#[trigger] frame[i]) by {}
}

proof fn run_allocates_once(session: Session, events: Seq<Event>)
    ensures
        ({
            let asked = session.asked(events);
            &&& progress(session.phase) <= progress(session.after(events).phase)
            &&& forall|i: int|
                0 <= i < asked.len() && allocates(#[trigger] asked[i]) ==> made_at(asked[i])
                    <= progress(session.after(events).phase)
            &&& forall|i: int, j: int|
                0 <= i < j < asked.len() && allocates(#[trigger] asked[i]) ==> !same_allocation(
                    asked[i],
                    #[trigger] asked[j],
                )
        }),
    decreases events.len(),
{
    reveal(Session::after);
    reveal(Session::asked);
    if events.len() > 0 {
        let earlier = session.asked(events.drop_last());
        let before = session.after(events.drop_last());
        let calls = calls_of(transition(before, events.last()).outcome);
        let asked = session.asked(events);
        run_allocates_once(session, events.drop_last());
        turn_allocates_ahead(before, events.last());
        assert(asked == earlier + calls);
        assert forall|i: int| 0 <= i < asked.len() && allocates(#[trigger] asked[i]) implies made_at(
            asked[i],
        ) <= progress(session.after(events).phase) by {
            if i < earlier.len() {
                assert(asked[i] == earlier[i]);
            } else {
                assert(asked[i] == calls[i - earlier.len()]);
            }
        }
        assert forall|i: int, j: int|
            0 <= i < j < asked.len() && allocates(#[trigger] asked[i]) implies !same_allocation(
            asked[i],
            #[trigger] asked[j],
        ) by {
            if j < earlier.len() {
                assert(asked[i] == earlier[i] && asked[j] == earlier[j]);
            } else if i < earlier.len() {
                assert(asked[i] == earlier[i] && asked[j] == calls[j - earlier.len()]);
                if allocates(asked[j]) {
                    assert(made_at(asked[i]) <= progress(before.phase) < made_at(asked[j]));
                }
            } else {
                assert(asked[i] == calls[i - earlier.len()] && asked[j] == calls[j - earlier.len()]);
            }
        }
    }
}

/// What is made once is never made again. Whatever the host reports and
/// however long the session runs, it creates each shader, the program and
/// each buffer at most once, and fills each buffer at most once.
pub proof fn objects_are_made_once(session: Session, events: Seq<Event>)
    ensures
        forall|i: int, j: int|
            0 <= i < j < session.asked(events).len() && allocates(
                #[trigger] session.asked(events)[i],
            ) ==> !same_allocation(session.asked(events)[i], #[trigger] session.asked(events)[j]),
{
    run_allocates_once(session, events);
}

/// The firing of `n` frame callbacks, one after the other.
pub open spec fn frames(n: nat) -> Seq<Event> {
    Seq::new(n, |i: int| Event::Frame)
}

/// While its loop runs, a session does with every callback what its driver
/// does: after `n` callbacks the scene has turned `n` times, and the loop
/// still runs.
pub proof fn animating_session_turns(session: Session, n: nat)
    requires
        session.phase == Phase::Animating,
        !session.driver.cancelled,
    ensures
        session.after(frames(n)) == (Session {
            driver: session.driver.after_frames(n),
            ..session
        }),
        !session.driver.after_frames(n).cancelled,
    decreases n,
{
    if n == 0 {
        run_of_none(session);
        assert(frames(0) =~= Seq::empty());
    } else {
        let fewer = (n - 1) as nat;
        animating_session_turns(session, fewer);
        run_of_more(session, frames(fewer), Event::Frame);
        assert(frames(fewer).push(Event::Frame) =~= frames(n));
    }
}

/// What a host reports, turn by turn, on which all of setup succeeds: every
/// object is created, both shaders compile, the program links, and all four
/// inputs are found, the attributes at the given locations.
pub open spec fn good_answers(sample: Sample, position: i32, color: i32) -> Seq<Event> {
    let linked = seq![
        Event::Nothing,
        Event::Created(true),
        Event::Status(Some(true)),
        Event::Created(true),
        Event::Status(Some(true)),
        Event::Created(true),
        Event::Status(Some(true)),
        Event::AttribLocation(position),
        Event::AttribLocation(color),
        Event::UniformLocation(true),
        Event::UniformLocation(true),
    ];
    if is_indexed(sample) {
        linked + seq![Event::Created(true), Event::Created(true), Event::Created(true)]
    } else {
        linked + seq![Event::Created(true), Event::Created(true)]
    }
}

/// The calls of a setup that succeeds: compile the vertex shader, compile
/// the fragment shader, link the program and look its inputs up, upload the
/// buffers. Each object is created once and each buffer is filled once.
pub open spec fn setup_calls(sample: Sample) -> Seq<Call> {
    compile_calls(ShaderStage::Vertex) + compile_calls(ShaderStage::Fragment) + link_calls()
        + upload_calls(is_indexed(sample))
}

/// The program of a session on whose host all of setup succeeds.
pub open spec fn found(position: i32, color: i32) -> LinkedProgram {
    LinkedProgram { position, color, projection: true, model_view: true }
}

proof fn good_answers_link(sample: Sample, width: u32, height: u32, position: i32, color: i32)
    requires
        sample != Sample::Clear,
    ensures
        ({
            let start = Session::initial(sample, width, height);
            let events = good_answers(sample, position, color).take(11);
            &&& events.len() == 11
            &&& start.after(events) == Session {
                phase: Phase::Uploading(UploadStep::Creating(BufferRole::Positions)),
                program: found(position, color),
                ..start
            }
            &&& start.asked(events) == compile_calls(ShaderStage::Vertex) + compile_calls(
                ShaderStage::Fragment,
            ) + link_calls() + seq![Call::CreateBuffer(BufferRole::Positions)]
        }),
{
    let start = Session::initial(sample, width, height);
    let none = Seq::<Event>::empty();
    let e1 = none.push(Event::Nothing);
    let e2 = e1.push(Event::Created(true));
    let e3 = e2.push(Event::Status(Some(true)));
    let e4 = e3.push(Event::Created(true));
    let e5 = e4.push(Event::Status(Some(true)));
    let e6 = e5.push(Event::Created(true));
    let e7 = e6.push(Event::Status(Some(true)));
    let e8 = e7.push(Event::AttribLocation(position));
    let e9 = e8.push(Event::AttribLocation(color));
    let e10 = e9.push(Event::UniformLocation(true));
    let e11 = e10.push(Event::UniformLocation(true));
    let vertex = ShaderStage::Vertex;
    let fragment = ShaderStage::Fragment;
    let linking = |step: LinkStep, program: LinkedProgram| Phase::Linking(Link { step, program });
    let c1 = seq![Call::CreateShader(vertex)];
    let c2 = compile_calls(vertex);
    let c3 = c2 + seq![Call::CreateShader(fragment)];
    let c4 = c2 + compile_calls(fragment);
    let c5 = c4 + seq![Call::CreateProgram];
    let c6 = c5 + seq![
        Call::AttachShader(vertex),
        Call::AttachShader(fragment),
        Call::LinkProgram,
        Call::GetLinkStatus,
    ];
    let c7 = c6 + seq![Call::GetAttribLocation(Attribute::Position)];
    let c8 = c7 + seq![Call::GetAttribLocation(Attribute::Color)];
    let c9 = c8 + seq![Call::GetUniformLocation(Uniform::Projection)];
    let c10 = c4 + link_calls();
    let c11 = c10 + seq![Call::CreateBuffer(BufferRole::Positions)];
    run_of_none(start);
    assert(start.after(e1) == Session {
        phase: Phase::Compiling(vertex, CompileStep::Creating),
        ..start
    } && start.asked(e1) =~= c1) by {
        run_of_more(start, none, Event::Nothing);
    }
    assert(start.after(e2) == Session {
        phase: Phase::Compiling(vertex, CompileStep::Compiling),
        ..start
    } && start.asked(e2) =~= c2) by {
        run_of_more(start, e1, Event::Created(true));
    }
    assert(start.after(e3) == Session {
        phase: Phase::Compiling(fragment, CompileStep::Creating),
        ..start
    } && start.asked(e3) =~= c3) by {
        run_of_more(start, e2, Event::Status(Some(true)));
    }
    assert(start.after(e4) == Session {
        phase: Phase::Compiling(fragment, CompileStep::Compiling),
        ..start
    } && start.asked(e4) =~= c4) by {
        run_of_more(start, e3, Event::Created(true));
    }
    assert(start.after(e5) == Session { phase: linking(LinkStep::Creating, unresolved()), ..start }
        && start.asked(e5) =~= c5) by {
        run_of_more(start, e4, Event::Status(Some(true)));
    }
    assert(start.after(e6) == Session { phase: linking(LinkStep::Linking, unresolved()), ..start }
        && start.asked(e6) =~= c6) by {
        run_of_more(start, e5, Event::Created(true));
    }
    assert(start.after(e7) == Session {
        phase: linking(LinkStep::Locating(Input::Attribute(Attribute::Position)), unresolved()),
        ..start
    } && start.asked(e7) =~= c7) by {
        run_of_more(start, e6, Event::Status(Some(true)));
    }
    assert(start.after(e8) == Session {
        phase: linking(
            LinkStep::Locating(Input::Attribute(Attribute::Color)),
            LinkedProgram { position, ..unresolved() },
        ),
        ..start
    } && start.asked(e8) =~= c8) by {
        run_of_more(start, e7, Event::AttribLocation(position));
    }
    assert(start.after(e9) == Session {
        phase: linking(
            LinkStep::Locating(Input::Uniform(Uniform::Projection)),
            LinkedProgram { position, color, ..unresolved() },
        ),
        ..start
    } && start.asked(e9) =~= c9) by {
        run_of_more(start, e8, Event::AttribLocation(color));
    }
    assert(start.after(e10) == Session {
        phase: linking(
            LinkStep::Locating(Input::Uniform(Uniform::ModelView)),
            LinkedProgram { model_view: false, ..found(position, color) },
        ),
        ..start
    } && start.asked(e10) =~= c10) by {
        run_of_more(start, e9, Event::UniformLocation(true));
    }
    assert(start.after(e11) == Session {
        phase: Phase::Uploading(UploadStep::Creating(BufferRole::Positions)),
        program: found(position, color),
        ..start
    } && start.asked(e11) =~= c11) by {
        run_of_more(start, e10, Event::UniformLocation(true));
    }
    assert(good_answers(sample, position, color).take(11) =~= e11);
}

/// On a host on which all of setup succeeds, the square is set up and drawn:
/// the session is finished, its program has all four inputs at the locations
/// that the host reported, and the calls that were made are those of setup
/// followed by those of the square's one frame.
pub proof fn good_answers_draw_the_square(width: u32, height: u32, position: i32, color: i32)
    ensures
        ({
            let start = Session::initial(Sample::FlatQuad, width, height);
            let events = good_answers(Sample::FlatQuad, position, color);
            &&& start.after(events) == Session {
                phase: Phase::Finished,
                program: found(position, color),
                ..start
            }
            &&& start.asked(events) == setup_calls(Sample::FlatQuad) + frame_calls(
                Sample::FlatQuad,
                found(position, color),
            )
            &&& transition(start.after(events.drop_last()), events.last()).outcome matches Ok(turn)
                && turn.frame == Some(
                descriptor_of(Sample::FlatQuad, width, height, Scene { rotation: 0 }),
            )
            &&& position >= 0 && color >= 0 ==> start.after(events).program.resolves_all()
        }),
{
    let sample = Sample::FlatQuad;
    let start = Session::initial(sample, width, height);
    let events = good_answers(sample, position, color);
    let e11 = events.take(11);
    let e12 = e11.push(Event::Created(true));
    let e13 = e12.push(Event::Created(true));
    let linked = compile_calls(ShaderStage::Vertex) + compile_calls(ShaderStage::Fragment)
        + link_calls();
    let c12 = linked + seq![Call::CreateBuffer(BufferRole::Positions)] + fill_calls(
        BufferRole::Positions,
    ) + seq![Call::CreateBuffer(BufferRole::Colors)];
    good_answers_link(sample, width, height, position, color);
    assert(start.after(e12) == Session {
        phase: Phase::Uploading(UploadStep::Creating(BufferRole::Colors)),
        program: found(position, color),
        ..start
    } && start.asked(e12) =~= c12) by {
        run_of_more(start, e11, Event::Created(true));
    }
    assert(start.after(e13) == Session {
        phase: Phase::Finished,
        program: found(position, color),
        ..start
    } && start.asked(e13) =~= setup_calls(sample) + frame_calls(sample, found(position, color)))
        by {
        run_of_more(start, e12, Event::Created(true));
    }
    assert(events =~= e13);
    assert(events.drop_last() =~= e12);
}

/// On such a host the square is drawn exactly once, by the last call of its
/// session, as a triangle strip of 4 vertices; and no frame callback is
/// registered.
pub proof fn the_square_is_drawn_once(width: u32, height: u32, position: i32, color: i32)
    ensures
        ({
            let asked = Session::initial(Sample::FlatQuad, width, height).asked(
                good_answers(Sample::FlatQuad, position, color),
            );
            &&& asked.len() > 0
            &&& asked.last() == Call::DrawArrays {
                mode: crate::gl::TRIANGLE_STRIP,
                first: 0,
                count: 4,
            }
            &&& quiet(asked.drop_last())
            &&& unscheduled(asked)
        }),
{
    let sample = Sample::FlatQuad;
    let program = found(position, color);
    good_answers_draw_the_square(width, height, position, color);
    frame_draws_once(sample, program);
    frame_never_schedules(sample, program);
    let setup = setup_calls(sample);
    let frame = frame_calls(sample, program);
    let asked = setup + frame;
    assert(setup.len() == 23);
    assert(frame.len() == 12);
    assert(quiet(setup));
    assert forall|i: int| 0 <= i < asked.drop_last().len() implies !(#[trigger] asked.drop_last()[i]).draws()
        && !asked.drop_last()[i].schedules() by {
        if i < setup.len() {
            assert(asked.drop_last()[i] == setup[i]);
        } else {
            assert(asked.drop_last()[i] == frame[i - setup.len()]);
        }
    }
    assert forall|i: int| 0 <= i < asked.len() implies !(#[trigger] asked[i]).schedules() by {
        if i < setup.len() {
            assert(asked[i] == setup[i]);
        } else {
            assert(asked[i] == frame[i - setup.len()]);
        }
    }
}

/// On a host on which all of setup succeeds, the cube is set up and its loop
/// begins: the calls that were made are those of setup followed by the
/// registration of the first frame callback, which is pending; nothing has
/// been drawn yet.
pub proof fn good_answers_start_the_cube(width: u32, height: u32, position: i32, color: i32)
    ensures
        ({
            let start = Session::initial(Sample::Cube, width, height);
            let events = good_answers(Sample::Cube, position, color);
            &&& start.after(events) == Session {
                phase: Phase::Animating,
                program: found(position, color),
                driver: AnimationDriver { state: DriverState::Scheduled, ..start.driver },
                ..start
            }
            &&& start.asked(events) == setup_calls(Sample::Cube) + seq![
                Call::RequestAnimationFrame,
            ]
            &&& quiet(setup_calls(Sample::Cube))
            &&& position >= 0 && color >= 0 ==> start.after(events).program.resolves_all()
        }),
{
    let sample = Sample::Cube;
    let start = Session::initial(sample, width, height);
    let events = good_answers(sample, position, color);
    let e11 = events.take(11);
    let e12 = e11.push(Event::Created(true));
    let e13 = e12.push(Event::Created(true));
    let e14 = e13.push(Event::Created(true));
    let linked = compile_calls(ShaderStage::Vertex) + compile_calls(ShaderStage::Fragment)
        + link_calls();
    let c12 = linked + seq![Call::CreateBuffer(BufferRole::Positions)] + fill_calls(
        BufferRole::Positions,
    ) + seq![Call::CreateBuffer(BufferRole::Colors)];
    let c13 = c12 + fill_calls(BufferRole::Colors) + seq![Call::CreateBuffer(BufferRole::Indices)];
    good_answers_link(sample, width, height, position, color);
    assert(start.after(e12) == Session {
        phase: Phase::Uploading(UploadStep::Creating(BufferRole::Colors)),
        program: found(position, color),
        ..start
    } && start.asked(e12) =~= c12) by {
        run_of_more(start, e11, Event::Created(true));
    }
    assert(start.after(e13) == Session {
        phase: Phase::Uploading(UploadStep::Creating(BufferRole::Indices)),
        program: found(position, color),
        ..start
    } && start.asked(e13) =~= c13) by {
        run_of_more(start, e12, Event::Created(true));
    }
    assert(start.after(e14) == Session {
        phase: Phase::Animating,
        program: found(position, color),
        driver: AnimationDriver { state: DriverState::Scheduled, ..start.driver },
        ..start
    } && start.asked(e14) =~= setup_calls(sample) + seq![Call::RequestAnimationFrame]) by {
        run_of_more(start, e13, Event::Created(true));
    }
    assert(events =~= e14);
    assert(setup_calls(sample).len() == 26);
}

/// Every callback of the cube's loop draws the cube exactly once, as a
/// triangle list of 36 vertices, with the scene as it stands; unless the
/// loop was cancelled, it then registers its successor.
pub proof fn the_cube_is_drawn_on_every_callback(session: Session)
    requires
        session.sample == Sample::Cube,
        session.phase == Phase::Animating,
    ensures
        ({
            let turned = transition(session, Event::Frame);
            let frame = frame_calls(Sample::Cube, session.program);
            &&& turned.outcome matches Ok(turn) && turn.calls == frame
                + session.driver.schedule_calls() && turn.frame == Some(
                descriptor_of(Sample::Cube, session.width, session.height, session.driver.scene),
            )
            &&& frame.last() == Call::DrawArrays { mode: crate::gl::TRIANGLES, first: 0, count: 36 }
            &&& quiet(frame.drop_last())
            &&& turned.next.driver == session.driver.after_frame()
        }),
{
    frame_draws_once(Sample::Cube, session.program);
    frame_never_schedules(Sample::Cube, session.program);
    let frame = frame_calls(Sample::Cube, session.program);
    assert(frame.len() == 16);
    assert forall|i: int| 0 <= i < frame.drop_last().len() implies !(#[trigger] frame.drop_last()[i]).draws()
        && !frame.drop_last()[i].schedules() by {
        assert(frame.drop_last()[i] == frame[i]);
    }
}

} // verus!
