use webgl_samples::animation::DriverState;
use webgl_samples::drawwebgl;
use webgl_samples::error::{Resource, SetupError};
use webgl_samples::host::{Attribute, BufferRole, Call, Event, ShaderStage, Uniform};
use webgl_samples::scene::{Perspective, Sample, Scene, Transform};
use webgl_samples::session::{Phase, Session, Turn};
use webgl_samples::shader::LinkedProgram;
use webgl_samples::tutorial::{sample1, sample3, sample5};

/// A host on which everything works, but for the call given as `broken`.
fn answer(call: &Call, broken: Option<Call>) -> Event {
    let works = Some(*call) != broken;
    match call {
        Call::CreateShader(_) | Call::CreateProgram | Call::CreateBuffer(_) => {
            Event::Created(works)
        }
        Call::GetCompileStatus(_) | Call::GetLinkStatus => Event::Status(Some(works)),
        Call::GetShaderInfoLog(_) => Event::InfoLog(Some("0:1: syntax error".to_string())),
        Call::GetProgramInfoLog => Event::InfoLog(Some("interface mismatch".to_string())),
        Call::GetAttribLocation(Attribute::Position) => Event::AttribLocation(0),
        Call::GetAttribLocation(Attribute::Color) => Event::AttribLocation(1),
        Call::GetUniformLocation(_) => Event::UniformLocation(true),
        _ => Event::Nothing,
    }
}

/// Runs setup to its end. Returns every call that was made, and the failure if there was one.
fn set_up(session: &mut Session, broken: Option<Call>) -> (Vec<Call>, Option<SetupError>) {
    let mut trace = Vec::new();
    let mut event = Event::Nothing;
    loop {
        match session.step(event) {
            Err(error) => return (trace, Some(error)),
            Ok(turn) => {
                event = Event::Nothing;
                for call in turn.calls {
                    event = answer(&call, broken);
                    trace.push(call);
                }
            }
        }
        if !session.awaits_answer() {
            return (trace, None);
        }
    }
}

fn draws(calls: &[Call]) -> Vec<Call> {
    calls.iter().copied().filter(|call| matches!(call, Call::DrawArrays { .. })).collect()
}

fn schedules(calls: &[Call]) -> usize {
    calls.iter().filter(|call| **call == Call::RequestAnimationFrame).count()
}

fn setup_calls(indexed: bool) -> Vec<Call> {
    let mut calls = Vec::new();
    for stage in [ShaderStage::Vertex, ShaderStage::Fragment] {
        calls.extend([
            Call::CreateShader(stage),
            Call::ShaderSource(stage),
            Call::CompileShader(stage),
            Call::GetCompileStatus(stage),
        ]);
    }
    calls.extend([
        Call::CreateProgram,
        Call::AttachShader(ShaderStage::Vertex),
        Call::AttachShader(ShaderStage::Fragment),
        Call::LinkProgram,
        Call::GetLinkStatus,
        Call::GetAttribLocation(Attribute::Position),
        Call::GetAttribLocation(Attribute::Color),
        Call::GetUniformLocation(Uniform::Projection),
        Call::GetUniformLocation(Uniform::ModelView),
    ]);
    let mut roles = vec![BufferRole::Positions, BufferRole::Colors];
    if indexed {
        roles.push(BufferRole::Indices);
    }
    for buffer in roles {
        let target = if buffer == BufferRole::Indices { 0x8893 } else { 0x8892 };
        calls.extend([
            Call::CreateBuffer(buffer),
            Call::BindBuffer { target, buffer },
            Call::BufferData { target, buffer, usage: 0x88E4 },
        ]);
    }
    calls
}

#[test]
fn identifiers_select_their_samples() {
    assert_eq!(drawwebgl(1, 800, 600), Some(Session::new(Sample::Clear, 0, 0)));
    assert_eq!(drawwebgl(3, 800, 600), Some(Session::new(Sample::FlatQuad, 800, 600)));
    assert_eq!(drawwebgl(5, 800, 600), Some(Session::new(Sample::Cube, 800, 600)));
    assert_eq!(drawwebgl(1, 800, 600), Some(sample1::draw()));
    assert_eq!(drawwebgl(3, 300, 150), Some(sample3::draw(300, 150)));
    assert_eq!(drawwebgl(5, 300, 150), Some(sample5::draw(300, 150)));
}

#[test]
fn other_identifiers_select_nothing() {
    for id in [0u8, 2, 4, 6, 7, 100, 255] {
        assert_eq!(drawwebgl(id, 800, 600), None);
    }
}

#[test]
fn a_new_session_has_asked_for_nothing() {
    let session = sample5::draw(800, 600);
    assert_eq!(session.phase, Phase::Start);
    assert_eq!(session.sample, Sample::Cube);
    assert_eq!((session.width, session.height), (800, 600));
    assert_eq!(
        session.program,
        LinkedProgram { position: -1, color: -1, projection: false, model_view: false }
    );
    assert_eq!(session.driver.scene, Scene { rotation: 0 });
    assert!(!session.awaits_answer());
}

#[test]
fn the_empty_canvas_is_cleared_in_one_turn() {
    let mut session = sample1::draw();
    let turn = session.step(Event::Nothing).unwrap();
    assert_eq!(
        turn,
        Turn {
            calls: vec![
                Call::ClearColor { red: 0, green: 0, blue: 0, alpha: 1000 },
                Call::Clear { mask: 0x4000 },
            ],
            frame: None,
        }
    );
    assert_eq!(session.phase, Phase::Finished);
    assert!(!session.awaits_answer());
}

#[test]
fn selecting_the_square_issues_exactly_one_draw_call() {
    let mut session = drawwebgl(3, 800, 600).unwrap();
    let (trace, failure) = set_up(&mut session, None);
    assert_eq!(failure, None);
    assert_eq!(session.phase, Phase::Finished);
    assert_eq!(draws(&trace), vec![Call::DrawArrays { mode: 5, first: 0, count: 4 }]);
    assert_eq!(trace.last(), Some(&Call::DrawArrays { mode: 5, first: 0, count: 4 }));
    assert_eq!(schedules(&trace), 0);
    let setup = setup_calls(false);
    assert_eq!(&trace[..setup.len()], setup.as_slice());
    assert_eq!(trace.len(), setup.len() + 12);
    assert_eq!(
        session.program,
        LinkedProgram { position: 0, color: 1, projection: true, model_view: true }
    );
}

#[test]
fn the_square_is_drawn_with_its_transforms() {
    let mut session = sample3::draw(800, 600);
    let mut event = Event::Nothing;
    let mut last = None;
    while last.is_none() || session.awaits_answer() {
        let turn = session.step(event).unwrap();
        event = Event::Nothing;
        for call in &turn.calls {
            event = answer(call, None);
        }
        if session.awaits_answer() {
            assert_eq!(turn.frame, None);
        }
        last = Some(turn);
    }
    let frame = last.unwrap().frame.unwrap();
    assert_eq!(
        frame.projection,
        Perspective { fov_degrees: 45, width: 800, height: 600, near: 100, far: 100_000 }
    );
    assert_eq!(frame.model_view, vec![Transform::Translate { x: 0, y: 0, z: -6000 }]);
}

#[test]
fn selecting_the_cube_draws_36_vertices_on_every_callback() {
    let mut session = drawwebgl(5, 800, 600).unwrap();
    let (trace, failure) = set_up(&mut session, None);
    assert_eq!(failure, None);
    assert_eq!(session.phase, Phase::Animating);
    assert_eq!(session.driver.state, DriverState::Scheduled);
    // setup draws nothing and registers the first callback, last of all
    let setup = setup_calls(true);
    assert_eq!(&trace[..setup.len()], setup.as_slice());
    assert_eq!(&trace[setup.len()..], &[Call::RequestAnimationFrame]);
    assert_eq!(draws(&trace), Vec::new());
    for frame in 0..3u64 {
        let turn = session.step(Event::Frame).unwrap();
        assert_eq!(draws(&turn.calls), vec![Call::DrawArrays { mode: 4, first: 0, count: 36 }]);
        assert_eq!(schedules(&turn.calls), 1);
        assert_eq!(turn.calls.last(), Some(&Call::RequestAnimationFrame));
        let descriptor = turn.frame.unwrap();
        assert_eq!(
            descriptor.model_view[1],
            Transform::Rotate { angle: frame as u128 * 100, x: 500, y: 0, z: 1000 }
        );
        assert_eq!(session.driver.scene.rotation, (frame + 1) * 10);
        assert_eq!(session.phase, Phase::Animating);
    }
    let geometry = sample5::init_buffers();
    assert_eq!(geometry.vertex_count(), 36);
}

#[test]
fn a_pending_session_ignores_what_is_no_callback() {
    let mut session = sample5::draw(800, 600);
    set_up(&mut session, None);
    let before = session;
    for event in [Event::Nothing, Event::Created(true), Event::Status(Some(true))] {
        let turn = session.step(event).unwrap();
        assert_eq!(turn, Turn { calls: Vec::new(), frame: None });
        assert_eq!(session, before);
    }
}

#[test]
fn a_cancelled_session_draws_its_last_frame_and_ends() {
    let mut session = sample5::draw(800, 600);
    set_up(&mut session, None);
    session.step(Event::Frame).unwrap();
    session.cancel();
    assert_eq!(session.phase, Phase::Animating);
    let last = session.step(Event::Frame).unwrap();
    assert_eq!(draws(&last.calls).len(), 1);
    assert_eq!(schedules(&last.calls), 0);
    assert_eq!(session.phase, Phase::Finished);
    assert_eq!(session.driver.state, DriverState::Idle);
    assert_eq!(session.driver.scene.rotation, 20);
    for _ in 0..3 {
        let stray = session.step(Event::Frame).unwrap();
        assert_eq!(stray, Turn { calls: Vec::new(), frame: None });
        assert_eq!(session.phase, Phase::Finished);
    }
}

#[test]
fn a_session_cancelled_during_setup_never_registers_a_callback() {
    let mut session = sample5::draw(800, 600);
    session.step(Event::Nothing).unwrap();
    session.cancel();
    let mut event = Event::Created(true);
    let mut trace = Vec::new();
    while session.awaits_answer() {
        let turn = session.step(event).unwrap();
        event = Event::Nothing;
        for call in turn.calls {
            event = answer(&call, None);
            trace.push(call);
        }
    }
    assert_eq!(schedules(&trace), 0);
    assert_eq!(draws(&trace), Vec::new());
    assert_eq!(session.phase, Phase::Finished);
    assert_eq!(session.step(Event::Frame).unwrap(), Turn { calls: Vec::new(), frame: None });
}

#[test]
fn a_shader_that_does_not_compile_ends_the_session() {
    for stage in [ShaderStage::Vertex, ShaderStage::Fragment] {
        let mut session = sample3::draw(800, 600);
        let (trace, failure) = set_up(&mut session, Some(Call::GetCompileStatus(stage)));
        assert_eq!(failure, Some(SetupError::Compile("0:1: syntax error".to_string())));
        assert_eq!(session.phase, Phase::Failed);
        assert_eq!(trace.last(), Some(&Call::GetShaderInfoLog(stage)));
        assert_eq!(draws(&trace), Vec::new());
        assert!(!trace.contains(&Call::CreateProgram));
    }
}

#[test]
fn a_program_that_does_not_link_ends_the_session() {
    let mut session = sample5::draw(800, 600);
    let (trace, failure) = set_up(&mut session, Some(Call::GetLinkStatus));
    assert_eq!(failure, Some(SetupError::Link("interface mismatch".to_string())));
    assert_eq!(session.phase, Phase::Failed);
    assert_eq!(trace.last(), Some(&Call::GetProgramInfoLog));
    assert!(!trace.contains(&Call::GetAttribLocation(Attribute::Position)));
    assert!(!trace.contains(&Call::CreateBuffer(BufferRole::Positions)));
}

#[test]
fn an_object_that_cannot_be_allocated_ends_the_session() {
    let cases = [
        (Call::CreateShader(ShaderStage::Vertex), Resource::Shader),
        (Call::CreateShader(ShaderStage::Fragment), Resource::Shader),
        (Call::CreateProgram, Resource::Program),
        (Call::CreateBuffer(BufferRole::Positions), Resource::Buffer),
        (Call::CreateBuffer(BufferRole::Colors), Resource::Buffer),
        (Call::CreateBuffer(BufferRole::Indices), Resource::Buffer),
    ];
    for (broken, resource) in cases {
        let mut session = sample5::draw(800, 600);
        let (trace, failure) = set_up(&mut session, Some(broken));
        assert_eq!(failure, Some(SetupError::ResourceAllocation(resource)));
        assert_eq!(session.phase, Phase::Failed);
        assert_eq!(trace.last(), Some(&broken));
        assert_eq!(draws(&trace), Vec::new());
        assert_eq!(schedules(&trace), 0);
    }
}

#[test]
fn a_failed_session_asks_for_nothing_more() {
    let mut session = sample3::draw(800, 600);
    set_up(&mut session, Some(Call::CreateProgram));
    assert_eq!(session.phase, Phase::Failed);
    for event in [Event::Nothing, Event::Created(true), Event::Frame, Event::Status(Some(true))] {
        assert_eq!(session.step(event), Ok(Turn { calls: Vec::new(), frame: None }));
        assert_eq!(session.phase, Phase::Failed);
    }
}

#[test]
fn the_viewport_is_the_one_of_the_start() {
    let mut session = sample5::draw(1024, 768);
    set_up(&mut session, None);
    for _ in 0..2 {
        let turn = session.step(Event::Frame).unwrap();
        let projection = turn.frame.unwrap().projection;
        assert_eq!((projection.width, projection.height), (1024, 768));
    }
}

#[test]
fn every_object_is_made_once() {
    for broken in [None, Some(Call::GetLinkStatus), Some(Call::CreateBuffer(BufferRole::Colors))] {
        let mut session = sample5::draw(800, 600);
        let (mut trace, _) = set_up(&mut session, broken);
        for _ in 0..5 {
            trace.extend(session.step(Event::Frame).unwrap().calls);
        }
        let made: Vec<Call> = trace
            .iter()
            .copied()
            .filter(|call| {
                matches!(
                    call,
                    Call::CreateShader(_)
                        | Call::CreateProgram
                        | Call::CreateBuffer(_)
                        | Call::BufferData { .. }
                )
            })
            .collect();
        for (i, call) in made.iter().enumerate() {
            assert!(!made[i + 1..].contains(call), "{:?} was asked for twice", call);
        }
        if broken.is_none() {
            assert_eq!(made.len(), 9);
        }
    }
}

#[test]
fn a_setup_turn_ends_with_the_call_that_is_answered() {
    let mut session = sample5::draw(800, 600);
    let mut event = Event::Nothing;
    loop {
        let turn = session.step(event).unwrap();
        if !session.awaits_answer() {
            break;
        }
        let (last, others) = turn.calls.split_last().unwrap();
        assert_ne!(answer(last, None), Event::Nothing);
        assert!(others.iter().all(|call| answer(call, None) == Event::Nothing));
        event = answer(last, None);
    }
    assert_eq!(session.phase, Phase::Animating);
}
