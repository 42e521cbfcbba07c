use webgl_samples::error::{Resource, SetupError};
use webgl_samples::host::{Attribute, Call, Event, ShaderStage, Uniform};
use webgl_samples::shader::{
    compile_shader, link_program, shader_source, start_link, CompileStep, Input, Link, LinkStep,
    LinkedProgram,
};
use webgl_samples::tutorial::{sample3, sample5};

fn failure<S>(result: Result<webgl_samples::host::Advance<S>, SetupError>) -> SetupError {
    match result {
        Err(error) => error,
        Ok(_) => panic!("a failure was expected"),
    }
}

fn linked(position: i32, color: i32, projection: bool, model_view: bool) -> LinkedProgram {
    LinkedProgram { position, color, projection, model_view }
}

#[test]
fn stages_have_the_shader_kinds_of_webgl() {
    assert_eq!(ShaderStage::Vertex.code(), 0x8B31);
    assert_eq!(ShaderStage::Fragment.code(), 0x8B30);
}

#[test]
fn inputs_are_looked_up_by_their_names() {
    assert_eq!(Attribute::Position.name(), "aVertexPosition");
    assert_eq!(Attribute::Color.name(), "aVertexColor");
    assert_eq!(Uniform::Projection.name(), "uProjectionMatrix");
    assert_eq!(Uniform::ModelView.name(), "uModelViewMatrix");
}

#[test]
fn compiling_succeeds_when_the_status_is_true() {
    for stage in [ShaderStage::Vertex, ShaderStage::Fragment] {
        let first = compile_shader(stage, CompileStep::Start, Event::Nothing).unwrap();
        assert_eq!(first.calls, vec![Call::CreateShader(stage)]);
        assert_eq!(first.next, CompileStep::Creating);
        let second = compile_shader(stage, first.next, Event::Created(true)).unwrap();
        assert_eq!(
            second.calls,
            vec![
                Call::ShaderSource(stage),
                Call::CompileShader(stage),
                Call::GetCompileStatus(stage)
            ]
        );
        assert_eq!(second.next, CompileStep::Compiling);
        let third = compile_shader(stage, second.next, Event::Status(Some(true))).unwrap();
        assert!(third.calls.is_empty());
        assert_eq!(third.next, CompileStep::Compiled);
        let after = compile_shader(stage, third.next, Event::Nothing).unwrap();
        assert!(after.calls.is_empty());
        assert_eq!(after.next, CompileStep::Compiled);
    }
}

#[test]
fn a_shader_that_cannot_be_created_fails_the_compilation() {
    for event in [Event::Created(false), Event::Nothing, Event::Frame] {
        let error = failure(compile_shader(ShaderStage::Vertex, CompileStep::Creating, event));
        assert_eq!(error, SetupError::ResourceAllocation(Resource::Shader));
        assert_eq!(error.message(), "Unable to create shader object");
    }
}

#[test]
fn a_status_that_is_not_true_asks_for_the_diagnostic() {
    for event in [
        Event::Status(Some(false)),
        Event::Status(None),
        Event::Nothing,
        Event::Created(true),
    ] {
        let advance =
            compile_shader(ShaderStage::Fragment, CompileStep::Compiling, event).unwrap();
        assert_eq!(advance.calls, vec![Call::GetShaderInfoLog(ShaderStage::Fragment)]);
        assert_eq!(advance.next, CompileStep::Diagnosing);
    }
}

#[test]
fn the_compile_diagnostic_is_returned_as_the_driver_wrote_it() {
    let text = "ERROR: 0:3: 'vColor' : undeclared identifier\n";
    let error = failure(compile_shader(
        ShaderStage::Fragment,
        CompileStep::Diagnosing,
        Event::InfoLog(Some(text.to_string())),
    ));
    assert_eq!(error, SetupError::Compile(text.to_string()));
    assert_eq!(error.message(), text);
}

#[test]
fn a_missing_compile_diagnostic_has_a_fixed_text() {
    for event in [Event::InfoLog(None), Event::Nothing] {
        let error = failure(compile_shader(ShaderStage::Vertex, CompileStep::Diagnosing, event));
        assert_eq!(error, SetupError::Compile("Unknown error creating shader".to_string()));
        assert_eq!(error.message(), "Unknown error creating shader");
    }
}

#[test]
fn linking_starts_with_nothing_known() {
    assert_eq!(
        start_link(),
        Link { step: LinkStep::Start, program: linked(-1, -1, false, false) }
    );
    assert!(!start_link().program.is_complete());
}

#[test]
fn linking_resolves_all_four_names() {
    let mut link = start_link();
    let mut trace: Vec<Call> = Vec::new();
    for event in [
        Event::Nothing,
        Event::Created(true),
        Event::Status(Some(true)),
        Event::AttribLocation(0),
        Event::AttribLocation(1),
        Event::UniformLocation(true),
        Event::UniformLocation(true),
    ] {
        let advance = link_program(link, event).unwrap();
        trace.extend(advance.calls.iter().copied());
        link = advance.next;
    }
    assert_eq!(link, Link { step: LinkStep::Linked, program: linked(0, 1, true, true) });
    assert!(link.program.is_complete());
    assert_eq!(
        trace,
        vec![
            Call::CreateProgram,
            Call::AttachShader(ShaderStage::Vertex),
            Call::AttachShader(ShaderStage::Fragment),
            Call::LinkProgram,
            Call::GetLinkStatus,
            Call::GetAttribLocation(Attribute::Position),
            Call::GetAttribLocation(Attribute::Color),
            Call::GetUniformLocation(Uniform::Projection),
            Call::GetUniformLocation(Uniform::ModelView),
        ]
    );
    let after = link_program(link, Event::Nothing).unwrap();
    assert!(after.calls.is_empty());
    assert_eq!(after.next, link);
}

#[test]
fn inputs_that_the_program_lacks_are_no_failure() {
    let mut link = Link {
        step: LinkStep::Locating(Input::Attribute(Attribute::Position)),
        program: linked(-1, -1, false, false),
    };
    for event in [
        Event::AttribLocation(3),
        Event::AttribLocation(-1),
        Event::UniformLocation(false),
        Event::UniformLocation(true),
    ] {
        link = link_program(link, event).unwrap().next;
    }
    assert_eq!(link, Link { step: LinkStep::Linked, program: linked(3, -1, false, true) });
    assert!(!link.program.is_complete());
}

#[test]
fn a_program_that_cannot_be_created_fails_the_link() {
    let creating = Link { step: LinkStep::Creating, program: linked(-1, -1, false, false) };
    let error = failure(link_program(creating, Event::Created(false)));
    assert_eq!(error, SetupError::ResourceAllocation(Resource::Program));
    assert_eq!(error.message(), "Unable to create shader object");
}

#[test]
fn the_link_diagnostic_is_returned_as_the_driver_wrote_it() {
    let linking = Link { step: LinkStep::Linking, program: linked(-1, -1, false, false) };
    let advance = link_program(linking, Event::Status(Some(false))).unwrap();
    assert_eq!(advance.calls, vec![Call::GetProgramInfoLog]);
    assert_eq!(advance.next.step, LinkStep::Diagnosing);
    let text = "Varyings with the same name but different type";
    let error = failure(link_program(advance.next, Event::InfoLog(Some(text.to_string()))));
    assert_eq!(error, SetupError::Link(text.to_string()));
    assert_eq!(error.message(), text);
}

#[test]
fn a_missing_link_diagnostic_has_a_fixed_text() {
    let diagnosing = Link { step: LinkStep::Diagnosing, program: linked(-1, -1, false, false) };
    let error = failure(link_program(diagnosing, Event::InfoLog(None)));
    assert_eq!(error, SetupError::Link("Unknown error creating program object".to_string()));
    assert_eq!(error.message(), "Unknown error creating program object");
}

#[test]
fn a_location_is_its_own_index() {
    let program = linked(0, 7, true, true);
    assert_eq!(program.attribute_index(Attribute::Position), 0);
    assert_eq!(program.attribute_index(Attribute::Color), 7);
    assert_eq!(linked(i32::MAX, 0, true, true).attribute_index(Attribute::Position), 0x7FFF_FFFF);
}

#[test]
fn a_missing_location_wraps_to_an_index_out_of_reach() {
    let program = linked(-1, i32::MIN, true, true);
    assert_eq!(program.attribute_index(Attribute::Position), u32::MAX);
    assert_eq!(program.attribute_index(Attribute::Position), -1i32 as u32);
    assert_eq!(program.attribute_index(Attribute::Color), i32::MIN as u32);
    assert_eq!(linked(-2, 0, true, true).attribute_index(Attribute::Position), -2i32 as u32);
}

#[test]
fn the_samples_share_one_compiler_and_one_linker() {
    let by_square =
        sample3::compile_shader(ShaderStage::Vertex, CompileStep::Start, Event::Nothing).unwrap();
    let by_cube =
        sample5::compile_shader(ShaderStage::Vertex, CompileStep::Start, Event::Nothing).unwrap();
    assert_eq!(by_square.calls, by_cube.calls);
    let by_square = sample3::link_program(start_link(), Event::Nothing).unwrap();
    let by_cube = sample5::link_program(start_link(), Event::Nothing).unwrap();
    assert_eq!(by_square.calls, vec![Call::CreateProgram]);
    assert_eq!(by_square.calls, by_cube.calls);
}

#[test]
fn each_stage_is_handed_its_own_text_unchanged() {
    let vertex = "attribute vec4 aVertexPosition;\nvoid main(void) { gl_Position = aVertexPosition; }\n";
    let fragment = "void main(void) { gl_FragColor = vec4(1.0); }\n";
    assert_eq!(shader_source(ShaderStage::Vertex, vertex, fragment), vertex);
    assert_eq!(shader_source(ShaderStage::Fragment, vertex, fragment), fragment);
    assert_eq!(shader_source(ShaderStage::Vertex, "", fragment), "");
    assert_eq!(shader_source(ShaderStage::Fragment, vertex, vertex), vertex);
}

#[test]
fn different_locations_are_fed_under_different_indices() {
    for (position, color) in [(0, 1), (1, 0), (-1, 0), (-1, -2), (i32::MIN, i32::MAX), (7, -7)] {
        let program = linked(position, color, true, true);
        assert_ne!(
            program.attribute_index(Attribute::Position),
            program.attribute_index(Attribute::Color)
        );
    }
}
