//! A rendering session: everything between the choice of a sample and its
//! last frame, as one state machine.
//!
//! The host feeds the session one event at a time and performs the calls that
//! the session answers with. Setup runs first: compile both shaders, link the
//! program and look its inputs up, upload the buffers. The sample is then
//! drawn, once or in a loop. A failure during setup ends the session before
//! anything is drawn.

use vstd::prelude::*;
use crate::animation::AnimationDriver;
use crate::error::{SetupError, SetupErrorView};
use crate::geometry::{upload_buffers, upload_plan, UploadStep};
use crate::host::{BufferRole, Call, Event, ShaderStage};
use crate::scene::{
    descriptor_of, frame_calls, render_frame, FrameDescriptor, FrameDescriptorView, Sample,
};
use crate::shader::{
    compile_plan, compile_shader, link_plan, link_program, start_link, unresolved, CompileStep,
    Link, LinkStep, LinkedProgram,
};

verus! {

/// Where a session stands.
#[derive(Clone, Copy, Debug, PartialEq, Eq, Structural)]
pub enum Phase {
    /// Nothing has been asked of the host yet.
    Start,
    /// A shader stage is being compiled.
    Compiling(ShaderStage, CompileStep),
    /// The program is being linked, or its inputs are being looked up.
    Linking(Link),
    /// The buffers are being uploaded.
    Uploading(UploadStep),
    /// Setup is complete and a frame callback is pending.
    Animating,
    /// The sample has been drawn and nothing is pending.
    Finished,
    /// Setup failed. Nothing was drawn and nothing will be.
    Failed,
}

/// The state of a rendering session.
#[derive(Clone, Copy, Debug, PartialEq, Eq, Structural)]
pub struct Session {
    /// The sample that is drawn.
    pub sample: Sample,
    /// The width of the viewport, as it was when the session began.
    pub width: u32,
    /// The height of the viewport, as it was when the session began.
    pub height: u32,
    /// Where the session stands.
    pub phase: Phase,
    /// The inputs of the session's one program, as far as they are known.
    pub program: LinkedProgram,
    /// The scene and the loop that redraws it.
    pub driver: AnimationDriver,
}

/// What the session asks of the host in one turn.
#[derive(Clone, Debug, PartialEq, Eq)]
pub struct Turn {
    /// The calls to perform, in order. During setup the answer to the last
    /// one is the next event.
    pub calls: Vec<Call>,
    /// The transforms that the matrix uploads among the calls refer to, where
    /// the turn draws a frame.
    pub frame: Option<FrameDescriptor>,
}

/// A [`Turn`] with its calls and steps as sequences.
pub struct TurnView {
    pub calls: Seq<Call>,
    pub frame: Option<FrameDescriptorView>,
}

impl View for Turn {
    type V = TurnView;

    open spec fn view(&self) -> TurnView {
        TurnView {
            calls: self.calls@,
            frame: match self.frame {
                Some(descriptor) => Some(descriptor@),
                None => None,
            },
        }
    }
}

/// How a turn ends: with calls to perform, or with the failure that ends the session.
pub open spec fn turn_outcome(result: Result<Turn, SetupError>) -> Result<TurnView, SetupErrorView> {
    match result {
        Ok(turn) => Ok(turn@),
        Err(error) => Err(error@),
    }
}

/// One turn of a session: the state it leads to, and how it ends.
pub struct Transition {
    pub next: Session,
    pub outcome: Result<TurnView, SetupErrorView>,
}

/// Whether a sample keeps an index buffer.
pub open spec fn is_indexed(sample: Sample) -> bool {
    sample == Sample::Cube
}

/// Whether a sample is redrawn on every display refresh.
pub open spec fn is_animated(sample: Sample) -> bool {
    sample == Sample::Cube
}

/// The session moves to `phase` and asks for `calls`.
pub open spec fn proceed(session: Session, phase: Phase, calls: Seq<Call>) -> Transition {
    Transition {
        next: Session { phase, ..session },
        outcome: Ok(TurnView { calls, frame: None }),
    }
}

/// The session fails.
pub open spec fn fail(session: Session, error: SetupErrorView) -> Transition {
    Transition { next: Session { phase: Phase::Failed, ..session }, outcome: Err(error) }
}

/// The session ignores the event.
pub open spec fn stay(session: Session) -> Transition {
    proceed(session, session.phase, seq![])
}

/// The transforms of the frame that a session draws now, where the frame
/// uploads any: the empty canvas has no use for them.
pub open spec fn frame_of(session: Session) -> Option<FrameDescriptorView> {
    if session.sample == Sample::Clear {
        None
    } else {
        Some(descriptor_of(session.sample, session.width, session.height, session.driver.scene))
    }
}

/// The end of setup, after the calls `before`. A sample that is drawn once
/// is drawn now, and the session is finished. An animated sample has its
/// first callback registered instead, unless the loop was cancelled already.
pub open spec fn present(session: Session, before: Seq<Call>) -> Transition {
    if is_animated(session.sample) {
        Transition {
            next: Session {
                phase: if session.driver.cancelled {
                    Phase::Finished
                } else {
                    Phase::Animating
                },
                driver: session.driver.started(),
                ..session
            },
            outcome: Ok(
                TurnView { calls: before + session.driver.schedule_calls(), frame: None },
            ),
        }
    } else {
        Transition {
            next: Session { phase: Phase::Finished, ..session },
            outcome: Ok(
                TurnView {
                    calls: before + frame_calls(session.sample, session.program),
                    frame: frame_of(session),
                },
            ),
        }
    }
}

/// One callback of the animation loop: the frame of the scene as it is, the
/// scene turned for the next frame, and the next callback registered unless
/// the loop was cancelled, in which case the session is finished.
pub open spec fn animate(session: Session) -> Transition {
    Transition {
        next: Session {
            phase: if session.driver.cancelled {
                Phase::Finished
            } else {
                Phase::Animating
            },
            driver: session.driver.after_frame(),
            ..session
        },
        outcome: Ok(
            TurnView {
                calls: session.driver.callback_calls(session.sample, session.program),
                frame: frame_of(session),
            },
        ),
    }
}

/// What a session does with an event.
///
/// Setup takes its phases in a fixed order, and each phase begins in the turn
/// in which the one before it ends: vertex shader, fragment shader, program,
/// buffers. The empty canvas needs no setup. A failure of any phase fails the
/// session. While a callback is pending, the firing of a frame callback draws
/// a frame and every other event is ignored. A session that is finished or
/// has failed ignores every event.
pub open spec fn transition(session: Session, event: Event) -> Transition {
    match session.phase {
        Phase::Start => if session.sample == Sample::Clear {
            present(session, seq![])
        } else {
            proceed(
                session,
                Phase::Compiling(ShaderStage::Vertex, CompileStep::Creating),
                seq![Call::CreateShader(ShaderStage::Vertex)],
            )
        },
        Phase::Compiling(stage, step) => match compile_plan(stage, step, event) {
            Err(error) => fail(session, error),
            Ok(planned) => if planned.next != CompileStep::Compiled {
                proceed(session, Phase::Compiling(stage, planned.next), planned.calls)
            } else if stage == ShaderStage::Vertex {
                proceed(
                    session,
                    Phase::Compiling(ShaderStage::Fragment, CompileStep::Creating),
                    planned.calls + seq![Call::CreateShader(ShaderStage::Fragment)],
                )
            } else {
                proceed(
                    session,
                    Phase::Linking(Link { step: LinkStep::Creating, program: unresolved() }),
                    planned.calls + seq![Call::CreateProgram],
                )
            },
        },
        Phase::Linking(link) => match link_plan(link, event) {
            Err(error) => fail(session, error),
            Ok(planned) => if planned.next.step != LinkStep::Linked {
                proceed(session, Phase::Linking(planned.next), planned.calls)
            } else {
                proceed(
                    Session { program: planned.next.program, ..session },
                    Phase::Uploading(UploadStep::Creating(BufferRole::Positions)),
                    planned.calls + seq![Call::CreateBuffer(BufferRole::Positions)],
                )
            },
        },
        Phase::Uploading(step) => match upload_plan(is_indexed(session.sample), step, event) {
            Err(error) => fail(session, error),
            Ok(planned) => if planned.next != UploadStep::Uploaded {
                proceed(session, Phase::Uploading(planned.next), planned.calls)
            } else {
                present(session, planned.calls)
            },
        },
        Phase::Animating => if event == Event::Frame {
            animate(session)
        } else {
            stay(session)
        },
        Phase::Finished => stay(session),
        Phase::Failed => stay(session),
    }
}

impl Session {
    /// A session that has asked nothing of the host yet.
    pub open spec fn initial(sample: Sample, width: u32, height: u32) -> Session {
        Session {
            sample,
            width,
            height,
            phase: Phase::Start,
            program: unresolved(),
            driver: AnimationDriver::initial(),
        }
    }

    /// Whether the session waits for the answer to the last call of its last turn.
    pub open spec fn in_setup(self) -> bool {
        self.phase is Compiling || self.phase is Linking || self.phase is Uploading
    }

    /// Begins a session for a sample and a viewport.
    pub fn new(sample: Sample, width: u32, height: u32) -> (session: Session)
        ensures
            session == Session::initial(sample, width, height),
    {
        Session {
            sample,
            width,
            height,
            phase: Phase::Start,
            program: start_link().program,
            driver: AnimationDriver::new(),
        }
    }

    /// Returns whether the session waits for the answer to the last call of
    /// its last turn. Where it does not, the host is done until a frame
    /// callback fires.
    pub fn awaits_answer(&self) -> (waiting: bool)
        ensures
            waiting == self.in_setup(),
    {
        match self.phase {
            Phase::Compiling(_, _) => true,
            Phase::Linking(_) => true,
            Phase::Uploading(_) => true,
            _ => false,
        }
    }

    /// Asks the animation loop to end. The callback that is pending, if any,
    /// still draws its frame; no callback is registered after the request.
    pub fn cancel(&mut self)
        ensures
            *final(self) == (Session {
                driver: AnimationDriver { cancelled: true, ..old(self).driver },
                ..*old(self)
            }),
    {
        self.driver.cancel();
    }

    fn uploaded(&self, descriptor: FrameDescriptor) -> (frame: Option<FrameDescriptor>)
        ensures
            self.sample == Sample::Clear ==> frame is None,
            self.sample != Sample::Clear ==> frame == Some(descriptor),
    {
        match self.sample {
            Sample::Clear => None,
            _ => Some(descriptor),
        }
    }

    fn finish_setup(&mut self, before: Vec<Call>) -> (turn: Turn)
        ensures
            *final(self) == present(*old(self), before@).next,
            Ok::<TurnView, SetupErrorView>(turn@) == present(*old(self), before@).outcome,
    {
        let mut calls = before;
        match self.sample {
            Sample::Cube => {
                self.phase = if self.driver.cancelled {
                    Phase::Finished
                } else {
                    Phase::Animating
                };
                let mut schedule = self.driver.start();
                calls.append(&mut schedule);
                Turn { calls, frame: None }
            },
            _ => {
                let mut frame = render_frame(
                    self.sample,
                    &self.program,
                    self.width,
                    self.height,
                    &self.driver.scene,
                );
                self.phase = Phase::Finished;
                calls.append(&mut frame.calls);
                Turn { calls, frame: self.uploaded(frame.descriptor) }
            },
        }
    }

    /// Takes one turn: given what the host reports, says what to do next.
    pub fn step(&mut self, event: Event) -> (result: Result<Turn, SetupError>)
        ensures
            *final(self) == transition(*old(self), event).next,
            turn_outcome(result) == transition(*old(self), event).outcome,
    {
        match self.phase {
            Phase::Start => {
                match self.sample {
                    Sample::Clear => Ok(self.finish_setup(Vec::new())),
                    _ => {
                        let begun = compile_shader(ShaderStage::Vertex, CompileStep::Start, event)
                            .unwrap();
                        self.phase = Phase::Compiling(ShaderStage::Vertex, begun.next);
                        Ok(Turn { calls: begun.calls, frame: None })
                    },
                }
            },
            Phase::Compiling(stage, step) => {
                match compile_shader(stage, step, event) {
                    Err(error) => {
                        self.phase = Phase::Failed;
                        Err(error)
                    },
                    Ok(advance) => {
                        let mut calls = advance.calls;
                        match advance.next {
                            CompileStep::Compiled => {
                                match stage {
                                    ShaderStage::Vertex => {
                                        let mut begun = compile_shader(
                                            ShaderStage::Fragment,
                                            CompileStep::Start,
                                            Event::Nothing,
                                        ).unwrap();
                                        calls.append(&mut begun.calls);
                                        self.phase = Phase::Compiling(
                                            ShaderStage::Fragment,
                                            begun.next,
                                        );
                                    },
                                    ShaderStage::Fragment => {
                                        let mut begun = link_program(start_link(), Event::Nothing)
                                            .unwrap();
                                        calls.append(&mut begun.calls);
                                        self.phase = Phase::Linking(begun.next);
                                    },
                                }
                            },
                            next => {
                                self.phase = Phase::Compiling(stage, next);
                            },
                        }
                        Ok(Turn { calls, frame: None })
                    },
                }
            },
            Phase::Linking(link) => {
                match link_program(link, event) {
                    Err(error) => {
                        self.phase = Phase::Failed;
                        Err(error)
                    },
                    Ok(advance) => {
                        let mut calls = advance.calls;
                        match advance.next.step {
                            LinkStep::Linked => {
                                let mut begun = upload_buffers(
                                    matches!(self.sample, Sample::Cube),
                                    UploadStep::Start,
                                    Event::Nothing,
                                ).unwrap();
                                calls.append(&mut begun.calls);
                                self.program = advance.next.program;
                                self.phase = Phase::Uploading(begun.next);
                            },
                            _ => {
                                self.phase = Phase::Linking(advance.next);
                            },
                        }
                        Ok(Turn { calls, frame: None })
                    },
                }
            },
            Phase::Uploading(step) => {
                match upload_buffers(matches!(self.sample, Sample::Cube), step, event) {
                    Err(error) => {
                        self.phase = Phase::Failed;
                        Err(error)
                    },
                    Ok(advance) => {
                        match advance.next {
                            UploadStep::Uploaded => Ok(self.finish_setup(advance.calls)),
                            next => {
                                self.phase = Phase::Uploading(next);
                                Ok(Turn { calls: advance.calls, frame: None })
                            },
                        }
                    },
                }
            },
            Phase::Animating => {
                match event {
                    Event::Frame => {
                        if self.driver.cancelled {
                            self.phase = Phase::Finished;
                        }
                        let frame = self.driver.on_frame(
                            self.sample,
                            &self.program,
                            self.width,
                            self.height,
                        );
                        Ok(Turn { calls: frame.calls, frame: self.uploaded(frame.descriptor) })
                    },
                    _ => Ok(Turn { calls: Vec::new(), frame: None }),
                }
            },
            _ => Ok(Turn { calls: Vec::new(), frame: None }),
        }
    }
}

} // verus!
