//! The animation loop: one frame per callback of the host's frame scheduler,
//! each turning the scene a little further, until the loop is cancelled.

use vstd::prelude::*;
use crate::host::{unscheduled, Call};
use crate::scene::{
    descriptor_of, frame_calls, frame_never_schedules, render_frame, Frame, Sample, Scene,
};
use crate::shader::LinkedProgram;

verus! {

/// The angle by which the scene turns from one frame to the next: 0.01
/// radians, in milliradians. It does not depend on how long a frame takes.
pub const FRAME_DELTA: u64 = 10;

/// Whether a frame callback is registered with the host.
#[derive(Clone, Copy, Debug, PartialEq, Eq, Structural)]
pub enum DriverState {
    /// No callback is pending.
    Idle,
    /// A callback has been registered and has not run yet.
    Scheduled,
}

/// The owner of the scene and of the loop that redraws it.
#[derive(Clone, Copy, Debug, PartialEq, Eq, Structural)]
pub struct AnimationDriver {
    /// The scene as the next frame will show it.
    pub scene: Scene,
    /// Whether a callback is pending.
    pub state: DriverState,
    /// Whether the loop has been asked to end.
    pub cancelled: bool,
}

/// The scene one frame later. The angle grows by [`FRAME_DELTA`]; it is never
/// reduced or reset. At the very end of its range it stays where it is.
pub open spec fn advanced(scene: Scene) -> Scene {
    if scene.rotation + FRAME_DELTA <= u64::MAX {
        Scene { rotation: (scene.rotation + FRAME_DELTA) as u64 }
    } else {
        scene
    }
}

impl AnimationDriver {
    /// A driver that has drawn nothing: the scene at rest, no callback
    /// pending, not cancelled.
    pub open spec fn initial() -> AnimationDriver {
        AnimationDriver {
            scene: Scene { rotation: 0 },
            state: DriverState::Idle,
            cancelled: false,
        }
    }

    /// The driver after the loop was started.
    pub open spec fn started(self) -> AnimationDriver {
        AnimationDriver {
            state: if self.cancelled {
                DriverState::Idle
            } else {
                DriverState::Scheduled
            },
            ..self
        }
    }

    /// The calls that register a callback, where the loop goes on.
    pub open spec fn schedule_calls(self) -> Seq<Call> {
        if self.cancelled {
            seq![]
        } else {
            seq![Call::RequestAnimationFrame]
        }
    }

    /// The driver after one callback has run.
    pub open spec fn after_frame(self) -> AnimationDriver {
        AnimationDriver { scene: advanced(self.scene), ..self.started() }
    }

    /// The calls that one callback makes: the frame of the scene as it is, and
    /// then, unless the loop was cancelled, the registration of the next callback.
    pub open spec fn callback_calls(self, sample: Sample, program: LinkedProgram) -> Seq<Call> {
        frame_calls(sample, program) + self.schedule_calls()
    }

    /// The driver after `n` callbacks have run.
    pub open spec fn after_frames(self, n: nat) -> AnimationDriver
        decreases n,
    {
        if n == 0 {
            self
        } else {
            self.after_frames((n - 1) as nat).after_frame()
        }
    }

    /// Creates a driver that has drawn nothing.
    pub fn new() -> (driver: AnimationDriver)
        ensures
            driver == AnimationDriver::initial(),
    {
        AnimationDriver {
            scene: Scene { rotation: 0 },
            state: DriverState::Idle,
            cancelled: false,
        }
    }

    /// Starts the loop: returns the call that registers the first callback. A
    /// loop that was cancelled before it started registers nothing.
    pub fn start(&mut self) -> (calls: Vec<Call>)
        ensures
            *final(self) == old(self).started(),
            calls@ == old(self).schedule_calls(),
    {
        let mut calls: Vec<Call> = Vec::new();
        if self.cancelled {
            self.state = DriverState::Idle;
        } else {
            self.state = DriverState::Scheduled;
            calls.push(Call::RequestAnimationFrame);
        }
        assert(calls@ =~= old(self).schedule_calls());
        calls
    }

    /// Asks the loop to end. The callback that is pending, if any, still
    /// draws its frame; it registers no successor.
    pub fn cancel(&mut self)
        ensures
            *final(self) == (AnimationDriver { cancelled: true, ..*old(self) }),
    {
        self.cancelled = true;
    }

    /// Runs one callback: composes the frame of the scene as it is, turns the
    /// scene by [`FRAME_DELTA`], and, unless the loop was cancelled, registers
    /// the next callback as the frame's last call.
    pub fn on_frame(&mut self, sample: Sample, program: &LinkedProgram, width: u32, height: u32)
        -> (frame: Frame)
        ensures
            frame.descriptor@ == descriptor_of(sample, width, height, old(self).scene),
            frame.calls@ == old(self).callback_calls(sample, *program),
            *final(self) == old(self).after_frame(),
    {
        let mut frame = render_frame(sample, program, width, height, &self.scene);
        if self.scene.rotation <= u64::MAX - FRAME_DELTA {
            self.scene.rotation = self.scene.rotation + FRAME_DELTA;
        }
        let mut schedule = self.start();
        frame.calls.append(&mut schedule);
        frame
    }
}

/// Every callback turns the scene by exactly [`FRAME_DELTA`], for as long as
/// the angle fits its range: after `n` callbacks the angle has grown by `n`
/// times the delta.
pub proof fn rotation_grows_by_delta(driver: AnimationDriver, n: nat)
    requires
        driver.scene.rotation + n * FRAME_DELTA <= u64::MAX,
    ensures
        driver.after_frames(n).scene.rotation == driver.scene.rotation + n * FRAME_DELTA,
    decreases n,
{
    if n > 0 {
        rotation_grows_by_delta(driver, (n - 1) as nat);
    }
}

/// The angle is never reduced and never reset, however many callbacks run.
pub proof fn rotation_never_decreases(driver: AnimationDriver, n: nat)
    ensures
        driver.after_frames(n).scene.rotation >= driver.scene.rotation,
    decreases n,
{
    if n > 0 {
        rotation_never_decreases(driver, (n - 1) as nat);
    }
}

/// Once the loop is cancelled it stays cancelled. The callback that runs
/// next, and any that might run after it, draws its frame and registers no
/// successor, and from the first of them on no callback is pending.
pub proof fn cancelled_loop_registers_nothing(
    driver: AnimationDriver,
    n: nat,
    sample: Sample,
    program: LinkedProgram,
)
    requires
        driver.cancelled,
    ensures
        driver.after_frames(n).cancelled,
        n > 0 ==> driver.after_frames(n).state == DriverState::Idle,
        driver.after_frames(n).callback_calls(sample, program) == frame_calls(sample, program),
        unscheduled(driver.after_frames(n).callback_calls(sample, program)),
    decreases n,
{
    if n > 0 {
        cancelled_loop_registers_nothing(driver, (n - 1) as nat, sample, program);
    }
    frame_never_schedules(sample, program);
    assert(driver.after_frames(n).callback_calls(sample, program) =~= frame_calls(
        sample,
        program,
    ));
}

/// While the loop is not cancelled, every callback registers exactly one
/// successor, as its last call.
pub proof fn running_loop_registers_once(
    driver: AnimationDriver,
    sample: Sample,
    program: LinkedProgram,
)
    requires
        !driver.cancelled,
    ensures
        driver.after_frame().state == DriverState::Scheduled,
        driver.callback_calls(sample, program).last() == Call::RequestAnimationFrame,
        unscheduled(driver.callback_calls(sample, program).drop_last()),
{
    frame_never_schedules(sample, program);
    assert(driver.callback_calls(sample, program).drop_last() =~= frame_calls(sample, program));
}

} // verus!
