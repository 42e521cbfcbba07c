use webgl_samples::animation::{AnimationDriver, DriverState, FRAME_DELTA};
use webgl_samples::host::Call;
use webgl_samples::scene::{render_frame, Sample, Scene, Transform};
use webgl_samples::shader::LinkedProgram;

fn program() -> LinkedProgram {
    LinkedProgram { position: 0, color: 1, projection: true, model_view: true }
}

fn schedules(calls: &[Call]) -> usize {
    calls.iter().filter(|call| **call == Call::RequestAnimationFrame).count()
}

#[test]
fn a_new_driver_is_idle_and_at_rest() {
    let driver = AnimationDriver::new();
    assert_eq!(
        driver,
        AnimationDriver { scene: Scene { rotation: 0 }, state: DriverState::Idle, cancelled: false }
    );
}

#[test]
fn the_frame_delta_is_a_hundredth_of_a_radian() {
    assert_eq!(FRAME_DELTA, 10);
    assert_eq!(FRAME_DELTA as f32 / 1000.0, 0.01);
}

#[test]
fn starting_registers_the_first_callback() {
    let mut driver = AnimationDriver::new();
    assert_eq!(driver.start(), vec![Call::RequestAnimationFrame]);
    assert_eq!(driver.state, DriverState::Scheduled);
    assert_eq!(driver.scene, Scene { rotation: 0 });
}

#[test]
fn a_loop_cancelled_before_its_start_registers_nothing() {
    let mut driver = AnimationDriver::new();
    driver.cancel();
    assert_eq!(driver.start(), Vec::new());
    assert_eq!(driver.state, DriverState::Idle);
}

#[test]
fn every_callback_turns_the_scene_by_the_delta() {
    let mut driver = AnimationDriver::new();
    driver.start();
    let mut previous = driver.scene.rotation;
    for frame in 1..=1000u64 {
        driver.on_frame(Sample::Cube, &program(), 800, 600);
        assert_eq!(driver.scene.rotation, previous + 10);
        assert_eq!(driver.scene.rotation, frame * 10);
        assert!(driver.scene.rotation > previous);
        previous = driver.scene.rotation;
    }
}

#[test]
fn a_callback_draws_the_scene_as_it_was_before_the_turn() {
    let mut driver = AnimationDriver::new();
    driver.start();
    for frame in 0..5u64 {
        let before = driver.scene;
        let drawn = driver.on_frame(Sample::Cube, &program(), 800, 600);
        let composed = render_frame(Sample::Cube, &program(), 800, 600, &before);
        assert_eq!(drawn.descriptor, composed.descriptor);
        assert_eq!(
            drawn.descriptor.model_view[1],
            Transform::Rotate { angle: frame as u128 * 100, x: 500, y: 0, z: 1000 }
        );
        assert_eq!(
            drawn.descriptor.model_view[2],
            Transform::Rotate { angle: frame as u128 * 70, x: 0, y: 1000, z: 0 }
        );
        assert_eq!(&drawn.calls[..16], composed.calls.as_slice());
    }
}

#[test]
fn a_running_loop_registers_one_successor_per_callback() {
    let mut driver = AnimationDriver::new();
    driver.start();
    for _ in 0..10 {
        let frame = driver.on_frame(Sample::Cube, &program(), 800, 600);
        assert_eq!(frame.calls.len(), 17);
        assert_eq!(schedules(&frame.calls), 1);
        assert_eq!(frame.calls.last(), Some(&Call::RequestAnimationFrame));
        assert_eq!(driver.state, DriverState::Scheduled);
    }
}

#[test]
fn after_cancellation_no_further_callback_is_registered() {
    let mut driver = AnimationDriver::new();
    driver.start();
    driver.on_frame(Sample::Cube, &program(), 800, 600);
    driver.on_frame(Sample::Cube, &program(), 800, 600);
    // a callback is in flight when the request comes
    assert_eq!(driver.state, DriverState::Scheduled);
    driver.cancel();
    assert!(driver.cancelled);
    assert_eq!(driver.state, DriverState::Scheduled);
    assert_eq!(driver.scene, Scene { rotation: 20 });
    let last = driver.on_frame(Sample::Cube, &program(), 800, 600);
    assert_eq!(schedules(&last.calls), 0);
    assert_eq!(last.calls.len(), 16);
    assert_eq!(last.calls.last(), Some(&Call::DrawArrays { mode: 4, first: 0, count: 36 }));
    assert_eq!(driver.state, DriverState::Idle);
    // nothing that might still fire registers anything either
    for _ in 0..3 {
        let stray = driver.on_frame(Sample::Cube, &program(), 800, 600);
        assert_eq!(schedules(&stray.calls), 0);
        assert_eq!(driver.state, DriverState::Idle);
        assert!(driver.cancelled);
    }
}

#[test]
fn cancelling_neither_resets_nor_stops_the_angle() {
    let mut driver = AnimationDriver::new();
    driver.start();
    driver.on_frame(Sample::Cube, &program(), 800, 600);
    driver.cancel();
    assert_eq!(driver.scene.rotation, 10);
    driver.on_frame(Sample::Cube, &program(), 800, 600);
    assert_eq!(driver.scene.rotation, 20);
}

#[test]
fn the_angle_stays_at_the_end_of_its_range() {
    let mut driver = AnimationDriver {
        scene: Scene { rotation: u64::MAX - 15 },
        state: DriverState::Scheduled,
        cancelled: false,
    };
    driver.on_frame(Sample::Cube, &program(), 800, 600);
    assert_eq!(driver.scene.rotation, u64::MAX - 5);
    driver.on_frame(Sample::Cube, &program(), 800, 600);
    assert_eq!(driver.scene.rotation, u64::MAX - 5);
    let mut driver = AnimationDriver {
        scene: Scene { rotation: u64::MAX },
        state: DriverState::Scheduled,
        cancelled: false,
    };
    let frame = driver.on_frame(Sample::Cube, &program(), 800, 600);
    assert_eq!(driver.scene.rotation, u64::MAX);
    assert_eq!(frame.calls.last(), Some(&Call::RequestAnimationFrame));
}
