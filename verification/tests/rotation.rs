use gyroflow_ffi::double::Double;
use gyroflow_ffi::rotation::{
    output_size, RotationAction, RotationReply, RotationRequest, SetVideoRotation,
};
use gyroflow_ffi::size::Size;

fn d(x: f64) -> Double {
    Double::from_bits(x.to_bits())
}

fn size(width: usize, height: usize) -> Size {
    Size { width, height }
}

fn run(engine: bool, rotation: f64, video: Size) -> Vec<RotationAction> {
    let mut exchange = SetVideoRotation::new(RotationRequest { engine, rotation: d(rotation) });
    let mut actions = Vec::new();
    let mut reply = RotationReply::Done;
    loop {
        assert!(exchange.accepts(reply));
        let action = exchange.next(reply);
        actions.push(action);
        reply = match action {
            RotationAction::Finish => {
                assert!(!exchange.accepts(RotationReply::Done));
                return actions;
            }
            RotationAction::ReadSize => {
                assert!(!exchange.accepts(RotationReply::Done));
                RotationReply::VideoSize(video)
            }
            _ => RotationReply::Done,
        };
    }
}

#[test]
fn quarter_turn_swaps_the_sides() {
    for rotation in [90.0, 270.0, -90.0, -270.0] {
        assert_eq!(
            run(true, rotation, size(3840, 2160)),
            vec![
                RotationAction::SetVideoRotation { rotation: d(rotation) },
                RotationAction::ReadSize,
                RotationAction::SetOutputSize { size: size(2160, 3840) },
                RotationAction::RecomputeBlocking,
                RotationAction::ReportRotation { rotation: d(rotation), size: size(2160, 3840) },
                RotationAction::Finish,
            ]
        );
    }
}

#[test]
fn other_turns_keep_the_sides() {
    for rotation in [0.0, 180.0, -180.0, 45.0, 450.0, f64::NAN] {
        let actions = run(true, rotation, size(3840, 2160));
        assert_eq!(actions[2], RotationAction::SetOutputSize { size: size(3840, 2160) });
        assert_eq!(actions.len(), 6);
    }
}

#[test]
fn a_side_has_at_least_one_pixel() {
    assert_eq!(output_size(size(0, 5), d(90.0)), size(5, 1));
    assert_eq!(output_size(size(0, 0), d(0.0)), size(1, 1));
}

#[test]
fn no_engine_no_rotation() {
    assert_eq!(run(false, 90.0, size(1, 2)), vec![RotationAction::Finish]);
}
