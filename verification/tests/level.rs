use gyroflow_ffi::double::Double;
use gyroflow_ffi::level::{LevelAction, LevelReply, LevelRequest, SetLevel};

fn d(x: f64) -> Double {
    Double::from_bits(x.to_bits())
}

fn run(engine: bool, level: i32, video_speed: f64, readout_time: f64) -> Vec<LevelAction> {
    let mut exchange = SetLevel::new(LevelRequest {
        engine,
        level,
        video_speed: d(video_speed),
    });
    let mut actions = Vec::new();
    let mut reply = LevelReply::Done;
    loop {
        assert!(exchange.accepts(reply));
        let action = exchange.next(reply);
        actions.push(action);
        reply = match action {
            LevelAction::Finish => {
                assert!(!exchange.accepts(LevelReply::Done));
                assert!(!exchange.accepts(LevelReply::ReadoutTime(d(1.0))));
                return actions;
            }
            LevelAction::ReadFrameReadoutTime => {
                assert!(!exchange.accepts(LevelReply::Done));
                LevelReply::ReadoutTime(d(readout_time))
            }
            _ => {
                assert!(!exchange.accepts(LevelReply::ReadoutTime(d(1.0))));
                LevelReply::Done
            }
        };
    }
}

fn expected(smoothness: f64, window: f64, lock: f64, speed: f64, fallback: bool) -> Vec<LevelAction> {
    let mut actions = vec![
        LevelAction::SetSmoothness { seconds: d(smoothness) },
        LevelAction::SetAdaptiveZoom { window_seconds: d(window) },
        LevelAction::SetZoomingMethod { method: 1 },
        LevelAction::SetVideoSpeed { speed: d(speed), flags: (false, false, false) },
        LevelAction::SetHorizonLock {
            percent: d(lock),
            roll: d(0.0),
            lock_pitch: false,
            pitch: d(0.0),
            automatic: false,
            limits: (d(5.0), d(500.0), d(1.0), d(f64::INFINITY)),
        },
        LevelAction::SetHorizonLockIntegration { method: 1 },
        LevelAction::ReadFrameReadoutTime,
    ];
    if fallback {
        actions.push(LevelAction::SetReadoutTopToBottom);
        actions.push(LevelAction::SetFrameReadoutTime { milliseconds: d(12.0) });
    }
    actions.extend([
        LevelAction::SetMaxZoom { percent: d(140.0), iterations: 5 },
        LevelAction::SetLensCorrection { amount: d(0.0) },
        LevelAction::RecomputeBlocking,
        LevelAction::ReportFovs,
        LevelAction::Finish,
    ]);
    actions
}

#[test]
fn each_level_has_its_preset() {
    assert_eq!(run(true, 1, 1.0, 8.5), expected(0.55, 2.5, 60.0, 1.0, false));
    assert_eq!(run(true, 2, 1.0, 8.5), expected(0.70, 3.5, 85.0, 1.0, false));
    assert_eq!(run(true, 3, 1.0, 8.5), expected(0.85, 5.0, 90.0, 1.0, false));
}

#[test]
fn level_zero_is_off() {
    assert_eq!(run(true, 0, 1.0, 8.5), expected(0.0, 0.0, 0.0, 1.0, false));
    assert_eq!(run(true, 0, 2.0, 0.0), expected(0.0, 0.0, 0.0, 2.0, true));
}

#[test]
fn last_level_wins() {
    // The first exchange fills in the missing readout time, which the second is then told.
    assert_eq!(run(true, 3, 1.0, 0.0)[8], LevelAction::SetFrameReadoutTime { milliseconds: d(12.0) });
    let second = run(true, 1, 0.5, 12.0);
    assert_eq!(second, expected(0.55, 2.5, 60.0, 0.5, false));
    let alone = run(true, 1, 0.5, 0.0);
    let set_twice: Vec<LevelAction> = alone
        .iter()
        .copied()
        .filter(|&a| {
            a != LevelAction::SetReadoutTopToBottom
                && a != LevelAction::SetFrameReadoutTime { milliseconds: d(12.0) }
        })
        .collect();
    assert_eq!(second, set_twice);
}

#[test]
fn level_out_of_range_is_clamped() {
    for level in [-1, -2, i32::MIN] {
        assert_eq!(run(true, level, 1.0, 8.5), run(true, 1, 1.0, 8.5));
    }
    for level in [4, i32::MAX] {
        assert_eq!(run(true, level, 1.0, 8.5), run(true, 3, 1.0, 8.5));
    }
}

#[test]
fn speed_is_never_below_a_hundredth() {
    for slow in [0.0, -3.0, 0.001, f64::NAN, f64::NEG_INFINITY] {
        assert_eq!(run(true, 2, slow, 8.5), expected(0.70, 3.5, 85.0, 0.01, false));
    }
    assert_eq!(run(true, 2, 0.5, 8.5), expected(0.70, 3.5, 85.0, 0.5, false));
    assert_eq!(run(true, 2, 4.0, 8.5), expected(0.70, 3.5, 85.0, 4.0, false));
}

#[test]
fn readout_time_is_replaced_only_where_it_is_missing() {
    for missing in [0.0, -0.0, -1.0, f64::NEG_INFINITY] {
        assert_eq!(run(true, 1, 1.0, missing), expected(0.55, 2.5, 60.0, 1.0, true));
    }
    for known in [5e-324, 16.6, f64::INFINITY, f64::NAN] {
        assert_eq!(run(true, 1, 1.0, known), expected(0.55, 2.5, 60.0, 1.0, false));
    }
}

#[test]
fn no_engine_no_action() {
    assert_eq!(run(false, 2, 1.0, 0.0), vec![LevelAction::Finish]);
}

#[test]
fn recomputation_follows_every_setting() {
    for readout_time in [0.0, 9.0] {
        let actions = run(true, 3, 1.0, readout_time);
        let n = actions.len();
        assert_eq!(actions[n - 3], LevelAction::RecomputeBlocking);
        assert_eq!(actions[n - 2], LevelAction::ReportFovs);
        assert_eq!(
            actions.iter().filter(|&&a| a == LevelAction::RecomputeBlocking).count(),
            1
        );
    }
}
