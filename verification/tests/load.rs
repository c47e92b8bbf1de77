use gyroflow_ffi::double::Double;
use gyroflow_ffi::load::{file_size, LoadAction, LoadReply, LoadRequest, LoadVideo};
use gyroflow_ffi::size::Size;

fn d(x: f64) -> Double {
    Double::from_bits(x.to_bits())
}

fn request(url: Option<&[u8]>, wants_motion: bool) -> LoadRequest {
    LoadRequest {
        engine: true,
        url: url.map(|bytes| bytes.to_vec()),
        duration_ms: d(2500.0),
        fps: d(59.94),
        frame_count: 150,
        width: 3840,
        height: 2160,
        wants_motion,
    }
}

struct World {
    opened: bool,
    length: Option<u64>,
    loaded: bool,
    motion: bool,
}

const FINE: World = World { opened: true, length: Some(1234), loaded: true, motion: true };

fn run(request: LoadRequest, world: &World) -> Vec<LoadAction> {
    let mut exchange = LoadVideo::new(request);
    let mut actions = Vec::new();
    let mut reply = LoadReply::Done;
    loop {
        assert!(exchange.accepts(reply));
        let action = exchange.next(reply);
        actions.push(action);
        reply = match action {
            LoadAction::OpenFile => LoadReply::Opened(world.opened),
            LoadAction::ReadFileLength => LoadReply::FileLength(world.length),
            LoadAction::LoadGyroData { .. } => LoadReply::Loaded(world.loaded),
            LoadAction::ReadMotion => LoadReply::Motion(world.motion),
            LoadAction::Finish { .. } => {
                assert!(!exchange.accepts(LoadReply::Done));
                return actions;
            }
            _ => {
                assert!(!exchange.accepts(LoadReply::Loaded(true)));
                LoadReply::Done
            }
        };
    }
}

fn opening() -> Vec<LoadAction> {
    let size = Size { width: 3840, height: 2160 };
    vec![
        LoadAction::InitFromVideoData {
            duration_ms: d(2500.0),
            fps: d(59.94),
            frame_count: 150,
            size,
        },
        LoadAction::SetRenderParams { size, output_size: size },
        LoadAction::OpenFile,
    ]
}

fn open_file(file_size: usize) -> Vec<LoadAction> {
    let mut actions = opening();
    actions.extend([
        LoadAction::ReadFileLength,
        LoadAction::LoadGyroData {
            file_size,
            main_video: true,
            sample_index: None,
            project_version: 0,
        },
        LoadAction::ReportFocalLength,
        LoadAction::SetFov { fov: d(1.0) },
        LoadAction::RecomputeBlocking,
        LoadAction::ReportLens,
    ]);
    actions
}

#[test]
fn whole_load() {
    let mut expected = open_file(1234);
    expected.extend([
        LoadAction::ReadMotion,
        LoadAction::WriteMotion { flag: 1 },
        LoadAction::Finish { code: 0 },
    ]);
    assert_eq!(run(request(Some(b"/tmp/clip.mp4"), true), &FINE), expected);
}

#[test]
fn motion_is_written_as_zero_where_there_is_none() {
    let mut expected = open_file(1234);
    expected.extend([
        LoadAction::ReadMotion,
        LoadAction::WriteMotion { flag: 0 },
        LoadAction::Finish { code: 0 },
    ]);
    let world = World { motion: false, ..FINE };
    assert_eq!(run(request(Some(b"/tmp/clip.mp4"), true), &world), expected);
}

#[test]
fn motion_is_not_written_where_nobody_asks() {
    let mut expected = open_file(1234);
    expected.push(LoadAction::Finish { code: 0 });
    assert_eq!(run(request(Some(b"/tmp/clip.mp4"), false), &FINE), expected);
}

#[test]
fn null_arguments_are_refused() {
    let refused = vec![LoadAction::Finish { code: -1 }];
    assert_eq!(run(request(None, true), &FINE), refused);
    let no_engine = LoadRequest { engine: false, ..request(Some(b"/tmp/clip.mp4"), true) };
    assert_eq!(run(no_engine, &FINE), refused);
    let neither = LoadRequest { engine: false, ..request(Some(b"\xff"), true) };
    assert_eq!(run(neither, &FINE), refused);
}

#[test]
fn path_that_is_not_utf8_is_refused() {
    let refused = vec![LoadAction::Finish { code: -2 }];
    let surrogate: &[u8] = b"/tmp/\xed\xa0\x80";
    let overlong: &[u8] = b"/tmp/\xc0\xaf";
    let cut: &[u8] = b"/tmp/\xe8\xa7";
    for bytes in [surrogate, overlong, cut] {
        assert_eq!(run(request(Some(bytes), true), &FINE), refused);
        assert_eq!(LoadVideo::new(request(Some(bytes), true)).path(), "");
    }
}

#[test]
fn path_is_decoded() {
    for path in ["", "/tmp/clip.mp4", "/视频/片段 é 🎥.mp4"] {
        assert_eq!(LoadVideo::new(request(Some(path.as_bytes()), false)).path(), path);
    }
}

#[test]
fn file_that_does_not_open() {
    let mut expected = opening();
    expected.push(LoadAction::Finish { code: -3 });
    let world = World { opened: false, ..FINE };
    assert_eq!(run(request(Some(b"/tmp/clip.mp4"), true), &world), expected);
}

#[test]
fn motion_data_that_does_not_load_is_still_recomputed() {
    let mut expected = open_file(1234);
    expected.extend([
        LoadAction::ReadMotion,
        LoadAction::WriteMotion { flag: 1 },
        LoadAction::Finish { code: -4 },
    ]);
    let world = World { loaded: false, ..FINE };
    assert_eq!(run(request(Some(b"/tmp/clip.mp4"), true), &world), expected);
}

#[test]
fn unknown_length_is_zero() {
    let mut expected = open_file(0);
    expected.push(LoadAction::Finish { code: 0 });
    let world = World { length: None, ..FINE };
    assert_eq!(run(request(Some(b"/tmp/clip.mp4"), false), &world), expected);
    assert_eq!(file_size(None), 0);
    assert_eq!(file_size(Some(77)), 77);
    assert_eq!(file_size(Some(u64::MAX)), usize::MAX);
}

#[test]
fn numbers_have_lower_bounds() {
    let r = LoadRequest {
        duration_ms: d(f64::NAN),
        fps: d(-30.0),
        frame_count: -1,
        width: 0,
        height: i32::MIN,
        ..request(Some(b"/tmp/clip.mp4"), false)
    };
    let size = Size { width: 1, height: 1 };
    let actions = run(r, &FINE);
    assert_eq!(
        actions[0],
        LoadAction::InitFromVideoData { duration_ms: d(0.0), fps: d(0.0), frame_count: 0, size }
    );
    assert_eq!(actions[1], LoadAction::SetRenderParams { size, output_size: size });
}
