use gyroflow_ffi::frame::{
    buffer_layout, is_addressable, BufferLayout, FrameAction, FrameReply, FrameRequest,
    ProcessFrame,
};
use gyroflow_ffi::size::Size;

fn size(width: usize, height: usize) -> Size {
    Size { width, height }
}

fn request() -> FrameRequest {
    FrameRequest {
        engine: true,
        input: true,
        output: true,
        timestamp_us: -7,
        in_stride: 8192,
        out_stride: 0,
        width: 1920,
        height: 1080,
    }
}

fn run(request: FrameRequest, output: Size, before: u64, processed: bool) -> Vec<FrameAction> {
    let mut exchange = ProcessFrame::new(request);
    let mut actions = Vec::new();
    let mut reply = FrameReply::Done;
    loop {
        assert!(exchange.accepts(reply));
        let action = exchange.next(reply);
        actions.push(action);
        reply = match action {
            FrameAction::ReadOutputSize => FrameReply::OutputSize(output),
            FrameAction::CountFrame => FrameReply::FramesBefore(before),
            FrameAction::ProcessPixels { .. } => FrameReply::Processed(processed),
            FrameAction::ReportFrame { .. } => FrameReply::Done,
            FrameAction::Finish { .. } => {
                assert!(!exchange.accepts(FrameReply::Done));
                return actions;
            }
        };
    }
}

fn processing() -> Vec<FrameAction> {
    vec![
        FrameAction::ReadOutputSize,
        FrameAction::CountFrame,
        FrameAction::ProcessPixels {
            timestamp_us: -7,
            input: BufferLayout { size: size(1920, 1080), stride: 8192, length: 8192 * 1080 },
            output: BufferLayout { size: size(1080, 1920), stride: 4320, length: 4320 * 1920 },
        },
    ]
}

#[test]
fn first_frame_is_reported() {
    let mut expected = processing();
    expected.push(FrameAction::ReportFrame { number: 1 });
    expected.push(FrameAction::Finish { code: 0 });
    assert_eq!(run(request(), size(1080, 1920), 0, true), expected);
}

#[test]
fn one_frame_in_sixty_is_reported() {
    let reported: Vec<u64> = (0..200)
        .filter(|&before| run(request(), size(1, 1), before, true).len() == 5)
        .collect();
    assert_eq!(reported, vec![0, 60, 120, 180]);
}

#[test]
fn frame_that_cannot_be_processed() {
    let mut expected = processing();
    expected.push(FrameAction::Finish { code: -5 });
    assert_eq!(run(request(), size(1080, 1920), 0, false), expected);
}

#[test]
fn null_pointer_is_refused() {
    let refused = vec![FrameAction::Finish { code: -1 }];
    for which in 0..3 {
        let r = FrameRequest {
            engine: which != 0,
            input: which != 1,
            output: which != 2,
            ..request()
        };
        assert_eq!(run(r, size(4, 4), 0, true), refused);
    }
}

#[test]
fn sides_and_strides_have_lower_bounds() {
    let r = FrameRequest { in_stride: -5, width: -3, height: 0, ..request() };
    let actions = run(r, size(0, 0), 1, true);
    let pixel = BufferLayout { size: size(1, 1), stride: 4, length: 4 };
    assert_eq!(
        actions,
        vec![
            FrameAction::ReadOutputSize,
            FrameAction::CountFrame,
            FrameAction::ProcessPixels { timestamp_us: -7, input: pixel, output: pixel },
            FrameAction::Finish { code: 0 },
        ]
    );
}

#[test]
fn stride_of_a_layout() {
    assert_eq!(
        buffer_layout(100, size(8, 3)),
        BufferLayout { size: size(8, 3), stride: 100, length: 300 }
    );
    assert_eq!(
        buffer_layout(10, size(8, 3)),
        BufferLayout { size: size(8, 3), stride: 32, length: 96 }
    );
}

#[test]
fn wide_rows_hold_their_pixels() {
    for width in [536_870_911, 1 << 29, 1 << 30] {
        for requested in [-1, 0, 100, i32::MAX] {
            assert!(is_addressable(requested, size(width, 2)));
            let layout = buffer_layout(requested, size(width, 2));
            assert_eq!(layout.stride, (width * 4).max(requested.max(0) as usize));
            assert_eq!(layout.length, layout.stride * 2);
        }
    }
    let r = FrameRequest { in_stride: 100, width: 536_870_912, height: 1, ..request() };
    let actions = run(r, size(1, 1), 0, true);
    let wide = size(536_870_912, 1);
    assert_eq!(
        actions[2],
        FrameAction::ProcessPixels {
            timestamp_us: -7,
            input: BufferLayout { size: wide, stride: 2_147_483_648, length: 2_147_483_648 },
            output: BufferLayout { size: size(1, 1), stride: 4, length: 4 },
        }
    );
}

#[test]
fn buffer_too_large_to_address() {
    assert!(!is_addressable(4, size(1, usize::MAX)));
    assert!(!is_addressable(4, size(usize::MAX, 1)));
    assert!(!is_addressable(1, size(1, isize::MAX as usize)));
    assert!(is_addressable(4, size(1, isize::MAX as usize / 4)));
    let mut exchange = ProcessFrame::new(request());
    assert_eq!(exchange.next(FrameReply::Done), FrameAction::ReadOutputSize);
    assert!(!exchange.accepts(FrameReply::OutputSize(size(1, usize::MAX))));
    assert!(!exchange.accepts(FrameReply::Done));
    assert!(exchange.accepts(FrameReply::OutputSize(size(1, 1))));
    assert_eq!(exchange.next(FrameReply::OutputSize(size(1, 1))), FrameAction::CountFrame);
    assert!(!exchange.accepts(FrameReply::FramesBefore(u64::MAX)));
    assert!(exchange.accepts(FrameReply::FramesBefore(u64::MAX - 1)));
}
