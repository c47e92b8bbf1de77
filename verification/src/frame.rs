//! Stabilising one frame.
//!
//! A [`ProcessFrame`] exchange issues one action at a time and is told what came of it. It waits
//! for the size of the picture that comes out, for the number of frames before this one, and for
//! whether the engine could process the pixels.

use crate::size::Size;
use crate::status::{CANNOT_PROCESS, NULL_ARGUMENT, SUCCESS};
use vstd::prelude::*;

verus! {

/// Bytes of one pixel.
pub const PIXEL_BYTES: usize = 4;

/// One frame in so many is reported, beginning with the first.
pub const REPORT_PERIOD: u64 = 60;

/// What the caller asked for.
#[derive(Clone, Copy, Debug, PartialEq, Eq, Structural)]
pub struct FrameRequest {
    /// Whether there is an engine to use.
    pub engine: bool,
    /// Whether there is a buffer to read.
    pub input: bool,
    /// Whether there is a buffer to write.
    pub output: bool,
    pub timestamp_us: i64,
    pub in_stride: i32,
    pub out_stride: i32,
    pub width: i32,
    pub height: i32,
}

/// A buffer of rows, each `stride` bytes after the one before.
#[derive(Clone, Copy, Debug, PartialEq, Eq, Structural)]
pub struct BufferLayout {
    pub size: Size,
    pub stride: usize,
    /// Bytes of the whole buffer.
    pub length: usize,
}

/// What is to be done next.
#[derive(Clone, Copy, Debug, PartialEq, Eq, Structural)]
pub enum FrameAction {
    ReadOutputSize,
    /// Counts this frame and tells how many were counted before it.
    CountFrame,
    ProcessPixels { timestamp_us: i64, input: BufferLayout, output: BufferLayout },
    ReportFrame { number: u64 },
    Finish { code: i32 },
}

/// What came of the last action.
#[derive(Clone, Copy, Debug, PartialEq, Eq, Structural)]
pub enum FrameReply {
    Done,
    OutputSize(Size),
    FramesBefore(u64),
    Processed(bool),
}

/// What an exchange was told.
#[derive(Clone, Copy, Debug, PartialEq, Eq, Structural)]
pub struct FrameFacts {
    pub output_size: Size,
    pub frames_before: u64,
    pub processed: bool,
}

impl FrameFacts {
    /// The facts once `reply` was heard.
    pub open spec fn with(self, reply: FrameReply) -> FrameFacts {
        match reply {
            FrameReply::Done => self,
            FrameReply::OutputSize(size) => FrameFacts { output_size: size, ..self },
            FrameReply::FramesBefore(count) => FrameFacts { frames_before: count, ..self },
            FrameReply::Processed(success) => FrameFacts { processed: success, ..self },
        }
    }
}

/// The bytes from one row to the next: what the caller asked for, or the bytes of a row's pixels
/// where it is less.
pub open spec fn row_stride(requested: i32, width: usize) -> int {
    let row_bytes = width * PIXEL_BYTES;
    if requested < row_bytes {
        row_bytes
    } else {
        requested as int
    }
}

/// The buffer's bytes can be counted and addressed.
pub open spec fn buffer_addressable(requested: i32, size: Size) -> bool {
    &&& size.width * PIXEL_BYTES <= usize::MAX
    &&& row_stride(requested, size.width) * size.height <= isize::MAX
}

pub open spec fn layout_of(requested: i32, size: Size) -> BufferLayout {
    let stride = row_stride(requested, size.width);
    BufferLayout { size, stride: stride as usize, length: (stride * size.height) as usize }
}

/// The size of the frame that comes in.
pub open spec fn input_size(request: FrameRequest) -> Size {
    Size::of_sides(request.width as int, request.height as int)
}

/// Both buffers can be addressed when the picture that comes out has the size `output_size`.
pub open spec fn frame_addressable(request: FrameRequest, output_size: Size) -> bool {
    &&& buffer_addressable(request.in_stride, input_size(request))
    &&& buffer_addressable(request.out_stride, output_size.nonempty())
}

/// The first frame, and every sixtieth after it.
pub open spec fn frame_reported(number: int) -> bool {
    number % REPORT_PERIOD as int == 1
}

/// All that is done for a request, given what the engine tells.
pub open spec fn frame_script(request: FrameRequest, facts: FrameFacts) -> Seq<FrameAction> {
    let number = facts.frames_before + 1;
    if !request.engine || !request.input || !request.output {
        seq![FrameAction::Finish { code: NULL_ARGUMENT }]
    } else {
        seq![
            FrameAction::ReadOutputSize,
            FrameAction::CountFrame,
            FrameAction::ProcessPixels {
                timestamp_us: request.timestamp_us,
                input: layout_of(request.in_stride, input_size(request)),
                output: layout_of(request.out_stride, facts.output_size.nonempty()),
            },
        ] + (if facts.processed && frame_reported(number) {
            seq![FrameAction::ReportFrame { number: number as u64 }]
        } else {
            seq![]
        }) + seq![
            FrameAction::Finish {
                code: if facts.processed {
                    SUCCESS
                } else {
                    CANNOT_PROCESS
                },
            },
        ]
    }
}

fn stride_of(requested: i32, width: usize) -> (stride: usize)
    requires
        width * PIXEL_BYTES <= usize::MAX,
    ensures
        stride == row_stride(requested, width),
{
    let row_bytes: usize = width * PIXEL_BYTES;
    if requested < 0 || (requested as usize) < row_bytes {
        row_bytes
    } else {
        requested as usize
    }
}

/// Whether a buffer of rows of `size` can be addressed.
pub fn is_addressable(requested: i32, size: Size) -> (answer: bool)
    ensures
        answer == buffer_addressable(requested, size),
{
    if size.width > usize::MAX / PIXEL_BYTES {
        return false;
    }
    match stride_of(requested, size.width).checked_mul(size.height) {
        Some(length) => length <= isize::MAX as usize,
        None => false,
    }
}

/// The layout of a buffer of rows of `size`.
pub fn buffer_layout(requested: i32, size: Size) -> (layout: BufferLayout)
    requires
        buffer_addressable(requested, size),
    ensures
        layout == layout_of(requested, size),
        layout.stride == row_stride(requested, size.width),
        layout.length == layout.stride * layout.size.height,
{
    let stride: usize = stride_of(requested, size.width);
    BufferLayout { size, stride, length: stride * size.height }
}

/// The action that comes next, as far as the request alone decides it.
#[derive(Clone, Copy, Debug, PartialEq, Eq, Structural)]
enum FrameStage {
    AskOutputSize,
    HearOutputSize,
    HearFramesBefore,
    HearProcessed,
    Finish,
    Finished,
}

/// One exchange that processes a frame.
pub struct ProcessFrame {
    request: FrameRequest,
    facts: FrameFacts,
    stage: FrameStage,
}

impl ProcessFrame {
    pub closed spec fn request(self) -> FrameRequest {
        self.request
    }

    /// What was told so far.
    pub closed spec fn facts(self) -> FrameFacts {
        self.facts
    }

    /// How many actions were issued.
    pub closed spec fn count(self) -> int {
        match self.stage {
            FrameStage::AskOutputSize => 0,
            FrameStage::HearOutputSize => 1,
            FrameStage::HearFramesBefore => 2,
            FrameStage::HearProcessed => 3,
            FrameStage::Finish => 4,
            FrameStage::Finished => frame_script(self.request, self.facts).len() as int,
        }
    }

    /// The actions issued so far.
    pub open spec fn performed(self) -> Seq<FrameAction> {
        frame_script(self.request(), self.facts()).take(self.count())
    }

    pub closed spec fn wf(self) -> bool {
        &&& self.stage is AskOutputSize || self.stage is Finished || (self.request.engine
            && self.request.input && self.request.output)
        &&& self.stage is HearFramesBefore ==> frame_addressable(
            self.request,
            self.facts.output_size,
        )
        &&& self.stage is HearProcessed || self.stage is Finish ==> self.facts.frames_before
            < u64::MAX
        &&& self.stage is Finish ==> self.facts.processed && frame_reported(
            self.facts.frames_before + 1,
        )
    }

    /// The exchange is over: its last action was to finish.
    pub open spec fn finished(self) -> bool {
        self.performed().len() > 0 && self.performed().last() is Finish
    }

    /// `reply` answers the last action, and the numbers that follow from it can be counted.
    pub open spec fn awaits(self, reply: FrameReply) -> bool {
        if self.performed().len() == 0 {
            reply is Done
        } else {
            match self.performed().last() {
                FrameAction::ReadOutputSize => reply is OutputSize && frame_addressable(
                    self.request(),
                    reply->OutputSize_0,
                ),
                FrameAction::CountFrame => reply is FramesBefore && reply->FramesBefore_0
                    < u64::MAX,
                FrameAction::ProcessPixels { .. } => reply is Processed,
                FrameAction::ReportFrame { .. } => reply is Done,
                FrameAction::Finish { .. } => false,
            }
        }
    }

    pub fn new(request: FrameRequest) -> (session: ProcessFrame)
        ensures
            session.wf(),
            session.request() == request,
            session.facts().output_size.width == 0,
            session.facts().output_size.height == 0,
            session.facts().frames_before == 0,
            !session.facts().processed,
            session.performed() == Seq::<FrameAction>::empty(),
            session.awaits(FrameReply::Done),
    {
        ProcessFrame {
            request,
            facts: FrameFacts {
                output_size: Size { width: 0, height: 0 },
                frames_before: 0,
                processed: false,
            },
            stage: FrameStage::AskOutputSize,
        }
    }

    /// Whether `reply` answers the last action, and the numbers that follow from it can be
    /// counted.
    pub fn accepts(&self, reply: FrameReply) -> (answer: bool)
        requires
            self.wf(),
        ensures
            answer == self.awaits(reply),
    {
        match (self.stage, reply) {
            (FrameStage::AskOutputSize, FrameReply::Done) => true,
            (FrameStage::HearOutputSize, FrameReply::OutputSize(size)) => {
                is_addressable(
                    self.request.in_stride,
                    Size::from_sides(self.request.width, self.request.height),
                ) && is_addressable(self.request.out_stride, size.clamped())
            },
            (FrameStage::HearFramesBefore, FrameReply::FramesBefore(count)) => count < u64::MAX,
            (FrameStage::HearProcessed, FrameReply::Processed(_)) => true,
            (FrameStage::Finish, FrameReply::Done) => true,
            _ => false,
        }
    }

    /// Takes in what came of the last action and issues the next one.
    pub fn next(&mut self, reply: FrameReply) -> (action: FrameAction)
        requires
            old(self).wf(),
            old(self).awaits(reply),
        ensures
            final(self).wf(),
            final(self).request() == old(self).request(),
            final(self).facts() == old(self).facts().with(reply),
            final(self).performed() == old(self).performed().push(action),
            final(self).performed().is_prefix_of(
                frame_script(final(self).request(), final(self).facts()),
            ),
            final(self).finished() <==> final(self).performed() =~= frame_script(
                final(self).request(),
                final(self).facts(),
            ),
    {
        if !self.request.engine || !self.request.input || !self.request.output {
            self.stage = FrameStage::Finished;
            return FrameAction::Finish { code: NULL_ARGUMENT };
        }
        match reply {
            FrameReply::Done => {},
            FrameReply::OutputSize(size) => {
                self.facts.output_size = size;
            },
            FrameReply::FramesBefore(count) => {
                self.facts.frames_before = count;
            },
            FrameReply::Processed(success) => {
                self.facts.processed = success;
            },
        }
        match self.stage {
            FrameStage::AskOutputSize => {
                self.stage = FrameStage::HearOutputSize;
                FrameAction::ReadOutputSize
            },
            FrameStage::HearOutputSize => {
                self.stage = FrameStage::HearFramesBefore;
                FrameAction::CountFrame
            },
            FrameStage::HearFramesBefore => {
                self.stage = FrameStage::HearProcessed;
                FrameAction::ProcessPixels {
                    timestamp_us: self.request.timestamp_us,
                    input: buffer_layout(
                        self.request.in_stride,
                        Size::from_sides(self.request.width, self.request.height),
                    ),
                    output: buffer_layout(
                        self.request.out_stride,
                        self.facts.output_size.clamped(),
                    ),
                }
            },
            FrameStage::HearProcessed => {
                let number: u64 = self.facts.frames_before + 1;
                if !self.facts.processed {
                    self.stage = FrameStage::Finished;
                    FrameAction::Finish { code: CANNOT_PROCESS }
                } else if number % REPORT_PERIOD == 1 {
                    self.stage = FrameStage::Finish;
                    FrameAction::ReportFrame { number }
                } else {
                    self.stage = FrameStage::Finished;
                    FrameAction::Finish { code: SUCCESS }
                }
            },
            FrameStage::Finish | FrameStage::Finished => {
                self.stage = FrameStage::Finished;
                FrameAction::Finish { code: SUCCESS }
            },
        }
    }
}

/// An exchange ends after at most five actions; to finish is its last one and no other.
pub proof fn law_frame_ends(request: FrameRequest, facts: FrameFacts)
    ensures
        1 <= frame_script(request, facts).len() <= 5,
        forall|i: int|
            0 <= i < frame_script(request, facts).len() ==> (#[trigger] frame_script(
                request,
                facts,
            )[i] is Finish <==> i == frame_script(request, facts).len() - 1),
{
}

/// A null pointer is answered with its own code, and nothing else is done.
pub proof fn law_null_pointer_refused(request: FrameRequest, facts: FrameFacts)
    ensures
        !(request.engine && request.input && request.output) <==> frame_script(request, facts)
            =~= seq![FrameAction::Finish { code: NULL_ARGUMENT }],
{
    assert(request.engine && request.input && request.output ==> frame_script(
        request,
        facts,
    )[0] is ReadOutputSize);
}

/// With all pointers given, the pixels are processed exactly once and the answer says whether
/// that worked.
pub proof fn law_frame_answer(request: FrameRequest, facts: FrameFacts)
    requires
        request.engine && request.input && request.output,
    ensures
        ({
            let script = frame_script(request, facts);
            &&& script[2] is ProcessPixels
            &&& forall|i: int|
                0 <= i < script.len() && #[trigger] script[i] is ProcessPixels ==> i == 2
            &&& script.last() == FrameAction::Finish {
                code: if facts.processed {
                    SUCCESS
                } else {
                    CANNOT_PROCESS
                },
            }
        }),
{
}

/// A row has room for its pixels and for what the caller asked, no more than the larger of both,
/// and the buffer has room for all rows.
pub proof fn law_rows_hold_their_pixels(requested: i32, size: Size)
    requires
        buffer_addressable(requested, size),
    ensures
        ({
            let layout = layout_of(requested, size);
            &&& layout.size == size
            &&& layout.stride >= 4 * size.width
            &&& layout.stride >= requested
            &&& layout.stride == 4 * size.width || layout.stride == requested
            &&& layout.length == layout.stride * size.height
            &&& layout.length >= 4 * size.width * size.height
        }),
{
    let stride = row_stride(requested, size.width);
    assert(0 <= stride * size.height && 4 * size.width * size.height <= stride * size.height)
        by (nonlinear_arith)
        requires
            0 <= 4 * size.width <= stride,
            0 <= size.height,
    ;
}

/// Whatever the request and whatever the engine tells, both buffers that are handed over have
/// room for their pixels in every row.
pub proof fn law_frame_rows_hold_their_pixels(request: FrameRequest, facts: FrameFacts, i: int)
    requires
        0 <= i < frame_script(request, facts).len(),
        frame_addressable(request, facts.output_size),
    ensures
        match frame_script(request, facts)[i] {
            FrameAction::ProcessPixels { input, output, .. } => {
                &&& input.size == input_size(request)
                &&& input.stride >= input.size.width * PIXEL_BYTES
                &&& input.length == input.stride * input.size.height
                &&& output.size == facts.output_size.nonempty()
                &&& output.stride >= output.size.width * PIXEL_BYTES
                &&& output.length == output.stride * output.size.height
            },
            _ => true,
        },
{
    law_rows_hold_their_pixels(request.in_stride, input_size(request));
    law_rows_hold_their_pixels(request.out_stride, facts.output_size.nonempty());
}

/// The first frame is reported, and of any sixty frames in a row exactly one is.
pub proof fn law_one_report_in_a_period(first: int)
    requires
        first >= 1,
    ensures
        frame_reported(1),
        exists|number: int|
            first <= number < first + REPORT_PERIOD && #[trigger] frame_reported(number),
        forall|a: int, b: int|
            first <= a < first + REPORT_PERIOD && first <= b < first + REPORT_PERIOD
                && #[trigger] frame_reported(a) && #[trigger] frame_reported(b) ==> a == b,
{
    let offset = (1 - first) % 60;
    assert(frame_reported(first + offset));
}

/// The order of an exchange. With all pointers given: the question about the output size, the
/// count, the pixels, a report where they were processed and the frame is one more than a multiple
/// of sixty, the end. With a null pointer: the end.
pub proof fn law_frame_order(request: FrameRequest, facts: FrameFacts)
    ensures
        ({
            let script = frame_script(request, facts);
            let number = facts.frames_before + 1;
            let reported = facts.processed && number % 60 == 1;
            &&& !request.engine || !request.input || !request.output ==> script.len() == 1
                && script[0] is Finish && script[0]->code == -1
            &&& request.engine && request.input && request.output ==> {
                &&& script.len() == (if reported {
                    5int
                } else {
                    4
                })
                &&& script[0] is ReadOutputSize
                &&& script[1] is CountFrame
                &&& script[2] is ProcessPixels
                &&& reported && number <= u64::MAX ==> script[3] is ReportFrame
                    && script[3]->number == number
                &&& script.last() is Finish
                &&& script.last()->code == (if facts.processed {
                    0int
                } else {
                    -5
                })
            }
        }),
{
}

/// What is handed over with the pixels. The time stamp is the caller's. A side is the caller's, or
/// the engine's for the picture that comes out, and one pixel where that is less. A stride is the
/// caller's where that is at least four bytes a pixel, and exactly four bytes a pixel otherwise.
/// A length is the stride times the height.
pub proof fn law_frame_numbers(request: FrameRequest, facts: FrameFacts)
    requires
        request.engine && request.input && request.output,
        frame_addressable(request, facts.output_size),
    ensures
        ({
            let script = frame_script(request, facts);
            let (input, output) = (script[2]->input, script[2]->output);
            let told = facts.output_size;
            &&& script[2]->timestamp_us == request.timestamp_us
            &&& input.size.width == (if request.width < 1 {
                1int
            } else {
                request.width as int
            })
            &&& input.size.height == (if request.height < 1 {
                1int
            } else {
                request.height as int
            })
            &&& output.size.width == (if told.width == 0 {
                1int
            } else {
                told.width as int
            })
            &&& output.size.height == (if told.height == 0 {
                1int
            } else {
                told.height as int
            })
            &&& request.in_stride >= 4 * input.size.width ==> input.stride == request.in_stride
            &&& request.in_stride < 4 * input.size.width ==> input.stride == 4 * input.size.width
            &&& request.out_stride >= 4 * output.size.width ==> output.stride == request.out_stride
            &&& request.out_stride < 4 * output.size.width ==> output.stride == 4
                * output.size.width
            &&& input.length == input.stride * input.size.height
            &&& output.length == output.stride * output.size.height
        }),
{
    law_rows_hold_their_pixels(request.in_stride, input_size(request));
    law_rows_hold_their_pixels(request.out_stride, facts.output_size.nonempty());
}

/// A buffer can be addressed exactly where four bytes a pixel can be counted for a row, and the
/// larger of those and the caller's stride, times the height, is a length that memory can have.
pub proof fn law_addressable(requested: i32, size: Size)
    ensures
        ({
            let row = 4 * size.width;
            let stride = if requested >= row {
                requested as int
            } else {
                row
            };
            buffer_addressable(requested, size) <==> row <= usize::MAX && stride * size.height
                <= isize::MAX
        }),
{
}

/// A frame can be addressed exactly where both of its buffers can, empty sides taken as one pixel.
pub proof fn law_frame_addressable(request: FrameRequest, told: Size)
    ensures
        frame_addressable(request, told) <==> buffer_addressable(
            request.in_stride,
            (Size {
                width: (if request.width < 1 {
                    1int
                } else {
                    request.width as int
                }) as usize,
                height: (if request.height < 1 {
                    1int
                } else {
                    request.height as int
                }) as usize,
            }),
        ) && buffer_addressable(
            request.out_stride,
            (Size {
                width: (if told.width == 0 {
                    1int
                } else {
                    told.width as int
                }) as usize,
                height: (if told.height == 0 {
                    1int
                } else {
                    told.height as int
                }) as usize,
            }),
        ),
{
}

/// Each answer changes the fact that it tells, and no other.
pub proof fn law_frame_facts(facts: FrameFacts, reply: FrameReply)
    ensures
        ({
            let told = facts.with(reply);
            &&& reply is OutputSize ==> told.output_size == reply->OutputSize_0
            &&& !(reply is OutputSize) ==> told.output_size == facts.output_size
            &&& reply is FramesBefore ==> told.frames_before == reply->FramesBefore_0
            &&& !(reply is FramesBefore) ==> told.frames_before == facts.frames_before
            &&& reply is Processed ==> told.processed == reply->Processed_0
            &&& !(reply is Processed) ==> told.processed == facts.processed
        }),
{
}

/// What an exchange waits for: after a question its own kind of answer, where the numbers that
/// follow from it can be counted; nothing after the end; and otherwise only that the last action
/// is done.
pub proof fn law_frame_answers(session: ProcessFrame, reply: FrameReply)
    requires
        session.wf(),
    ensures
        ({
            let performed = session.performed();
            let last = performed[performed.len() - 1];
            let started = performed.len() > 0;
            &&& performed.is_prefix_of(frame_script(session.request(), session.facts()))
            &&& session.finished() <==> started && last is Finish
            &&& !started ==> (session.awaits(reply) <==> reply is Done)
            &&& started && last is Finish ==> !session.awaits(reply)
            &&& started && last is ReportFrame ==> (session.awaits(reply) <==> reply is Done)
            &&& started && last is ReadOutputSize ==> (session.awaits(reply) <==> reply
                is OutputSize && frame_addressable(session.request(), reply->OutputSize_0))
            &&& started && last is CountFrame ==> (session.awaits(reply) <==> reply
                is FramesBefore && reply->FramesBefore_0 + 1 <= u64::MAX)
            &&& started && last is ProcessPixels ==> (session.awaits(reply) <==> reply
                is Processed)
        }),
{
}

} // verus!
