//! Turning the picture.
//!
//! A [`SetVideoRotation`] exchange issues one action at a time and is told what came of it. It
//! waits for one fact only: the size of the video.

use crate::double::{law_quarter_turn, one_in_units, Double};
use crate::size::Size;
use vstd::arithmetic::mul::lemma_mul_is_commutative;
use vstd::arithmetic::power2::lemma_pow2_pos;
use vstd::prelude::*;

verus! {

/// What the caller asked for.
#[derive(Clone, Copy, Debug, PartialEq, Eq, Structural)]
pub struct RotationRequest {
    /// Whether there is an engine to set.
    pub engine: bool,
    /// In degrees.
    pub rotation: Double,
}

/// What is to be done next.
#[derive(Clone, Copy, Debug, PartialEq, Eq, Structural)]
pub enum RotationAction {
    SetVideoRotation { rotation: Double },
    ReadSize,
    SetOutputSize { size: Size },
    RecomputeBlocking,
    ReportRotation { rotation: Double, size: Size },
    Finish,
}

/// What came of the last action.
#[derive(Clone, Copy, Debug, PartialEq, Eq, Structural)]
pub enum RotationReply {
    Done,
    VideoSize(Size),
}

/// The size of the picture that comes out: a quarter turn swaps the sides.
pub open spec fn rotated_size(size: Size, rotation: Double) -> Size {
    if rotation.quarter_turn() {
        size.nonempty().turned()
    } else {
        size.nonempty()
    }
}

/// All that is done for a request, given the size that the engine tells.
pub open spec fn rotation_script(request: RotationRequest, size: Size) -> Seq<RotationAction> {
    let output = rotated_size(size, request.rotation);
    if request.engine {
        seq![
            RotationAction::SetVideoRotation { rotation: request.rotation },
            RotationAction::ReadSize,
            RotationAction::SetOutputSize { size: output },
            RotationAction::RecomputeBlocking,
            RotationAction::ReportRotation { rotation: request.rotation, size: output },
            RotationAction::Finish,
        ]
    } else {
        seq![RotationAction::Finish]
    }
}

/// The size of the picture that comes out of a video of the given size.
pub fn output_size(size: Size, rotation: Double) -> (output: Size)
    ensures
        output == rotated_size(size, rotation),
{
    let size = size.clamped();
    if rotation.is_quarter_turn() {
        Size { width: size.height, height: size.width }
    } else {
        size
    }
}

/// The action that comes next.
#[derive(Clone, Copy, Debug, PartialEq, Eq, Structural)]
enum RotationStage {
    Rotation,
    AskSize,
    OutputSize,
    Recompute,
    Report,
    Finish,
    Finished,
}

/// One exchange that sets the rotation.
pub struct SetVideoRotation {
    request: RotationRequest,
    size: Size,
    stage: RotationStage,
}

impl SetVideoRotation {
    pub closed spec fn request(self) -> RotationRequest {
        self.request
    }

    /// The size that was told; until then, an empty one.
    pub closed spec fn size(self) -> Size {
        self.size
    }

    /// How many actions were issued.
    pub closed spec fn count(self) -> int {
        match self.stage {
            RotationStage::Rotation => 0,
            RotationStage::AskSize => 1,
            RotationStage::OutputSize => 2,
            RotationStage::Recompute => 3,
            RotationStage::Report => 4,
            RotationStage::Finish => 5,
            RotationStage::Finished => if self.request.engine {
                6
            } else {
                1
            },
        }
    }

    /// The actions issued so far.
    pub open spec fn performed(self) -> Seq<RotationAction> {
        rotation_script(self.request(), self.size()).take(self.count())
    }

    pub closed spec fn wf(self) -> bool {
        !self.request.engine ==> self.stage is Rotation || self.stage is Finished
    }

    /// The exchange is over: its last action was to finish.
    pub open spec fn finished(self) -> bool {
        self.performed().len() > 0 && self.performed().last() is Finish
    }

    /// The last action was a question, not yet answered.
    pub open spec fn asks_size(self) -> bool {
        self.performed().len() > 0 && self.performed().last() is ReadSize
    }

    /// `reply` answers the last action.
    pub open spec fn awaits(self, reply: RotationReply) -> bool {
        &&& !self.finished()
        &&& reply is VideoSize <==> self.asks_size()
    }

    pub fn new(request: RotationRequest) -> (session: SetVideoRotation)
        ensures
            session.wf(),
            session.request() == request,
            session.size().width == 0,
            session.size().height == 0,
            session.performed() == Seq::<RotationAction>::empty(),
            session.awaits(RotationReply::Done),
    {
        SetVideoRotation {
            request,
            size: Size { width: 0, height: 0 },
            stage: RotationStage::Rotation,
        }
    }

    /// Whether `reply` answers the last action.
    pub fn accepts(&self, reply: RotationReply) -> (answer: bool)
        requires
            self.wf(),
        ensures
            answer == self.awaits(reply),
    {
        match (self.stage, reply) {
            (RotationStage::Finished, _) => false,
            (RotationStage::OutputSize, RotationReply::VideoSize(_)) => true,
            (RotationStage::OutputSize, RotationReply::Done) => false,
            (_, RotationReply::VideoSize(_)) => false,
            (_, RotationReply::Done) => true,
        }
    }

    /// Takes in what came of the last action and issues the next one.
    pub fn next(&mut self, reply: RotationReply) -> (action: RotationAction)
        requires
            old(self).wf(),
            old(self).awaits(reply),
        ensures
            final(self).wf(),
            final(self).request() == old(self).request(),
            final(self).size() == (match reply {
                RotationReply::VideoSize(size) => size,
                RotationReply::Done => old(self).size(),
            }),
            final(self).performed() == old(self).performed().push(action),
            final(self).performed().is_prefix_of(
                rotation_script(final(self).request(), final(self).size()),
            ),
            final(self).finished() <==> final(self).performed() =~= rotation_script(
                final(self).request(),
                final(self).size(),
            ),
    {
        if !self.request.engine {
            self.stage = RotationStage::Finished;
            return RotationAction::Finish;
        }
        if let RotationReply::VideoSize(size) = reply {
            self.size = size;
        }
        match self.stage {
            RotationStage::Rotation => {
                self.stage = RotationStage::AskSize;
                RotationAction::SetVideoRotation { rotation: self.request.rotation }
            },
            RotationStage::AskSize => {
                self.stage = RotationStage::OutputSize;
                RotationAction::ReadSize
            },
            RotationStage::OutputSize => {
                self.stage = RotationStage::Recompute;
                RotationAction::SetOutputSize {
                    size: output_size(self.size, self.request.rotation),
                }
            },
            RotationStage::Recompute => {
                self.stage = RotationStage::Report;
                RotationAction::RecomputeBlocking
            },
            RotationStage::Report => {
                self.stage = RotationStage::Finish;
                RotationAction::ReportRotation {
                    rotation: self.request.rotation,
                    size: output_size(self.size, self.request.rotation),
                }
            },
            RotationStage::Finish | RotationStage::Finished => {
                self.stage = RotationStage::Finished;
                RotationAction::Finish
            },
        }
    }
}

/// A picture turned by 90 or 270 degrees, either way round, has the video's sides swapped; a
/// picture turned by 0 or 180 degrees has them as they are.
pub proof fn law_quarter_turns_swap_sides(size: Size, rotation: Double)
    requires
        size.width >= 1,
        size.height >= 1,
    ensures
        rotation.has_absolute_value(90) || rotation.has_absolute_value(270) ==> rotated_size(
            size,
            rotation,
        ) == size.turned(),
        rotation.has_absolute_value(0) || rotation.has_absolute_value(180) ==> rotated_size(
            size,
            rotation,
        ) == size,
{
    lemma_pow2_pos(1074);
    let one = one_in_units();
    let angle = rotation.units();
    assert(0 * one == 0 && -0 * one == 0);
    if rotation.has_absolute_value(0) {
        assert(angle == 0);
        assert(!rotation.quarter_turn());
    }
    if rotation.has_absolute_value(180) {
        assert(angle == 180 * one || angle == -180 * one);
        assert(!rotation.quarter_turn());
    }
}

/// No rotation changes how many pixels the picture has, nor leaves a side without any.
pub proof fn law_rotation_keeps_area(size: Size, rotation: Double)
    ensures
        rotated_size(size, rotation).width >= 1,
        rotated_size(size, rotation).height >= 1,
        rotated_size(size, rotation).width * rotated_size(size, rotation).height
            == size.nonempty().width * size.nonempty().height,
{
    lemma_mul_is_commutative(size.nonempty().width as int, size.nonempty().height as int);
}

/// An exchange ends after at most six actions; to finish is its last one and no other.
pub proof fn law_rotation_ends(request: RotationRequest, size: Size)
    ensures
        1 <= rotation_script(request, size).len() <= 6,
        forall|i: int|
            0 <= i < rotation_script(request, size).len() ==> (#[trigger] rotation_script(
                request,
                size,
            )[i] is Finish <==> i == rotation_script(request, size).len() - 1),
{
}

/// Without an engine nothing is done but to finish.
pub proof fn law_no_engine_no_rotation(request: RotationRequest, size: Size)
    requires
        !request.engine,
    ensures
        rotation_script(request, size) == seq![RotationAction::Finish],
{
}

/// With an engine the output size is set in every exchange that sets the rotation, after it, and
/// the engine is recomputed once both are set.
pub proof fn law_output_size_follows_rotation(request: RotationRequest, size: Size)
    requires
        request.engine,
    ensures
        ({
            let script = rotation_script(request, size);
            &&& forall|i: int|
                0 <= i < script.len() && #[trigger] script[i] is SetVideoRotation ==> i == 0
            &&& script[0] == RotationAction::SetVideoRotation { rotation: request.rotation }
            &&& forall|i: int|
                0 <= i < script.len() && #[trigger] script[i] is SetOutputSize ==> i == 2
            &&& script[2] == RotationAction::SetOutputSize {
                size: rotated_size(size, request.rotation),
            }
            &&& script[3] is RecomputeBlocking
        }),
{
}

/// The settings that bear on how the picture lies.
pub struct PictureSettings {
    pub video_size: Size,
    pub rotation: Double,
    pub output_size: Size,
}

impl PictureSettings {
    /// The settings that one action leaves.
    pub open spec fn after_action(self, action: RotationAction) -> PictureSettings {
        match action {
            RotationAction::SetVideoRotation { rotation } => PictureSettings { rotation, ..self },
            RotationAction::SetOutputSize { size } => PictureSettings {
                output_size: size,
                ..self
            },
            RotationAction::ReadSize
            | RotationAction::RecomputeBlocking
            | RotationAction::ReportRotation { .. }
            | RotationAction::Finish => self,
        }
    }

    /// The settings that a sequence of actions leaves.
    pub open spec fn after(self, actions: Seq<RotationAction>) -> PictureSettings
        decreases actions.len(),
    {
        if actions.len() == 0 {
            self
        } else {
            self.after(actions.drop_last()).after_action(actions.last())
        }
    }

    /// The settings that an exchange leaves, which is told the video's size as it is set.
    pub open spec fn after_exchange(self, request: RotationRequest) -> PictureSettings {
        self.after(rotation_script(request, self.video_size))
    }
}

/// An exchange leaves the rotation that was asked for and the output size that goes with it, and
/// does not touch the video's own size; so of two exchanges with one engine the last one wins.
pub proof fn law_last_rotation_wins(
    settings: PictureSettings,
    first: RotationRequest,
    second: RotationRequest,
)
    requires
        first.engine,
        second.engine,
    ensures
        settings.after_exchange(second) == (PictureSettings {
            video_size: settings.video_size,
            rotation: second.rotation,
            output_size: rotated_size(settings.video_size, second.rotation),
        }),
        settings.after_exchange(first).after_exchange(second) == settings.after_exchange(second),
{
    reveal_with_fuel(PictureSettings::after, 7);
}

/// The order of an exchange. With an engine: the rotation, the question about the video's size, the
/// output size, recomputation, report, end; so the output size is never set before the engine told
/// the size in the same exchange. Without an engine: the end.
pub proof fn law_rotation_order(request: RotationRequest, size: Size)
    ensures
        ({
            let script = rotation_script(request, size);
            &&& !request.engine ==> script.len() == 1 && script[0] is Finish
            &&& request.engine ==> {
                &&& script.len() == 6
                &&& script[0] is SetVideoRotation
                &&& script[1] is ReadSize
                &&& script[2] is SetOutputSize
                &&& script[3] is RecomputeBlocking
                &&& script[4] is ReportRotation
                &&& script[5] is Finish
            }
        }),
{
}

/// The rotation is passed on bit for bit. The sides of the output size, where the video has no
/// empty side, are the video's: swapped where the rotation's value, or its negative, is 90 or 270
/// times that of one, and as they are where it is any other or not a number. An empty side counts
/// as one pixel. The report tells what was set.
pub proof fn law_rotation_numbers(request: RotationRequest, size: Size)
    requires
        request.engine,
    ensures
        ({
            let script = rotation_script(request, size);
            let output = script[2]->SetOutputSize_size;
            let one = Double::from_bits(0x3ff0_0000_0000_0000).units();
            let angle = request.rotation.units();
            let swapped = !request.rotation.not_a_number() && (angle == 90 * one || angle == -90
                * one || angle == 270 * one || angle == -270 * one);
            let width = if size.width == 0 {
                1int
            } else {
                size.width as int
            };
            let height = if size.height == 0 {
                1int
            } else {
                size.height as int
            };
            &&& script[0]->SetVideoRotation_rotation.bits == request.rotation.bits
            &&& swapped ==> output.width == height && output.height == width
            &&& !swapped ==> output.width == width && output.height == height
            &&& script[4]->ReportRotation_rotation.bits == request.rotation.bits
            &&& script[4]->ReportRotation_size == output
        }),
{
    law_quarter_turn(request.rotation);
}

/// The same of the size alone: swapped for a quarter turn, as it is for any other rotation, with an
/// empty side counted as one pixel.
pub proof fn law_rotated_size(size: Size, rotation: Double)
    ensures
        ({
            let output = rotated_size(size, rotation);
            let one = Double::from_bits(0x3ff0_0000_0000_0000).units();
            let angle = rotation.units();
            let swapped = !rotation.not_a_number() && (angle == 90 * one || angle == -90 * one
                || angle == 270 * one || angle == -270 * one);
            let (across, down) = if swapped {
                (size.height, size.width)
            } else {
                (size.width, size.height)
            };
            &&& across >= 1 ==> output.width == across
            &&& across == 0 ==> output.width == 1
            &&& down >= 1 ==> output.height == down
            &&& down == 0 ==> output.height == 1
        }),
{
    law_quarter_turn(rotation);
}

/// Two videos of different sizes, neither with an empty side, never get the same output size from
/// the same rotation.
pub proof fn law_output_size_tells_videos_apart(rotation: Double, one: Size, other: Size)
    requires
        one.width >= 1,
        one.height >= 1,
        other.width >= 1,
        other.height >= 1,
        rotated_size(one, rotation) == rotated_size(other, rotation),
    ensures
        one == other,
{
}

/// What an exchange waits for: the video's size, any at all, after the question about it; nothing
/// after the end; and otherwise only that the last action is done.
pub proof fn law_rotation_answers(session: SetVideoRotation, reply: RotationReply)
    requires
        session.wf(),
    ensures
        ({
            let performed = session.performed();
            let last = performed[performed.len() - 1];
            let started = performed.len() > 0;
            &&& performed.is_prefix_of(rotation_script(session.request(), session.size()))
            &&& session.finished() <==> started && last is Finish
            &&& started && last is Finish ==> !session.awaits(reply)
            &&& started && last is ReadSize ==> (session.awaits(reply) <==> reply is VideoSize)
            &&& !started || !(last is Finish || last is ReadSize) ==> (session.awaits(reply)
                <==> reply is Done)
        }),
{
}

} // verus!
