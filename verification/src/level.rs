//! Choosing how strongly the engine stabilises.
//!
//! A [`SetLevel`] exchange issues one action at a time and is told what came of it. It waits for
//! one fact only: the sensor readout time that the recording came with.

use crate::double::{
    law_values_tell_numbers_apart, lemma_exactly, lemma_nearest, lemma_one, lemma_rank_orders, Double,
    INFINITY, ONE, ZERO,
};
use vstd::arithmetic::power2::lemma2_to64_rest;
use vstd::prelude::*;

verus! {

/// Smoothing time constant of each level, in seconds: none when off, then 0.55, 0.70 and 0.85.
pub const SMOOTHNESS: [u64; 4] = [
    0,
    0x3fe1_9999_9999_999a,
    0x3fe6_6666_6666_6666,
    0x3feb_3333_3333_3333,
];

/// Adaptive zoom window of each level, in seconds: none when off, then 2.5, 3.5 and 5.
pub const ZOOM_WINDOW: [u64; 4] = [
    0,
    0x4004_0000_0000_0000,
    0x400c_0000_0000_0000,
    0x4014_0000_0000_0000,
];

/// Horizon lock of each level, in percent: none when off, then 60, 85 and 90.
pub const HORIZON_LOCK: [u64; 4] = [
    0,
    0x404e_0000_0000_0000,
    0x4055_4000_0000_0000,
    0x4056_8000_0000_0000,
];

/// The pattern of 0.01, the slowest playback speed that is passed on.
pub const SLOWEST_SPEED: u64 = 0x3f84_7ae1_47ae_147b;

/// The pattern of 5.
pub const FIVE: u64 = 0x4014_0000_0000_0000;

/// The pattern of 500.
pub const FIVE_HUNDRED: u64 = 0x407f_4000_0000_0000;

/// The pattern of 12, the readout time in milliseconds of a sensor that does not tell its own.
pub const USUAL_READOUT_TIME: u64 = 0x4028_0000_0000_0000;

/// The pattern of 140, the largest zoom in percent.
pub const LARGEST_ZOOM: u64 = 0x4061_8000_0000_0000;

/// Zoom that adapts to the shake.
pub const ADAPTIVE_ZOOMING: i32 = 1;

/// Horizon found with the VQF filter.
pub const VQF_INTEGRATION: i32 = 1;

/// How many times the zoom limit is refined.
pub const ZOOM_LIMIT_ITERATIONS: usize = 5;

/// What the caller asked for.
#[derive(Clone, Copy, Debug, PartialEq, Eq, Structural)]
pub struct LevelRequest {
    /// Whether there is an engine to set.
    pub engine: bool,
    /// 0 is off, 1 is low, 2 is medium, 3 is high.
    pub level: i32,
    pub video_speed: Double,
}

/// What is to be done next.
#[derive(Clone, Copy, Debug, PartialEq, Eq)]
pub enum LevelAction {
    SetSmoothness { seconds: Double },
    SetAdaptiveZoom { window_seconds: Double },
    SetZoomingMethod { method: i32 },
    /// The flags follow the speed in the engine's order.
    SetVideoSpeed { speed: Double, flags: (bool, bool, bool) },
    /// The automatic lock's switch and four limits follow the pitch in the engine's order.
    SetHorizonLock {
        percent: Double,
        roll: Double,
        lock_pitch: bool,
        pitch: Double,
        automatic: bool,
        limits: (Double, Double, Double, Double),
    },
    SetHorizonLockIntegration { method: i32 },
    ReadFrameReadoutTime,
    SetReadoutTopToBottom,
    SetFrameReadoutTime { milliseconds: Double },
    SetMaxZoom { percent: Double, iterations: usize },
    SetLensCorrection { amount: Double },
    RecomputeBlocking,
    ReportFovs,
    Finish,
}

/// What came of the last action.
#[derive(Clone, Copy, Debug, PartialEq, Eq, Structural)]
pub enum LevelReply {
    Done,
    ReadoutTime(Double),
}

/// The level that a caller's number stands for. Zero is off: no smoothing, no zoom window and no
/// horizon lock. A negative number stands for the lowest level, one above 3 for the highest.
pub open spec fn effective_level(level: i32) -> int {
    if level < 0 {
        1
    } else if level > 3 {
        3
    } else {
        level as int
    }
}

/// A readout time that is zero or less says that the recording came without one.
pub open spec fn readout_time_missing(milliseconds: Double) -> bool {
    !milliseconds.not_a_number() && milliseconds.units() <= 0
}

/// The settings that depend on the request alone, up to the question about the readout time.
pub open spec fn level_opening(request: LevelRequest) -> Seq<LevelAction> {
    let level = effective_level(request.level);
    seq![
        LevelAction::SetSmoothness { seconds: Double::from_bits(SMOOTHNESS[level]) },
        LevelAction::SetAdaptiveZoom { window_seconds: Double::from_bits(ZOOM_WINDOW[level]) },
        LevelAction::SetZoomingMethod { method: ADAPTIVE_ZOOMING },
        LevelAction::SetVideoSpeed {
            speed: request.video_speed.larger_spec(Double::from_bits(SLOWEST_SPEED)),
            flags: (false, false, false),
        },
        LevelAction::SetHorizonLock {
            percent: Double::from_bits(HORIZON_LOCK[level]),
            roll: Double::from_bits(ZERO),
            lock_pitch: false,
            pitch: Double::from_bits(ZERO),
            automatic: false,
            limits: (
                Double::from_bits(FIVE),
                Double::from_bits(FIVE_HUNDRED),
                Double::from_bits(ONE),
                Double::from_bits(INFINITY),
            ),
        },
        LevelAction::SetHorizonLockIntegration { method: VQF_INTEGRATION },
        LevelAction::ReadFrameReadoutTime,
    ]
}

/// What makes up for a missing readout time.
pub open spec fn readout_fallback(readout_time: Double) -> Seq<LevelAction> {
    if readout_time_missing(readout_time) {
        seq![
            LevelAction::SetReadoutTopToBottom,
            LevelAction::SetFrameReadoutTime {
                milliseconds: Double::from_bits(USUAL_READOUT_TIME),
            },
        ]
    } else {
        seq![]
    }
}

pub open spec fn level_closing() -> Seq<LevelAction> {
    seq![
        LevelAction::SetMaxZoom {
            percent: Double::from_bits(LARGEST_ZOOM),
            iterations: ZOOM_LIMIT_ITERATIONS,
        },
        LevelAction::SetLensCorrection { amount: Double::from_bits(ZERO) },
        LevelAction::RecomputeBlocking,
        LevelAction::ReportFovs,
        LevelAction::Finish,
    ]
}

/// All that is done for a request, given the readout time that the engine tells.
pub open spec fn level_script(request: LevelRequest, readout_time: Double) -> Seq<LevelAction> {
    if request.engine {
        level_opening(request) + readout_fallback(readout_time) + level_closing()
    } else {
        seq![LevelAction::Finish]
    }
}

/// The action that comes next, as far as the request alone decides it.
#[derive(Clone, Copy, Debug, PartialEq, Eq, Structural)]
enum LevelStage {
    Smoothness,
    AdaptiveZoom,
    ZoomingMethod,
    VideoSpeed,
    HorizonLock,
    HorizonLockIntegration,
    AskReadoutTime,
    HearReadoutTime,
    ReadoutTime,
    MaxZoom,
    LensCorrection,
    Recompute,
    Report,
    Finish,
    Finished,
}

/// One exchange that sets the level.
pub struct SetLevel {
    request: LevelRequest,
    readout_time: Double,
    stage: LevelStage,
}

impl SetLevel {
    pub closed spec fn request(self) -> LevelRequest {
        self.request
    }

    /// The readout time that was told; until then, zero.
    pub closed spec fn readout_time(self) -> Double {
        self.readout_time
    }

    /// How many actions were issued.
    pub closed spec fn count(self) -> int {
        let extra = if readout_time_missing(self.readout_time) {
            2int
        } else {
            0
        };
        match self.stage {
            LevelStage::Smoothness => 0,
            LevelStage::AdaptiveZoom => 1,
            LevelStage::ZoomingMethod => 2,
            LevelStage::VideoSpeed => 3,
            LevelStage::HorizonLock => 4,
            LevelStage::HorizonLockIntegration => 5,
            LevelStage::AskReadoutTime => 6,
            LevelStage::HearReadoutTime => 7,
            LevelStage::ReadoutTime => 8,
            LevelStage::MaxZoom => 9,
            LevelStage::LensCorrection => 8 + extra,
            LevelStage::Recompute => 9 + extra,
            LevelStage::Report => 10 + extra,
            LevelStage::Finish => 11 + extra,
            LevelStage::Finished => if self.request.engine {
                12 + extra
            } else {
                1
            },
        }
    }

    /// The actions issued so far.
    pub open spec fn performed(self) -> Seq<LevelAction> {
        level_script(self.request(), self.readout_time()).take(self.count())
    }

    pub closed spec fn wf(self) -> bool {
        &&& !self.request.engine ==> self.stage is Smoothness || self.stage is Finished
        &&& self.stage is ReadoutTime || self.stage is MaxZoom ==> readout_time_missing(
            self.readout_time,
        )
    }

    /// The exchange is over: its last action was to finish.
    pub open spec fn finished(self) -> bool {
        self.performed().len() > 0 && self.performed().last() is Finish
    }

    /// The last action was a question, not yet answered.
    pub open spec fn asks_readout_time(self) -> bool {
        self.performed().len() > 0 && self.performed().last() is ReadFrameReadoutTime
    }

    /// `reply` answers the last action.
    pub open spec fn awaits(self, reply: LevelReply) -> bool {
        &&& !self.finished()
        &&& reply is ReadoutTime <==> self.asks_readout_time()
    }

    pub fn new(request: LevelRequest) -> (session: SetLevel)
        ensures
            session.wf(),
            session.request() == request,
            session.readout_time().bits == 0,
            session.performed() == Seq::<LevelAction>::empty(),
            session.awaits(LevelReply::Done),
    {
        SetLevel {
            request,
            readout_time: Double::from_bits(ZERO),
            stage: LevelStage::Smoothness,
        }
    }

    /// Whether `reply` answers the last action.
    pub fn accepts(&self, reply: LevelReply) -> (answer: bool)
        requires
            self.wf(),
        ensures
            answer == self.awaits(reply),
    {
        match (self.stage, reply) {
            (LevelStage::Finished, _) => false,
            (LevelStage::HearReadoutTime, LevelReply::ReadoutTime(_)) => true,
            (LevelStage::HearReadoutTime, LevelReply::Done) => false,
            (_, LevelReply::ReadoutTime(_)) => false,
            (_, LevelReply::Done) => true,
        }
    }

    /// Takes in what came of the last action and issues the next one.
    pub fn next(&mut self, reply: LevelReply) -> (action: LevelAction)
        requires
            old(self).wf(),
            old(self).awaits(reply),
        ensures
            final(self).wf(),
            final(self).request() == old(self).request(),
            final(self).readout_time() == (match reply {
                LevelReply::ReadoutTime(milliseconds) => milliseconds,
                LevelReply::Done => old(self).readout_time(),
            }),
            final(self).performed() == old(self).performed().push(action),
            final(self).performed().is_prefix_of(
                level_script(final(self).request(), final(self).readout_time()),
            ),
            final(self).finished() <==> final(self).performed() =~= level_script(
                final(self).request(),
                final(self).readout_time(),
            ),
    {
        if !self.request.engine {
            self.stage = LevelStage::Finished;
            return LevelAction::Finish;
        }
        let level: usize = if self.request.level < 0 {
            1
        } else if self.request.level > 3 {
            3
        } else {
            self.request.level as usize
        };
        if let LevelReply::ReadoutTime(milliseconds) = reply {
            self.readout_time = milliseconds;
        }
        match self.stage {
            LevelStage::Smoothness => {
                self.stage = LevelStage::AdaptiveZoom;
                LevelAction::SetSmoothness { seconds: Double::from_bits(SMOOTHNESS[level]) }
            },
            LevelStage::AdaptiveZoom => {
                self.stage = LevelStage::ZoomingMethod;
                LevelAction::SetAdaptiveZoom {
                    window_seconds: Double::from_bits(ZOOM_WINDOW[level]),
                }
            },
            LevelStage::ZoomingMethod => {
                self.stage = LevelStage::VideoSpeed;
                LevelAction::SetZoomingMethod { method: ADAPTIVE_ZOOMING }
            },
            LevelStage::VideoSpeed => {
                self.stage = LevelStage::HorizonLock;
                LevelAction::SetVideoSpeed {
                    speed: self.request.video_speed.larger(Double::from_bits(SLOWEST_SPEED)),
                    flags: (false, false, false),
                }
            },
            LevelStage::HorizonLock => {
                self.stage = LevelStage::HorizonLockIntegration;
                LevelAction::SetHorizonLock {
                    percent: Double::from_bits(HORIZON_LOCK[level]),
                    roll: Double::from_bits(ZERO),
                    lock_pitch: false,
                    pitch: Double::from_bits(ZERO),
                    automatic: false,
                    limits: (
                        Double::from_bits(FIVE),
                        Double::from_bits(FIVE_HUNDRED),
                        Double::from_bits(ONE),
                        Double::from_bits(INFINITY),
                    ),
                }
            },
            LevelStage::HorizonLockIntegration => {
                self.stage = LevelStage::AskReadoutTime;
                LevelAction::SetHorizonLockIntegration { method: VQF_INTEGRATION }
            },
            LevelStage::AskReadoutTime => {
                self.stage = LevelStage::HearReadoutTime;
                LevelAction::ReadFrameReadoutTime
            },
            LevelStage::HearReadoutTime => {
                if self.readout_time.at_most(Double::from_bits(ZERO)) {
                    self.stage = LevelStage::ReadoutTime;
                    LevelAction::SetReadoutTopToBottom
                } else {
                    self.stage = LevelStage::LensCorrection;
                    largest_zoom()
                }
            },
            LevelStage::ReadoutTime => {
                self.stage = LevelStage::MaxZoom;
                LevelAction::SetFrameReadoutTime {
                    milliseconds: Double::from_bits(USUAL_READOUT_TIME),
                }
            },
            LevelStage::MaxZoom => {
                self.stage = LevelStage::LensCorrection;
                largest_zoom()
            },
            LevelStage::LensCorrection => {
                self.stage = LevelStage::Recompute;
                LevelAction::SetLensCorrection { amount: Double::from_bits(ZERO) }
            },
            LevelStage::Recompute => {
                self.stage = LevelStage::Report;
                LevelAction::RecomputeBlocking
            },
            LevelStage::Report => {
                self.stage = LevelStage::Finish;
                LevelAction::ReportFovs
            },
            LevelStage::Finish | LevelStage::Finished => {
                self.stage = LevelStage::Finished;
                LevelAction::Finish
            },
        }
    }
}

fn largest_zoom() -> (action: LevelAction)
    ensures
        action == level_closing()[0],
{
    LevelAction::SetMaxZoom {
        percent: Double::from_bits(LARGEST_ZOOM),
        iterations: ZOOM_LIMIT_ITERATIONS,
    }
}

/// The tables hold the decimal numbers that their descriptions name, rounded to the nearest
/// double where a double cannot hold them.
pub proof fn law_tables_are_decimals()
    ensures
        Double::from_bits(SMOOTHNESS[0]).is_exactly(0, 1),
        Double::from_bits(ZOOM_WINDOW[0]).is_exactly(0, 1),
        Double::from_bits(HORIZON_LOCK[0]).is_exactly(0, 1),
        Double::from_bits(SMOOTHNESS[1]).is_nearest_to(55, 100),
        Double::from_bits(SMOOTHNESS[2]).is_nearest_to(70, 100),
        Double::from_bits(SMOOTHNESS[3]).is_nearest_to(85, 100),
        Double::from_bits(ZOOM_WINDOW[1]).is_exactly(25, 10),
        Double::from_bits(ZOOM_WINDOW[2]).is_exactly(35, 10),
        Double::from_bits(ZOOM_WINDOW[3]).is_exactly(5, 1),
        Double::from_bits(HORIZON_LOCK[1]).is_exactly(60, 1),
        Double::from_bits(HORIZON_LOCK[2]).is_exactly(85, 1),
        Double::from_bits(HORIZON_LOCK[3]).is_exactly(90, 1),
{
    lemma2_to64_rest();
    lemma_exactly(Double::from_bits(ZOOM_WINDOW[1]), 1024, 0x14_0000_0000_0000, 25, 10);
    lemma_exactly(Double::from_bits(ZOOM_WINDOW[2]), 1024, 0x1c_0000_0000_0000, 35, 10);
    lemma_exactly(Double::from_bits(ZOOM_WINDOW[3]), 1025, 0x14_0000_0000_0000, 5, 1);
    lemma_exactly(Double::from_bits(HORIZON_LOCK[1]), 1028, 0x1e_0000_0000_0000, 60, 1);
    lemma_exactly(Double::from_bits(HORIZON_LOCK[2]), 1029, 0x15_4000_0000_0000, 85, 1);
    lemma_exactly(Double::from_bits(HORIZON_LOCK[3]), 1029, 0x16_8000_0000_0000, 90, 1);
    lemma_nearest(Double::from_bits(SMOOTHNESS[1]), 1022, 0x11_9999_9999_999a, 55, 100);
    lemma_nearest(Double::from_bits(SMOOTHNESS[2]), 1022, 0x16_6666_6666_6666, 70, 100);
    lemma_nearest(Double::from_bits(SMOOTHNESS[3]), 1022, 0x1b_3333_3333_3333, 85, 100);
}

/// The other constants hold the decimal numbers that their descriptions name, the slowest speed
/// rounded to the nearest double.
pub proof fn law_constants_are_decimals()
    ensures
        Double::from_bits(SLOWEST_SPEED).is_nearest_to(1, 100),
        Double::from_bits(ZERO).is_exactly(0, 1),
        Double::from_bits(ONE).is_exactly(1, 1),
        Double::from_bits(FIVE).is_exactly(5, 1),
        Double::from_bits(FIVE_HUNDRED).is_exactly(500, 1),
        Double::from_bits(USUAL_READOUT_TIME).is_exactly(12, 1),
        Double::from_bits(LARGEST_ZOOM).is_exactly(140, 1),
{
    lemma2_to64_rest();
    lemma_one();
    lemma_exactly(Double::from_bits(FIVE), 1025, 0x14_0000_0000_0000, 5, 1);
    lemma_exactly(Double::from_bits(FIVE_HUNDRED), 1031, 0x1f_4000_0000_0000, 500, 1);
    lemma_exactly(Double::from_bits(USUAL_READOUT_TIME), 1026, 0x18_0000_0000_0000, 12, 1);
    lemma_exactly(Double::from_bits(LARGEST_ZOOM), 1030, 0x11_8000_0000_0000, 140, 1);
    lemma_nearest(Double::from_bits(SLOWEST_SPEED), 1016, 0x14_7ae1_47ae_147b, 1, 100);
}

/// A higher level smooths longer, zooms over a wider window and locks the horizon harder.
pub proof fn law_higher_level_is_stronger(low: int, high: int)
    requires
        0 <= low < high <= 3,
    ensures
        Double::from_bits(SMOOTHNESS[low]).units() < Double::from_bits(SMOOTHNESS[high]).units(),
        Double::from_bits(ZOOM_WINDOW[low]).units() < Double::from_bits(ZOOM_WINDOW[high]).units(),
        Double::from_bits(HORIZON_LOCK[low]).units() < Double::from_bits(
            HORIZON_LOCK[high],
        ).units(),
{
    assert(low == 0 || low == 1 || low == 2);
    assert(high == 1 || high == 2 || high == 3);
    lemma_rank_orders(Double::from_bits(SMOOTHNESS[low]), Double::from_bits(SMOOTHNESS[high]));
    lemma_rank_orders(Double::from_bits(ZOOM_WINDOW[low]), Double::from_bits(ZOOM_WINDOW[high]));
    lemma_rank_orders(Double::from_bits(HORIZON_LOCK[low]), Double::from_bits(HORIZON_LOCK[high]));
}

/// Level zero is off: smoothing, zoom window and horizon lock are set to zero, and to nothing
/// else.
pub proof fn law_level_zero_is_off(request: LevelRequest, readout_time: Double, i: int)
    requires
        request.level == 0,
        0 <= i < level_script(request, readout_time).len(),
    ensures
        match level_script(request, readout_time)[i] {
            LevelAction::SetSmoothness { seconds } => seconds.is_exactly(0, 1),
            LevelAction::SetAdaptiveZoom { window_seconds } => window_seconds.is_exactly(0, 1),
            LevelAction::SetHorizonLock { percent, .. } => percent.is_exactly(0, 1),
            _ => true,
        },
{
}

/// A negative level has the effect of level 1 and one above 3 that of level 3, whatever the
/// readout time.
pub proof fn law_level_out_of_range(request: LevelRequest, readout_time: Double)
    ensures
        request.level < 0 ==> level_script(request, readout_time) == level_script(
            (LevelRequest { level: 1, ..request }),
            readout_time,
        ),
        request.level > 3 ==> level_script(request, readout_time) == level_script(
            (LevelRequest { level: 3, ..request }),
            readout_time,
        ),
{
}

/// An exchange ends after at most fourteen actions; to finish is its last one and no other.
pub proof fn law_level_ends(request: LevelRequest, readout_time: Double)
    ensures
        1 <= level_script(request, readout_time).len() <= 14,
        forall|i: int|
            0 <= i < level_script(request, readout_time).len() ==> (#[trigger] level_script(
                request,
                readout_time,
            )[i] is Finish <==> i == level_script(request, readout_time).len() - 1),
{
}

/// Without an engine nothing is done but to finish.
pub proof fn law_no_engine_no_settings(request: LevelRequest, readout_time: Double)
    requires
        !request.engine,
    ensures
        level_script(request, readout_time) == seq![LevelAction::Finish],
{
}

/// The action changes a setting of the engine.
pub open spec fn changes_setting(action: LevelAction) -> bool {
    !(action is ReadFrameReadoutTime || action is RecomputeBlocking || action is ReportFovs
        || action is Finish)
}

/// With an engine there is exactly one recomputation, and it comes after every setting.
pub proof fn law_recomputes_after_every_setting(request: LevelRequest, readout_time: Double)
    requires
        request.engine,
    ensures
        ({
            let script = level_script(request, readout_time);
            let last = script.len() - 3;
            &&& 0 <= last
            &&& script[last] is RecomputeBlocking
            &&& forall|i: int|
                0 <= i < script.len() && #[trigger] script[i] is RecomputeBlocking ==> i == last
            &&& forall|i: int|
                0 <= i < script.len() && changes_setting(#[trigger] script[i]) ==> i < last
        }),
{
}

/// The pitch is never locked, the lens is never corrected, the zoom is always adaptive, and the
/// playback speed that is passed on is a number and at least a hundredth.
pub proof fn law_fixed_settings(request: LevelRequest, readout_time: Double, i: int)
    requires
        0 <= i < level_script(request, readout_time).len(),
    ensures
        match level_script(request, readout_time)[i] {
            LevelAction::SetHorizonLock { lock_pitch, automatic, .. } => !lock_pitch && !automatic,
            LevelAction::SetLensCorrection { amount } => amount.is_exactly(0, 1),
            LevelAction::SetVideoSpeed { speed, .. } => !speed.not_a_number() && speed.units()
                >= Double::from_bits(SLOWEST_SPEED).units(),
            LevelAction::SetZoomingMethod { method } => method == ADAPTIVE_ZOOMING,
            _ => true,
        },
{
}

/// The readout time is set if and only if the engine tells a number that is zero or less, and then
/// its direction is set with it; a readout time above zero, or one that is not a number, leaves
/// both as they are.
pub proof fn law_readout_time_kept(request: LevelRequest, readout_time: Double)
    requires
        request.engine,
    ensures
        ({
            let script = level_script(request, readout_time);
            let missing = !readout_time.not_a_number() && readout_time.units() <= 0;
            &&& missing <==> exists|i: int|
                0 <= i < script.len() && #[trigger] script[i] is SetFrameReadoutTime
            &&& missing <==> exists|i: int|
                0 <= i < script.len() && #[trigger] script[i] is SetReadoutTopToBottom
            &&& forall|i: int|
                0 <= i < script.len() && #[trigger] script[i] is SetFrameReadoutTime
                    ==> script[i]->milliseconds.bits == 0x4028_0000_0000_0000
        }),
{
    let script = level_script(request, readout_time);
    if readout_time_missing(readout_time) {
        assert(script[7] is SetReadoutTopToBottom);
        assert(script[8] is SetFrameReadoutTime);
    }
}

/// The order of an exchange. With an engine: smoothing, zoom window, zooming method, speed, horizon
/// lock, its integration, the question about the readout time, the readout where the time told is
/// a number that is zero or less, zoom limit, lens correction, recomputation, report, end. Without
/// an engine: the end.
pub proof fn law_level_order(request: LevelRequest, readout_time: Double)
    ensures
        ({
            let script = level_script(request, readout_time);
            let missing = !readout_time.not_a_number() && readout_time.units() <= 0;
            let rest = script.len() - 5;
            &&& !request.engine ==> script.len() == 1 && script[0] is Finish
            &&& request.engine ==> {
                &&& script.len() == (if missing {
                    14int
                } else {
                    12
                })
                &&& script[0] is SetSmoothness
                &&& script[1] is SetAdaptiveZoom
                &&& script[2] is SetZoomingMethod
                &&& script[3] is SetVideoSpeed
                &&& script[4] is SetHorizonLock
                &&& script[5] is SetHorizonLockIntegration
                &&& script[6] is ReadFrameReadoutTime
                &&& missing ==> script[7] is SetReadoutTopToBottom && script[8]
                    is SetFrameReadoutTime
                &&& script[rest] is SetMaxZoom
                &&& script[rest + 1] is SetLensCorrection
                &&& script[rest + 2] is RecomputeBlocking
                &&& script[rest + 3] is ReportFovs
                &&& script[rest + 4] is Finish
            }
        }),
{
}

/// A speed that is a number and no less than the slowest is passed on with its value unchanged,
/// bit for bit; any other becomes the slowest, whatever the level and the readout time.
pub proof fn law_speed_is_passed_on(request: LevelRequest, readout_time: Double, i: int)
    requires
        0 <= i < level_script(request, readout_time).len(),
        level_script(request, readout_time)[i] is SetVideoSpeed,
    ensures
        ({
            let speed = level_script(request, readout_time)[i]->speed;
            let slowest = Double::from_bits(0x3f84_7ae1_47ae_147b);
            let fast = !request.video_speed.not_a_number() && request.video_speed.units()
                >= slowest.units();
            &&& fast ==> speed.units() == request.video_speed.units() && speed.bits
                == request.video_speed.bits
            &&& !fast ==> speed.bits == slowest.bits
        }),
{
    let slowest = Double::from_bits(SLOWEST_SPEED);
    if request.video_speed.units() == slowest.units() {
        law_values_tell_numbers_apart(request.video_speed, slowest);
    }
}

/// Each level's three numbers, as bit patterns: nothing when off, then 0.55, 0.70 and 0.85
/// seconds, 2.5, 3.5 and 5 seconds, and 60, 85 and 90 percent. A negative level is low, and one
/// above 3 is high.
pub proof fn law_level_numbers(request: LevelRequest, readout_time: Double, i: int)
    requires
        0 <= i < level_script(request, readout_time).len(),
    ensures
        ({
            let off = request.level == 0;
            let low = request.level == 1 || request.level < 0;
            let medium = request.level == 2;
            let high = request.level >= 3;
            match level_script(request, readout_time)[i] {
                LevelAction::SetSmoothness { seconds } => {
                    &&& off ==> seconds.bits == 0
                    &&& low ==> seconds.bits == 0x3fe1_9999_9999_999a
                    &&& medium ==> seconds.bits == 0x3fe6_6666_6666_6666
                    &&& high ==> seconds.bits == 0x3feb_3333_3333_3333
                },
                LevelAction::SetAdaptiveZoom { window_seconds } => {
                    &&& off ==> window_seconds.bits == 0
                    &&& low ==> window_seconds.bits == 0x4004_0000_0000_0000
                    &&& medium ==> window_seconds.bits == 0x400c_0000_0000_0000
                    &&& high ==> window_seconds.bits == 0x4014_0000_0000_0000
                },
                LevelAction::SetHorizonLock { percent, .. } => {
                    &&& off ==> percent.bits == 0
                    &&& low ==> percent.bits == 0x404e_0000_0000_0000
                    &&& medium ==> percent.bits == 0x4055_4000_0000_0000
                    &&& high ==> percent.bits == 0x4056_8000_0000_0000
                },
                _ => true,
            }
        }),
{
}

/// What no request changes, in numbers: adaptive zooming, an upright horizon without pitch lock or
/// automatic lock, the VQF filter, twelve milliseconds for a missing readout time, a zoom of at
/// most 140 percent, and no lens correction.
pub proof fn law_level_fixed_numbers(request: LevelRequest, readout_time: Double, i: int)
    requires
        0 <= i < level_script(request, readout_time).len(),
    ensures
        match level_script(request, readout_time)[i] {
            LevelAction::SetZoomingMethod { method } => method == 1,
            LevelAction::SetVideoSpeed { flags, .. } => !flags.0 && !flags.1 && !flags.2,
            LevelAction::SetHorizonLock { roll, lock_pitch, pitch, automatic, limits, .. } => {
                &&& roll.bits == 0
                &&& !lock_pitch
                &&& pitch.bits == 0
                &&& !automatic
                &&& limits.0.bits == 0x4014_0000_0000_0000
                &&& limits.1.bits == 0x407f_4000_0000_0000
                &&& limits.2.bits == 0x3ff0_0000_0000_0000
                &&& limits.3.bits == 0x7ff0_0000_0000_0000
            },
            LevelAction::SetHorizonLockIntegration { method } => method == 1,
            LevelAction::SetFrameReadoutTime { milliseconds } => milliseconds.bits
                == 0x4028_0000_0000_0000,
            LevelAction::SetMaxZoom { percent, iterations } => percent.bits
                == 0x4061_8000_0000_0000 && iterations == 5,
            LevelAction::SetLensCorrection { amount } => amount.bits == 0,
            _ => true,
        },
{
}

/// Two exchanges that are told different readout times differ in the readout alone: up to the
/// question they issue the same actions, and from the zoom limit on they do so again.
pub proof fn law_readout_time_bears_on_readout_only(
    request: LevelRequest,
    one: Double,
    other: Double,
)
    requires
        request.engine,
    ensures
        ({
            let (a, b) = (level_script(request, one), level_script(request, other));
            &&& forall|i: int| 0 <= i < 7 ==> #[trigger] a[i] == b[i]
            &&& forall|i: int|
                0 <= i < 5 ==> #[trigger] a[a.len() - 5 + i] == b[b.len() - 5 + i]
        }),
{
}

/// What an exchange waits for: the readout time, any at all, after the question about it; nothing
/// after the end; and otherwise only that the last action is done.
pub proof fn law_level_answers(session: SetLevel, reply: LevelReply)
    requires
        session.wf(),
    ensures
        ({
            let performed = session.performed();
            let last = performed[performed.len() - 1];
            let started = performed.len() > 0;
            &&& performed.is_prefix_of(level_script(session.request(), session.readout_time()))
            &&& session.finished() <==> started && last is Finish
            &&& started && last is Finish ==> !session.awaits(reply)
            &&& started && last is ReadFrameReadoutTime ==> (session.awaits(reply) <==> reply
                is ReadoutTime)
            &&& !started || !(last is Finish || last is ReadFrameReadoutTime) ==> (session.awaits(
                reply,
            ) <==> reply is Done)
        }),
{
}

/// What a horizon lock is set to.
pub struct HorizonLock {
    pub percent: Double,
    pub roll: Double,
    pub lock_pitch: bool,
    pub pitch: Double,
    pub automatic: bool,
    pub limits: (Double, Double, Double, Double),
}

/// The direction in which a sensor is read out.
pub enum ReadoutDirection {
    TopToBottom,
    /// Any other one, told apart by a number.
    Other(int),
}

/// The settings that a level exchange can change.
pub struct LevelSettings {
    pub smoothness: Double,
    pub zoom_window: Double,
    pub zooming_method: i32,
    pub video_speed: Double,
    pub video_speed_flags: (bool, bool, bool),
    pub horizon_lock: HorizonLock,
    pub horizon_lock_integration: i32,
    pub readout_direction: ReadoutDirection,
    pub readout_time: Double,
    pub max_zoom: Double,
    pub max_zoom_iterations: usize,
    pub lens_correction: Double,
}

impl LevelSettings {
    /// The settings that one action leaves.
    pub open spec fn after_action(self, action: LevelAction) -> LevelSettings {
        match action {
            LevelAction::SetSmoothness { seconds } => LevelSettings {
                smoothness: seconds,
                ..self
            },
            LevelAction::SetAdaptiveZoom { window_seconds } => LevelSettings {
                zoom_window: window_seconds,
                ..self
            },
            LevelAction::SetZoomingMethod { method } => LevelSettings {
                zooming_method: method,
                ..self
            },
            LevelAction::SetVideoSpeed { speed, flags } => LevelSettings {
                video_speed: speed,
                video_speed_flags: flags,
                ..self
            },
            LevelAction::SetHorizonLock {
                percent,
                roll,
                lock_pitch,
                pitch,
                automatic,
                limits,
            } => LevelSettings {
                horizon_lock: HorizonLock { percent, roll, lock_pitch, pitch, automatic, limits },
                ..self
            },
            LevelAction::SetHorizonLockIntegration { method } => LevelSettings {
                horizon_lock_integration: method,
                ..self
            },
            LevelAction::SetReadoutTopToBottom => LevelSettings {
                readout_direction: ReadoutDirection::TopToBottom,
                ..self
            },
            LevelAction::SetFrameReadoutTime { milliseconds } => LevelSettings {
                readout_time: milliseconds,
                ..self
            },
            LevelAction::SetMaxZoom { percent, iterations } => LevelSettings {
                max_zoom: percent,
                max_zoom_iterations: iterations,
                ..self
            },
            LevelAction::SetLensCorrection { amount } => LevelSettings {
                lens_correction: amount,
                ..self
            },
            LevelAction::ReadFrameReadoutTime
            | LevelAction::RecomputeBlocking
            | LevelAction::ReportFovs
            | LevelAction::Finish => self,
        }
    }

    /// The settings that a sequence of actions leaves.
    pub open spec fn after(self, actions: Seq<LevelAction>) -> LevelSettings
        decreases actions.len(),
    {
        if actions.len() == 0 {
            self
        } else {
            self.after(actions.drop_last()).after_action(actions.last())
        }
    }

    /// The settings that an exchange leaves, which is told the readout time as it is set.
    pub open spec fn after_exchange(self, request: LevelRequest) -> LevelSettings {
        self.after(level_script(request, self.readout_time))
    }

    /// The settings of a request's level and speed, with the readout as it is here, or the usual
    /// one where it is missing.
    pub open spec fn requested(self, request: LevelRequest) -> LevelSettings {
        let level = effective_level(request.level);
        let missing = readout_time_missing(self.readout_time);
        LevelSettings {
            smoothness: Double::from_bits(SMOOTHNESS[level]),
            zoom_window: Double::from_bits(ZOOM_WINDOW[level]),
            zooming_method: ADAPTIVE_ZOOMING,
            video_speed: request.video_speed.larger_spec(Double::from_bits(SLOWEST_SPEED)),
            video_speed_flags: (false, false, false),
            horizon_lock: HorizonLock {
                percent: Double::from_bits(HORIZON_LOCK[level]),
                roll: Double::from_bits(ZERO),
                lock_pitch: false,
                pitch: Double::from_bits(ZERO),
                automatic: false,
                limits: (
                    Double::from_bits(FIVE),
                    Double::from_bits(FIVE_HUNDRED),
                    Double::from_bits(ONE),
                    Double::from_bits(INFINITY),
                ),
            },
            horizon_lock_integration: VQF_INTEGRATION,
            readout_direction: if missing {
                ReadoutDirection::TopToBottom
            } else {
                self.readout_direction
            },
            readout_time: if missing {
                Double::from_bits(USUAL_READOUT_TIME)
            } else {
                self.readout_time
            },
            max_zoom: Double::from_bits(LARGEST_ZOOM),
            max_zoom_iterations: ZOOM_LIMIT_ITERATIONS,
            lens_correction: Double::from_bits(ZERO),
        }
    }
}

proof fn lemma_after_concatenation(
    settings: LevelSettings,
    first: Seq<LevelAction>,
    second: Seq<LevelAction>,
)
    ensures
        settings.after(first + second) == settings.after(first).after(second),
    decreases second.len(),
{
    if second.len() == 0 {
        assert(first + second == first);
    } else {
        assert((first + second).drop_last() == first + second.drop_last());
        lemma_after_concatenation(settings, first, second.drop_last());
    }
}

proof fn lemma_after_opening(settings: LevelSettings, request: LevelRequest)
    ensures
        settings.after(level_opening(request)) == (LevelSettings {
            readout_direction: settings.readout_direction,
            readout_time: settings.readout_time,
            max_zoom: settings.max_zoom,
            max_zoom_iterations: settings.max_zoom_iterations,
            lens_correction: settings.lens_correction,
            ..settings.requested(request)
        }),
{
    reveal_with_fuel(LevelSettings::after, 8);
}

proof fn lemma_after_closing(settings: LevelSettings)
    ensures
        settings.after(level_closing()) == (LevelSettings {
            max_zoom: Double::from_bits(LARGEST_ZOOM),
            max_zoom_iterations: ZOOM_LIMIT_ITERATIONS,
            lens_correction: Double::from_bits(ZERO),
            ..settings
        }),
{
    reveal_with_fuel(LevelSettings::after, 6);
}

/// An exchange leaves the settings that were asked for, every one of them, and touches the readout
/// only where its time is missing.
pub proof fn law_exchange_leaves_what_was_asked(settings: LevelSettings, request: LevelRequest)
    requires
        request.engine,
    ensures
        settings.after_exchange(request) == settings.requested(request),
{
    let (opening, fallback) = (level_opening(request), readout_fallback(settings.readout_time));
    lemma_after_concatenation(settings, opening + fallback, level_closing());
    lemma_after_concatenation(settings, opening, fallback);
    lemma_after_opening(settings, request);
    lemma_after_closing(settings.after(opening).after(fallback));
    reveal_with_fuel(LevelSettings::after, 3);
}

/// Of two exchanges with one engine the last one wins: the settings are those that it leaves
/// alone.
pub proof fn law_last_level_wins(
    settings: LevelSettings,
    first: LevelRequest,
    second: LevelRequest,
)
    requires
        first.engine,
        second.engine,
    ensures
        settings.after_exchange(first).after_exchange(second) == settings.after_exchange(second),
{
    law_exchange_leaves_what_was_asked(settings, first);
    law_exchange_leaves_what_was_asked(settings, second);
    law_exchange_leaves_what_was_asked(settings.after_exchange(first), second);
    lemma_rank_orders(Double::from_bits(ZERO), Double::from_bits(USUAL_READOUT_TIME));
    assert(Double::from_bits(ZERO).units() == 0);
}

/// To repeat an exchange changes no setting, the readout included.
pub proof fn law_repeated_level_changes_nothing(settings: LevelSettings, request: LevelRequest)
    requires
        request.engine,
    ensures
        settings.after_exchange(request).after_exchange(request) == settings.after_exchange(
            request,
        ),
{
    law_last_level_wins(settings, request, request);
}

/// What two exchanges leave behind, in numbers: the speed of the last one where it is a number no
/// less than the slowest, and the readout as it was before both where its time was above zero or
/// not a number.
pub proof fn law_settings_in_numbers(
    settings: LevelSettings,
    first: LevelRequest,
    second: LevelRequest,
)
    requires
        first.engine,
        second.engine,
    ensures
        ({
            let after = settings.after_exchange(first).after_exchange(second);
            let told = settings.readout_time;
            let slowest = Double::from_bits(0x3f84_7ae1_47ae_147b);
            let fast = !second.video_speed.not_a_number() && second.video_speed.units()
                >= slowest.units();
            &&& fast ==> after.video_speed.bits == second.video_speed.bits
            &&& !fast ==> after.video_speed.bits == slowest.bits
            &&& told.not_a_number() || told.units() > 0 ==> after.readout_time == told
                && after.readout_direction == settings.readout_direction
            &&& !told.not_a_number() && told.units() <= 0 ==> after.readout_time.bits
                == 0x4028_0000_0000_0000 && after.readout_direction is TopToBottom
            &&& after.smoothness.bits == (if second.level == 0 {
                0int
            } else if second.level <= 1 {
                0x3fe1_9999_9999_999a
            } else if second.level == 2 {
                0x3fe6_6666_6666_6666
            } else {
                0x3feb_3333_3333_3333
            })
            &&& after.zoom_window.bits == (if second.level == 0 {
                0int
            } else if second.level <= 1 {
                0x4004_0000_0000_0000
            } else if second.level == 2 {
                0x400c_0000_0000_0000
            } else {
                0x4014_0000_0000_0000
            })
            &&& after.horizon_lock.percent.bits == (if second.level == 0 {
                0int
            } else if second.level <= 1 {
                0x404e_0000_0000_0000
            } else if second.level == 2 {
                0x4055_4000_0000_0000
            } else {
                0x4056_8000_0000_0000
            })
            &&& after.zooming_method == 1
            &&& !after.video_speed_flags.0 && !after.video_speed_flags.1
                && !after.video_speed_flags.2
            &&& after.horizon_lock.roll.bits == 0
            &&& !after.horizon_lock.lock_pitch
            &&& after.horizon_lock.pitch.bits == 0
            &&& !after.horizon_lock.automatic
            &&& after.horizon_lock.limits.0.bits == 0x4014_0000_0000_0000
            &&& after.horizon_lock.limits.1.bits == 0x407f_4000_0000_0000
            &&& after.horizon_lock.limits.2.bits == 0x3ff0_0000_0000_0000
            &&& after.horizon_lock.limits.3.bits == 0x7ff0_0000_0000_0000
            &&& after.horizon_lock_integration == 1
            &&& after.max_zoom.bits == 0x4061_8000_0000_0000
            &&& after.max_zoom_iterations == 5
            &&& after.lens_correction.bits == 0
        }),
{
    law_last_level_wins(settings, first, second);
    law_exchange_leaves_what_was_asked(settings, second);
    let slowest = Double::from_bits(SLOWEST_SPEED);
    if second.video_speed.units() == slowest.units() {
        law_values_tell_numbers_apart(second.video_speed, slowest);
    }
}

} // verus!
