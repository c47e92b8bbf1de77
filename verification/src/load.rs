//! Loading a video and its motion data.
//!
//! A [`LoadVideo`] exchange issues one action at a time and is told what came of it. It waits for
//! whether the file could be opened, for its length, for whether its motion data could be loaded,
//! and, where the caller wants to know, for whether there is any motion.

use crate::double::{lemma_one, Double, ONE, ZERO};
use crate::size::Size;
use crate::status::{BAD_PATH, CANNOT_LOAD, CANNOT_OPEN, NULL_ARGUMENT, SUCCESS};
use vstd::arithmetic::div_mod::{
    lemma_fundamental_div_mod, lemma_mod_bound, lemma_mod_multiples_basic, lemma_small_mod,
};
use vstd::prelude::*;
use vstd::utf8::{encode_utf8, valid_utf8};

verus! {

/// The error of `std::str::from_utf8`.
#[verifier::external_type_specification]
#[verifier::external_body]
pub struct ExUtf8Error(std::str::Utf8Error);

/// `std::str::from_utf8` accepts exactly the bytes that are UTF-8, and gives the string that they
/// encode.
pub assume_specification[ std::str::from_utf8 ](v: &[u8]) -> (result: Result<
    &str,
    std::str::Utf8Error,
>)
    ensures
        result is Ok <==> valid_utf8(v@),
        result is Ok ==> encode_utf8(result->Ok_0@) == v@,
;

/// What the caller asked for.
#[derive(Debug)]
pub struct LoadRequest {
    /// Whether there is an engine to load into.
    pub engine: bool,
    /// The path's bytes, without the zero at their end.
    pub url: Option<Vec<u8>>,
    pub duration_ms: Double,
    pub fps: Double,
    pub frame_count: i32,
    pub width: i32,
    pub height: i32,
    /// Whether there is a place to write whether there is motion.
    pub wants_motion: bool,
}

/// What is to be done next.
#[derive(Clone, Copy, Debug, PartialEq, Eq)]
pub enum LoadAction {
    InitFromVideoData { duration_ms: Double, fps: Double, frame_count: usize, size: Size },
    SetRenderParams { size: Size, output_size: Size },
    /// Opens the file at the exchange's path.
    OpenFile,
    ReadFileLength,
    /// Loads the motion data of the open file, under the exchange's path.
    LoadGyroData {
        file_size: usize,
        main_video: bool,
        sample_index: Option<usize>,
        project_version: u32,
    },
    ReportFocalLength,
    SetFov { fov: Double },
    RecomputeBlocking,
    ReportLens,
    ReadMotion,
    WriteMotion { flag: i32 },
    Finish { code: i32 },
}

/// What came of the last action.
#[derive(Clone, Copy, Debug, PartialEq, Eq)]
pub enum LoadReply {
    Done,
    Opened(bool),
    /// `None` where the length cannot be told.
    FileLength(Option<u64>),
    Loaded(bool),
    Motion(bool),
}

/// What an exchange was told.
#[derive(Clone, Copy, Debug, PartialEq, Eq)]
pub struct LoadFacts {
    pub opened: bool,
    pub file_length: Option<u64>,
    pub loaded: bool,
    pub motion: bool,
}

impl LoadFacts {
    /// The facts once `reply` was heard.
    pub open spec fn with(self, reply: LoadReply) -> LoadFacts {
        match reply {
            LoadReply::Done => self,
            LoadReply::Opened(success) => LoadFacts { opened: success, ..self },
            LoadReply::FileLength(length) => LoadFacts { file_length: length, ..self },
            LoadReply::Loaded(success) => LoadFacts { loaded: success, ..self },
            LoadReply::Motion(present) => LoadFacts { motion: present, ..self },
        }
    }
}

/// The answer to a request that is refused at once.
pub open spec fn refusal(request: LoadRequest) -> Option<i32> {
    if !request.engine || request.url is None {
        Some(NULL_ARGUMENT)
    } else if !valid_utf8(request.url->0@) {
        Some(BAD_PATH)
    } else {
        None
    }
}

/// The size of the video.
pub open spec fn video_size(request: LoadRequest) -> Size {
    Size::of_sides(request.width as int, request.height as int)
}

/// The file's length as it is passed on: zero where it cannot be told, and without the bits that
/// a `usize` cannot hold.
pub open spec fn passed_length(length: Option<u64>) -> int {
    match length {
        Some(bytes) => bytes as int % (usize::MAX + 1),
        None => 0,
    }
}

/// The file's length as it is passed on.
pub fn file_size(length: Option<u64>) -> (size: usize)
    ensures
        size == passed_length(length),
        length is Some && length->0 <= usize::MAX ==> size == length->0,
{
    match length {
        Some(bytes) => {
            proof {
                if bytes <= usize::MAX {
                    lemma_small_mod(bytes as nat, (usize::MAX + 1) as nat);
                } else {
                    assert(usize::BITS == 32 ==> bytes as usize == bytes % 0x1_0000_0000)
                        by (bit_vector);
                    assert(usize::MAX + 1 == 0x1_0000_0000);
                }
            }
            bytes as usize
        },
        None => 0,
    }
}

/// What is done before the file is open: the picture comes out as large as it goes in.
pub open spec fn load_opening(request: LoadRequest) -> Seq<LoadAction> {
    seq![
        LoadAction::InitFromVideoData {
            duration_ms: request.duration_ms.larger_spec(Double::from_bits(ZERO)),
            fps: request.fps.larger_spec(Double::from_bits(ZERO)),
            frame_count: if request.frame_count < 0 {
                0
            } else {
                request.frame_count as usize
            },
            size: video_size(request),
        },
        LoadAction::SetRenderParams {
            size: video_size(request),
            output_size: video_size(request),
        },
        LoadAction::OpenFile,
    ]
}

/// What is done with an open file.
pub open spec fn load_open_file(facts: LoadFacts) -> Seq<LoadAction> {
    seq![
        LoadAction::ReadFileLength,
        LoadAction::LoadGyroData {
            file_size: passed_length(facts.file_length) as usize,
            main_video: true,
            sample_index: None,
            project_version: 0,
        },
        LoadAction::ReportFocalLength,
        LoadAction::SetFov { fov: Double::from_bits(ONE) },
        LoadAction::RecomputeBlocking,
        LoadAction::ReportLens,
    ]
}

/// What is done to tell the caller whether there is motion.
pub open spec fn load_motion(request: LoadRequest, facts: LoadFacts) -> Seq<LoadAction> {
    if request.wants_motion {
        seq![
            LoadAction::ReadMotion,
            LoadAction::WriteMotion {
                flag: if facts.motion {
                    1
                } else {
                    0
                },
            },
        ]
    } else {
        seq![]
    }
}

/// All that is done for a request, given what came of it.
pub open spec fn load_script(request: LoadRequest, facts: LoadFacts) -> Seq<LoadAction> {
    match refusal(request) {
        Some(code) => seq![LoadAction::Finish { code }],
        None => if facts.opened {
            load_opening(request) + load_open_file(facts) + load_motion(request, facts) + seq![
                LoadAction::Finish {
                    code: if facts.loaded {
                        SUCCESS
                    } else {
                        CANNOT_LOAD
                    },
                },
            ]
        } else {
            load_opening(request) + seq![LoadAction::Finish { code: CANNOT_OPEN }]
        },
    }
}

/// The action that comes next, as far as the request alone decides it.
#[derive(Clone, Copy, Debug, PartialEq, Eq, Structural)]
enum LoadStage {
    Init,
    RenderParams,
    OpenFile,
    HearOpened,
    HearFileLength,
    HearLoaded,
    Fov,
    Recompute,
    ReportLens,
    Motion,
    HearMotion,
    Finish,
    Finished,
}

/// One exchange that loads a video.
pub struct LoadVideo {
    request: LoadRequest,
    refused: Option<i32>,
    path: String,
    facts: LoadFacts,
    stage: LoadStage,
}

impl LoadVideo {
    pub closed spec fn request(self) -> LoadRequest {
        self.request
    }

    /// What was told so far.
    pub closed spec fn facts(self) -> LoadFacts {
        self.facts
    }

    /// How many actions were issued.
    pub closed spec fn count(self) -> int {
        match self.stage {
            LoadStage::Init => 0,
            LoadStage::RenderParams => 1,
            LoadStage::OpenFile => 2,
            LoadStage::HearOpened => 3,
            LoadStage::HearFileLength => 4,
            LoadStage::HearLoaded => 5,
            LoadStage::Fov => 6,
            LoadStage::Recompute => 7,
            LoadStage::ReportLens => 8,
            LoadStage::Motion => 9,
            LoadStage::HearMotion => 10,
            LoadStage::Finish => 11,
            LoadStage::Finished => load_script(self.request, self.facts).len() as int,
        }
    }

    /// The actions issued so far.
    pub open spec fn performed(self) -> Seq<LoadAction> {
        load_script(self.request(), self.facts()).take(self.count())
    }

    pub closed spec fn wf(self) -> bool {
        &&& self.refused == refusal(self.request)
        &&& self.refused is None ==> encode_utf8(self.path@) == self.request.url->0@
        &&& self.refused is Some ==> self.path@ == Seq::<char>::empty()
        &&& self.stage is Init || self.stage is Finished || self.refused is None
        &&& self.stage is Init || self.stage is RenderParams || self.stage is OpenFile
            || self.stage is HearOpened || self.stage is Finished || self.facts.opened
        &&& self.stage is HearMotion || self.stage is Finish ==> self.request.wants_motion
    }

    /// The exchange is over: its last action was to finish.
    pub open spec fn finished(self) -> bool {
        self.performed().len() > 0 && self.performed().last() is Finish
    }

    /// `reply` answers the last action.
    pub open spec fn awaits(self, reply: LoadReply) -> bool {
        if self.performed().len() == 0 {
            reply is Done
        } else {
            match self.performed().last() {
                LoadAction::OpenFile => reply is Opened,
                LoadAction::ReadFileLength => reply is FileLength,
                LoadAction::LoadGyroData { .. } => reply is Loaded,
                LoadAction::ReadMotion => reply is Motion,
                LoadAction::Finish { .. } => false,
                _ => reply is Done,
            }
        }
    }

    pub fn new(request: LoadRequest) -> (session: LoadVideo)
        ensures
            session.wf(),
            session.request() == request,
            !session.facts().opened,
            session.facts().file_length is None,
            !session.facts().loaded,
            !session.facts().motion,
            session.performed() == Seq::<LoadAction>::empty(),
            session.awaits(LoadReply::Done),
    {
        let mut refused: Option<i32> = Some(NULL_ARGUMENT);
        let mut path = String::new();
        if request.engine {
            if let Some(bytes) = &request.url {
                match std::str::from_utf8(bytes.as_slice()) {
                    Ok(text) => {
                        path = text.to_owned();
                        refused = None;
                    },
                    Err(_) => {
                        refused = Some(BAD_PATH);
                    },
                }
            }
        }
        LoadVideo {
            request,
            refused,
            path,
            facts: LoadFacts { opened: false, file_length: None, loaded: false, motion: false },
            stage: LoadStage::Init,
        }
    }

    /// The path that the request's bytes encode; empty where the request is refused.
    pub fn path(&self) -> (path: &str)
        requires
            self.wf(),
        ensures
            refusal(self.request()) is None ==> encode_utf8(path@) == self.request().url->0@,
            refusal(self.request()) is Some ==> path@ == Seq::<char>::empty(),
            self.request().engine && self.request().url is Some && valid_utf8(
                self.request().url->0@,
            ) ==> encode_utf8(path@) == self.request().url->0@,
    {
        self.path.as_str()
    }

    /// Whether `reply` answers the last action.
    pub fn accepts(&self, reply: LoadReply) -> (answer: bool)
        requires
            self.wf(),
        ensures
            answer == self.awaits(reply),
    {
        match (self.stage, reply) {
            (LoadStage::Finished, _) => false,
            (LoadStage::HearOpened, LoadReply::Opened(_)) => true,
            (LoadStage::HearOpened, _) => false,
            (LoadStage::HearFileLength, LoadReply::FileLength(_)) => true,
            (LoadStage::HearFileLength, _) => false,
            (LoadStage::HearLoaded, LoadReply::Loaded(_)) => true,
            (LoadStage::HearLoaded, _) => false,
            (LoadStage::HearMotion, LoadReply::Motion(_)) => true,
            (LoadStage::HearMotion, _) => false,
            (_, LoadReply::Done) => true,
            _ => false,
        }
    }

    /// Takes in what came of the last action and issues the next one.
    pub fn next(&mut self, reply: LoadReply) -> (action: LoadAction)
        requires
            old(self).wf(),
            old(self).awaits(reply),
        ensures
            final(self).wf(),
            final(self).request() == old(self).request(),
            final(self).facts() == old(self).facts().with(reply),
            final(self).performed() == old(self).performed().push(action),
            final(self).performed().is_prefix_of(
                load_script(final(self).request(), final(self).facts()),
            ),
            final(self).finished() <==> final(self).performed() =~= load_script(
                final(self).request(),
                final(self).facts(),
            ),
    {
        self.hear(reply);
        proof {
            law_load_ends(self.request, self.facts);
        }
        self.issue()
    }

    /// Which stage each answer belongs to.
    proof fn lemma_answered_stage(self, reply: LoadReply)
        requires
            self.wf(),
            self.awaits(reply),
        ensures
            !(self.stage is Finished),
            reply is Opened ==> self.stage is HearOpened,
            reply is FileLength ==> self.stage is HearFileLength,
            reply is Loaded ==> self.stage is HearLoaded,
            reply is Motion ==> self.stage is HearMotion,
    {
        let script = load_script(self.request, self.facts);
        let k = self.count();
        if self.refused is None && 0 < k <= script.len() {
            assert(self.performed().last() == script[k - 1]);
        }
    }

    /// Takes in what came of the last action.
    fn hear(&mut self, reply: LoadReply)
        requires
            old(self).wf(),
            old(self).awaits(reply),
        ensures
            final(self).wf(),
            !(final(self).stage is Finished),
            final(self).request() == old(self).request(),
            final(self).facts() == old(self).facts().with(reply),
            final(self).performed() == old(self).performed(),
    {
        proof {
            self.lemma_answered_stage(reply);
        }
        match reply {
            LoadReply::Done => {},
            LoadReply::Opened(success) => {
                self.facts.opened = success;
            },
            LoadReply::FileLength(length) => {
                self.facts.file_length = length;
            },
            LoadReply::Loaded(success) => {
                self.facts.loaded = success;
            },
            LoadReply::Motion(present) => {
                self.facts.motion = present;
            },
        }
    }

    /// Issues the next action.
    fn issue(&mut self) -> (action: LoadAction)
        requires
            old(self).wf(),
            !(old(self).stage is Finished),
        ensures
            final(self).wf(),
            final(self).request() == old(self).request(),
            final(self).facts() == old(self).facts(),
            0 <= old(self).count() < load_script(old(self).request(), old(self).facts()).len(),
            final(self).count() == old(self).count() + 1,
            action == load_script(old(self).request(), old(self).facts())[old(self).count()],
    {
        if let Some(code) = self.refused {
            self.stage = LoadStage::Finished;
            return LoadAction::Finish { code };
        }
        match self.stage {
            LoadStage::Init => {
                self.stage = LoadStage::RenderParams;
                LoadAction::InitFromVideoData {
                    duration_ms: self.request.duration_ms.larger(Double::from_bits(ZERO)),
                    fps: self.request.fps.larger(Double::from_bits(ZERO)),
                    frame_count: if self.request.frame_count < 0 {
                        0
                    } else {
                        self.request.frame_count as usize
                    },
                    size: Size::from_sides(self.request.width, self.request.height),
                }
            },
            LoadStage::RenderParams => {
                self.stage = LoadStage::OpenFile;
                let size = Size::from_sides(self.request.width, self.request.height);
                LoadAction::SetRenderParams { size, output_size: size }
            },
            LoadStage::OpenFile => {
                self.stage = LoadStage::HearOpened;
                LoadAction::OpenFile
            },
            LoadStage::HearOpened => {
                if self.facts.opened {
                    self.stage = LoadStage::HearFileLength;
                    LoadAction::ReadFileLength
                } else {
                    self.stage = LoadStage::Finished;
                    LoadAction::Finish { code: CANNOT_OPEN }
                }
            },
            LoadStage::HearFileLength => {
                self.stage = LoadStage::HearLoaded;
                LoadAction::LoadGyroData {
                    file_size: file_size(self.facts.file_length),
                    main_video: true,
                    sample_index: None,
                    project_version: 0,
                }
            },
            LoadStage::HearLoaded => {
                self.stage = LoadStage::Fov;
                LoadAction::ReportFocalLength
            },
            LoadStage::Fov => {
                self.stage = LoadStage::Recompute;
                LoadAction::SetFov { fov: Double::from_bits(ONE) }
            },
            LoadStage::Recompute => {
                self.stage = LoadStage::ReportLens;
                LoadAction::RecomputeBlocking
            },
            LoadStage::ReportLens => {
                self.stage = LoadStage::Motion;
                LoadAction::ReportLens
            },
            LoadStage::Motion => {
                if self.request.wants_motion {
                    self.stage = LoadStage::HearMotion;
                    LoadAction::ReadMotion
                } else {
                    self.stage = LoadStage::Finished;
                    self.answer()
                }
            },
            LoadStage::HearMotion => {
                self.stage = LoadStage::Finish;
                LoadAction::WriteMotion {
                    flag: if self.facts.motion {
                        1
                    } else {
                        0
                    },
                }
            },
            LoadStage::Finish | LoadStage::Finished => {
                self.stage = LoadStage::Finished;
                self.answer()
            },
        }
    }

    /// The end of an exchange that got as far as the motion data.
    fn answer(&self) -> (action: LoadAction)
        ensures
            action == (LoadAction::Finish {
                code: if self.facts().loaded {
                    SUCCESS
                } else {
                    CANNOT_LOAD
                },
            }),
    {
        LoadAction::Finish {
            code: if self.facts.loaded {
                SUCCESS
            } else {
                CANNOT_LOAD
            },
        }
    }
}

/// The code that an exchange ends with tells how far it got: a null pointer, then a path that is
/// not UTF-8, then a file that does not open, then motion data that does not load.
pub proof fn law_load_answer(request: LoadRequest, facts: LoadFacts)
    ensures
        ({
            let script = load_script(request, facts);
            let code = script.last()->Finish_code;
            let pointers = request.engine && request.url is Some;
            let path = pointers && valid_utf8(request.url->0@);
            &&& script.len() > 0
            &&& script.last() is Finish
            &&& code == NULL_ARGUMENT <==> !pointers
            &&& code == BAD_PATH <==> pointers && !path
            &&& code == CANNOT_OPEN <==> path && !facts.opened
            &&& code == CANNOT_LOAD <==> path && facts.opened && !facts.loaded
            &&& code == SUCCESS <==> path && facts.opened && facts.loaded
        }),
{
}

/// An exchange ends after at most twelve actions; to finish is its last one and no other.
pub proof fn law_load_ends(request: LoadRequest, facts: LoadFacts)
    ensures
        1 <= load_script(request, facts).len() <= 12,
        forall|i: int|
            0 <= i < load_script(request, facts).len() ==> (#[trigger] load_script(
                request,
                facts,
            )[i] is Finish <==> i == load_script(request, facts).len() - 1),
{
}

/// A refused request is answered, and nothing else is done.
pub proof fn law_refused_load_does_nothing(request: LoadRequest, facts: LoadFacts)
    requires
        refusal(request) is Some,
    ensures
        load_script(request, facts) == seq![LoadAction::Finish { code: refusal(request)->0 }],
{
}

/// The action changes a setting of the engine.
pub open spec fn changes_engine(action: LoadAction) -> bool {
    action is InitFromVideoData || action is SetRenderParams || action is LoadGyroData
        || action is SetFov
}

/// Once the file is open the engine is recomputed exactly once, after everything that changes it,
/// whether or not the motion data could be loaded.
pub proof fn law_load_recomputes_last(request: LoadRequest, facts: LoadFacts)
    requires
        refusal(request) is None,
        facts.opened,
    ensures
        ({
            let script = load_script(request, facts);
            &&& script[7] is RecomputeBlocking
            &&& forall|i: int|
                0 <= i < script.len() && #[trigger] script[i] is RecomputeBlocking ==> i == 7
            &&& forall|i: int|
                0 <= i < script.len() && changes_engine(#[trigger] script[i]) ==> i < 7
        }),
{
}

/// What the engine is given makes sense: times are numbers and not negative, a side has at least
/// one pixel, the picture comes out as large as it goes in, and it is not enlarged beforehand.
pub proof fn law_load_settings(request: LoadRequest, facts: LoadFacts, i: int)
    requires
        0 <= i < load_script(request, facts).len(),
    ensures
        match load_script(request, facts)[i] {
            LoadAction::InitFromVideoData { duration_ms, fps, frame_count, size } => {
                &&& !duration_ms.not_a_number() && duration_ms.units() >= 0
                &&& !fps.not_a_number() && fps.units() >= 0
                &&& frame_count >= request.frame_count
                &&& size.width >= 1 && size.width >= request.width
                &&& size.height >= 1 && size.height >= request.height
            },
            LoadAction::SetRenderParams { size, output_size } => size == output_size && size
                == video_size(request),
            LoadAction::SetFov { fov } => fov.is_exactly(1, 1),
            _ => true,
        },
{
    lemma_one();
    let script = load_script(request, facts);
    if refusal(request) is Some {
        assert(script[i] is Finish);
    } else if i < 3 {
        assert(script[i] == load_opening(request)[i]);
    } else if !facts.opened {
        assert(script[i] is Finish);
    } else if i < 9 {
        assert(script[i] == load_open_file(facts)[i - 3]);
    } else {
        assert(script[i] is ReadMotion || script[i] is WriteMotion || script[i] is Finish);
    }
}

/// Whether there is motion is written where the caller wants to know and the file was opened,
/// once, as one or zero; it is written nowhere else.
pub proof fn law_motion_flag(request: LoadRequest, facts: LoadFacts, i: int)
    requires
        0 <= i < load_script(request, facts).len(),
    ensures
        load_script(request, facts)[i] is WriteMotion <==> refusal(request) is None && facts.opened
            && request.wants_motion && i == 10,
        load_script(request, facts)[i] is WriteMotion ==> load_script(
            request,
            facts,
        )[i]->flag == (if facts.motion {
            1int
        } else {
            0
        }),
{
}

/// The order of an exchange. Refused at once: the end, with -1 for a null pointer and -2 for a path
/// that is not UTF-8. Otherwise the video's data, the render sizes and the file; where that does
/// not open, the end with -3; where it does, its length, the motion data, the focal length, the
/// field of view, recomputation, the lens, the motion flag where the caller wants it, and the end
/// with 0, or with -4 where the motion data did not load.
pub proof fn law_load_order(request: LoadRequest, facts: LoadFacts)
    ensures
        ({
            let script = load_script(request, facts);
            let pointers = request.engine && request.url is Some;
            let path = pointers && valid_utf8(request.url->0@);
            &&& !pointers ==> script.len() == 1 && script[0] is Finish && script[0]->code == -1
            &&& pointers && !path ==> script.len() == 1 && script[0] is Finish && script[0]->code
                == -2
            &&& path ==> script[0] is InitFromVideoData && script[1] is SetRenderParams && script[2]
                is OpenFile
            &&& path && !facts.opened ==> script.len() == 4 && script[3] is Finish
                && script[3]->code == -3
            &&& path && facts.opened ==> {
                &&& script.len() == (if request.wants_motion {
                    12int
                } else {
                    10
                })
                &&& script[3] is ReadFileLength
                &&& script[4] is LoadGyroData
                &&& script[5] is ReportFocalLength
                &&& script[6] is SetFov
                &&& script[7] is RecomputeBlocking
                &&& script[8] is ReportLens
                &&& request.wants_motion ==> script[9] is ReadMotion && script[10] is WriteMotion
                &&& script[script.len() - 1] is Finish
                &&& script[script.len() - 1]->code == (if facts.loaded {
                    0int
                } else {
                    -4
                })
            }
        }),
{
}

/// What the engine is told of the video. A duration or a frame rate that is a number above zero is
/// passed on bit for bit, and any other becomes zero. A count of frames is passed on, or zero where
/// it is negative. A side is passed on, or one pixel where it is less.
pub proof fn law_video_data_is_passed_on(request: LoadRequest, facts: LoadFacts)
    requires
        request.engine,
        request.url is Some,
        valid_utf8(request.url->0@),
    ensures
        ({
            let script = load_script(request, facts);
            let duration = script[0]->duration_ms;
            let fps = script[0]->fps;
            let size = script[0]->InitFromVideoData_size;
            &&& script[0] is InitFromVideoData
            &&& !request.duration_ms.not_a_number() && request.duration_ms.units() > 0
                ==> duration.bits == request.duration_ms.bits
            &&& request.duration_ms.not_a_number() || request.duration_ms.units() <= 0
                ==> duration.bits == 0
            &&& !request.fps.not_a_number() && request.fps.units() > 0 ==> fps.bits
                == request.fps.bits
            &&& request.fps.not_a_number() || request.fps.units() <= 0 ==> fps.bits == 0
            &&& script[0]->frame_count == (if request.frame_count < 0 {
                0int
            } else {
                request.frame_count as int
            })
            &&& size.width == (if request.width < 1 {
                1int
            } else {
                request.width as int
            })
            &&& size.height == (if request.height < 1 {
                1int
            } else {
                request.height as int
            })
            &&& script[1] == LoadAction::SetRenderParams { size, output_size: size }
        }),
{
    lemma_opening_of_script(request, facts);
}

proof fn lemma_opening_of_script(request: LoadRequest, facts: LoadFacts)
    requires
        refusal(request) is None,
    ensures
        load_script(request, facts).len() >= 4,
        forall|i: int|
            0 <= i < 3 ==> #[trigger] load_script(request, facts)[i] == load_opening(request)[i],
{
}

/// Two requests that differ in nothing but a frame rate above zero give the engine different
/// rates: none is lost on the way. The same holds of the duration and of the count of frames.
pub proof fn law_video_data_tells_requests_apart(a: LoadRequest, b: LoadRequest, facts: LoadFacts)
    requires
        a.engine && a.url is Some && valid_utf8(a.url->0@),
        b.engine && b.url is Some && valid_utf8(b.url->0@),
        load_script(a, facts)[0] == load_script(b, facts)[0],
    ensures
        !a.fps.not_a_number() && a.fps.units() > 0 && !b.fps.not_a_number() && b.fps.units() > 0
            ==> a.fps == b.fps,
        !a.duration_ms.not_a_number() && a.duration_ms.units() > 0 && !b.duration_ms.not_a_number()
            && b.duration_ms.units() > 0 ==> a.duration_ms == b.duration_ms,
        a.frame_count >= 0 && b.frame_count >= 0 ==> a.frame_count == b.frame_count,
        a.width >= 1 && b.width >= 1 ==> a.width == b.width,
        a.height >= 1 && b.height >= 1 ==> a.height == b.height,
{
    law_video_data_is_passed_on(a, facts);
    law_video_data_is_passed_on(b, facts);
}

/// What is done with an open file, in numbers. Its length is passed on where a `usize` can hold it,
/// without its highest bits where not, and as zero where it cannot be told. It is loaded as the
/// main video, whole. The field of view is one. The flag is one where there is motion and zero
/// where not.
pub proof fn law_open_file_numbers(request: LoadRequest, facts: LoadFacts)
    requires
        request.engine,
        request.url is Some,
        valid_utf8(request.url->0@),
        facts.opened,
    ensures
        ({
            let script = load_script(request, facts);
            let file_size = script[4]->file_size;
            &&& facts.file_length is None ==> file_size == 0
            &&& facts.file_length is Some && facts.file_length->0 <= usize::MAX ==> file_size
                == facts.file_length->0
            &&& facts.file_length is Some ==> (facts.file_length->0 - file_size) % (usize::MAX + 1)
                == 0
            &&& script[4]->main_video
            &&& script[4]->sample_index is None
            &&& script[4]->project_version == 0
            &&& script[6]->fov.bits == 0x3ff0_0000_0000_0000
            &&& request.wants_motion ==> script[10]->flag == (if facts.motion {
                1int
            } else {
                0
            })
        }),
{
    let script = load_script(request, facts);
    assert(script[4] == load_open_file(facts)[1]);
    assert(script[6] == load_open_file(facts)[3]);
    law_passed_length(facts.file_length);
}

/// A request is refused with -1 exactly where the engine or the path is missing, and with -2
/// exactly where both are there and the path is not UTF-8.
pub proof fn law_refusal(request: LoadRequest)
    ensures
        refusal(request) is Some && refusal(request)->0 == -1 <==> !request.engine || request.url
            is None,
        refusal(request) is Some && refusal(request)->0 == -2 <==> request.engine && request.url
            is Some && !valid_utf8(request.url->0@),
        refusal(request) is None <==> request.engine && request.url is Some && valid_utf8(
            request.url->0@,
        ),
{
}

/// A length that cannot be told is passed on as zero, and one that a `usize` can hold as it is; a
/// longer one is passed on less a multiple of what a `usize` can tell apart.
pub proof fn law_passed_length(length: Option<u64>)
    ensures
        0 <= passed_length(length) <= usize::MAX,
        length is None ==> passed_length(length) == 0,
        length is Some && length->0 <= usize::MAX ==> passed_length(length) == length->0,
        length is Some ==> (length->0 - passed_length(length)) % (usize::MAX + 1) == 0,
{
    if let Some(bytes) = length {
        let n = usize::MAX + 1;
        if bytes <= usize::MAX {
            lemma_small_mod(bytes as nat, n as nat);
        }
        lemma_fundamental_div_mod(bytes as int, n);
        lemma_mod_multiples_basic(bytes as int / n, n);
        assert((bytes as int / n) * n == n * (bytes as int / n)) by (nonlinear_arith);
        lemma_mod_bound(bytes as int, n);
    }
}

/// Each answer changes the fact that it tells, and no other.
pub proof fn law_load_facts(facts: LoadFacts, reply: LoadReply)
    ensures
        ({
            let told = facts.with(reply);
            &&& reply is Opened ==> told.opened == reply->Opened_0
            &&& !(reply is Opened) ==> told.opened == facts.opened
            &&& reply is FileLength ==> told.file_length == reply->FileLength_0
            &&& !(reply is FileLength) ==> told.file_length == facts.file_length
            &&& reply is Loaded ==> told.loaded == reply->Loaded_0
            &&& !(reply is Loaded) ==> told.loaded == facts.loaded
            &&& reply is Motion ==> told.motion == reply->Motion_0
            &&& !(reply is Motion) ==> told.motion == facts.motion
        }),
{
}

/// What an exchange waits for: after a question its own kind of answer, any at all; nothing after
/// the end; and otherwise only that the last action is done.
pub proof fn law_load_answers(session: LoadVideo, reply: LoadReply)
    requires
        session.wf(),
    ensures
        ({
            let performed = session.performed();
            let last = performed[performed.len() - 1];
            let started = performed.len() > 0;
            let asked = last is OpenFile || last is ReadFileLength || last is LoadGyroData || last
                is ReadMotion;
            &&& performed.is_prefix_of(load_script(session.request(), session.facts()))
            &&& session.finished() <==> started && last is Finish
            &&& started && last is Finish ==> !session.awaits(reply)
            &&& started && last is OpenFile ==> (session.awaits(reply) <==> reply is Opened)
            &&& started && last is ReadFileLength ==> (session.awaits(reply) <==> reply
                is FileLength)
            &&& started && last is LoadGyroData ==> (session.awaits(reply) <==> reply is Loaded)
            &&& started && last is ReadMotion ==> (session.awaits(reply) <==> reply is Motion)
            &&& !started || !(asked || last is Finish) ==> (session.awaits(reply) <==> reply
                is Done)
        }),
{
}

} // verus!
