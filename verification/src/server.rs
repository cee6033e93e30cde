//! The decisions of the MCP server: which model a call uses, the text the
//! server introduces itself with, and the checks a tool call passes before
//! its prompt is sent to `agy`.

use vstd::prelude::*;

use crate::agy::{DEFAULT_TIMEOUT_SECS, VIDEO_TIMEOUT_SECS};
use crate::error::AppError;
use crate::models::{guidance_of, guidance_text, is_listed, unknown_model_message, validate, ModelInfo};
use crate::probe::{MediaKind, MediaProbe};
use crate::prompts::{
    file_line, lemma_prompt_frame, opt_view, render, rendered, Modality, HARD_CONSTRAINTS,
};

verus! {

/// Audio longer than this many seconds needs confirmation.
pub const AUDIO_LONG_THRESHOLD_SECS: u64 = 1800;

/// Video longer than this many seconds needs confirmation.
pub const VIDEO_LONG_THRESHOLD_SECS: u64 = 300;

/// Microseconds in a second.
pub const MICROS_PER_SEC: u64 = 1_000_000;

/// Opens the message for a call without a model and without a default.
pub const MISSING_MODEL: &'static str = "Missing required parameter: `model`.\nNo default model was set on server startup.\n\n";

/// Opens the server's instructions.
pub const INSTRUCTIONS_INTRO: &'static str = "Gives text-only LLMs Gemini's vision, video, and audio understanding \
     via the `agy` CLI (Google Antigravity). Three tools: \
     `describe_image`, `describe_video`, `describe_audio`. Each accepts a \
     local path or a `data:<mime>;base64,...` data URI. Remote URLs are \
     not supported — download the file to a local path first. \
     By default each returns an exhaustive structured markdown description; \
     pass `question` to ask one specific question instead, or `focus` to \
     steer the structured description toward an aspect. Each tool validates \
     that the input matches its modality; pass `force_input_type: true` only \
     when you intentionally want to override that guard.\n\n";

/// Opens the sentence on the model parameter when there is a default.
pub const MODEL_OPTIONAL: &'static str = "The `model` parameter is optional (default: `";

/// Closes the sentence on the model parameter when there is a default.
pub const MODEL_OPTIONAL_END: &'static str = "`). No API key \
     needed — `agy` must be installed and signed in.\n\n";

/// The sentence on the model parameter when there is no default.
pub const MODEL_REQUIRED: &'static str = "The `model` parameter is REQUIRED on every call unless a default model was \
     configured on server startup via `--model`. No API key needed — `agy` must \
     be installed and signed in.\n\n";

/// The server's own state: the model used when a call names none.
#[derive(Debug)]
pub struct VisionServer {
    pub default_model: Option<String>,
}

/// The parameters of `describe_image`.
#[derive(Debug, Clone)]
pub struct DescribeImageParams {
    pub image: String,
    pub model: Option<String>,
    pub focus: Option<String>,
    pub question: Option<String>,
    pub force_input_type: bool,
    pub confirm_long_media: bool,
}

/// The parameters of `describe_video`.
#[derive(Debug, Clone)]
pub struct DescribeVideoParams {
    pub video: String,
    pub model: Option<String>,
    pub focus: Option<String>,
    pub question: Option<String>,
    pub confirm_long_media: bool,
    pub force_input_type: bool,
}

/// The parameters of `describe_audio`.
#[derive(Debug, Clone)]
pub struct DescribeAudioParams {
    pub audio: String,
    pub model: Option<String>,
    pub focus: Option<String>,
    pub question: Option<String>,
    pub confirm_long_media: bool,
    pub force_input_type: bool,
}

/// One call of a tool, with everything that decides how it is served.
#[derive(Debug)]
pub struct ToolCall<'a> {
    pub modality: Modality,
    pub input: &'a str,
    pub focus: Option<&'a str>,
    pub question: Option<&'a str>,
    pub model: &'a str,
    pub deadline_secs: u64,
    pub confirm_long_media: bool,
    pub force_input_type: bool,
}

/// The models listed by `agy`, kept once a listing has been read that is
/// not empty.
#[derive(Debug)]
pub struct ModelCache {
    models: Option<Vec<ModelInfo>>,
}

// ---------------------------------------------------------------------------
// Models
// ---------------------------------------------------------------------------

/// The view of an optional `String`.
pub open spec fn opt_string_view(o: Option<String>) -> Option<Seq<char>> {
    match o {
        Some(s) => Some(s@),
        None => None,
    }
}

/// The model a call uses: the one it names, else the default.
pub open spec fn chosen_model(requested: Option<Seq<char>>, default_model: Option<Seq<char>>) -> Option<Seq<char>> {
    match requested {
        Some(m) => Some(m),
        None => default_model,
    }
}

/// The message for a call that names no model when there is no default.
pub open spec fn missing_model_message(models: Seq<ModelInfo>) -> Seq<char> {
    MISSING_MODEL@ + guidance_of(models)
}

/// The instructions the server introduces itself with.
pub open spec fn instructions_of(default_model: Option<Seq<char>>, models: Seq<ModelInfo>) -> Seq<char> {
    INSTRUCTIONS_INTRO@ + match default_model {
        Some(m) => MODEL_OPTIONAL@ + m + MODEL_OPTIONAL_END@,
        None => MODEL_REQUIRED@,
    } + guidance_of(models)
}

/// The kind of media a modality expects.
pub open spec fn kind_for(modality: Modality) -> MediaKind {
    match modality {
        Modality::Image => MediaKind::Image,
        Modality::Video => MediaKind::Video,
        Modality::Audio => MediaKind::Audio,
    }
}

/// The length above which a kind of media needs confirmation, in seconds.
pub open spec fn threshold_of(kind: MediaKind) -> Option<u64> {
    match kind {
        MediaKind::Audio => Some(AUDIO_LONG_THRESHOLD_SECS),
        MediaKind::Video => Some(VIDEO_LONG_THRESHOLD_SECS),
        MediaKind::Image => None,
    }
}

/// Why a tool call is refused before `agy` runs.
pub enum Refusal {
    Mismatch { expected: MediaKind, actual: MediaKind },
    UnknownType { expected: MediaKind },
    TooLong { secs: u64, threshold: u64 },
    UnknownDuration,
    Model(Seq<char>),
}

/// The error matches the refusal.
pub open spec fn refuses_as(e: AppError, r: Refusal) -> bool {
    match r {
        Refusal::Mismatch { expected, actual } => e matches AppError::InputTypeMismatch {
            expected: x,
            actual: y,
        } && x@ == expected.name() && y@ == actual.name(),
        Refusal::UnknownType { expected } => e matches AppError::UnknownInputType { expected: x }
            && x@ == expected.name(),
        Refusal::TooLong { secs, threshold } => e matches AppError::LongMedia {
            secs: s,
            threshold: t,
        } && s == secs && t == threshold,
        Refusal::UnknownDuration => e matches AppError::UnknownDuration,
        Refusal::Model(m) => e matches AppError::Input(x) && x@ == m,
    }
}

/// The input-type check: the probed kind must be the expected one unless the
/// check is forced; an unknown kind is refused unless forced.
pub open spec fn type_check(expected: MediaKind, force: bool, kind: Option<MediaKind>) -> Option<Refusal> {
    match kind {
        Some(actual) => if actual == expected || force {
            None
        } else {
            Some(Refusal::Mismatch { expected, actual })
        },
        None => if force {
            None
        } else {
            Some(Refusal::UnknownType { expected })
        },
    }
}

/// The length check: media of the probed kind (else of the expected kind)
/// that has a threshold must not be longer than it, and its length must be
/// known, unless long media is confirmed.
pub open spec fn length_check(expected: MediaKind, confirm: bool, probe: MediaProbe) -> Option<Refusal> {
    let kind = match probe.kind {
        Some(k) => k,
        None => expected,
    };
    match threshold_of(kind) {
        None => None,
        Some(th) => match probe.duration_micros {
            Some(d) => if d > th * MICROS_PER_SEC && !confirm {
                Some(Refusal::TooLong { secs: (d / MICROS_PER_SEC) as u64, threshold: th })
            } else {
                None
            },
            None => if confirm {
                None
            } else {
                Some(Refusal::UnknownDuration)
            },
        },
    }
}

impl<'a> ToolCall<'a> {
    /// What a call leads to, once its input is probed: the prompt for `agy`,
    /// or the first check that refuses it (input type, then length, then the
    /// model name).
    pub open spec fn plan_of(self, probe: MediaProbe, models: Seq<ModelInfo>, file_ref: Seq<char>) -> Result<Seq<char>, Refusal> {
        let expected = kind_for(self.modality);
        match type_check(expected, self.force_input_type, probe.kind) {
            Some(r) => Err(r),
            None => match length_check(expected, self.confirm_long_media, probe) {
                Some(r) => Err(r),
                None => if models.len() == 0 || is_listed(models, self.model@) {
                    Ok(rendered(self.modality, opt_view(self.focus), opt_view(self.question), file_ref))
                } else {
                    Err(Refusal::Model(unknown_model_message(models, self.model@)))
                },
            },
        }
    }
}

// ---------------------------------------------------------------------------
// Functions
// ---------------------------------------------------------------------------

fn opt_str(o: &Option<String>) -> (r: Option<&str>)
    ensures
        opt_view(r) == opt_string_view(*o),
{
    match o {
        Some(s) => Some(s.as_str()),
        None => None,
    }
}

impl VisionServer {
    /// A server with the given default model.
    pub fn new(default_model: Option<String>) -> (s: Self)
        ensures
            s.default_model == default_model,
    {
        VisionServer { default_model }
    }

    /// The message for a call that names no model when there is no default.
    pub fn missing_model_error(&self, models: &[ModelInfo]) -> (msg: String)
        ensures
            msg@ == missing_model_message(models@),
    {
        let mut msg = String::from_str(MISSING_MODEL);
        let guidance = guidance_text(models);
        msg.append(guidance.as_str());
        msg
    }

    /// The model a call uses: the one it names, else the default; with
    /// neither, the error explains that a model is required and lists the
    /// models.
    pub fn resolve_model(&self, requested: Option<&str>, models: &[ModelInfo]) -> (r: Result<String, String>)
        ensures
            match chosen_model(opt_view(requested), opt_string_view(self.default_model)) {
                Some(m) => r matches Ok(s) && s@ == m,
                None => r matches Err(e) && e@ == missing_model_message(models@),
            },
    {
        match requested {
            Some(m) => Ok(String::from_str(m)),
            None => match &self.default_model {
                Some(m) => Ok(m.clone()),
                None => Err(self.missing_model_error(models)),
            },
        }
    }

    /// The instructions the server introduces itself with: what the tools
    /// do, whether a model must be named (and the default, if any), and the
    /// guidance on models.
    pub fn instructions(&self, models: &[ModelInfo]) -> (text: String)
        ensures
            text@ == instructions_of(opt_string_view(self.default_model), models@),
    {
        let mut text = String::from_str(INSTRUCTIONS_INTRO);
        match &self.default_model {
            Some(m) => {
                text.append(MODEL_OPTIONAL);
                text.append(m.as_str());
                text.append(MODEL_OPTIONAL_END);
            },
            None => {
                text.append(MODEL_REQUIRED);
            },
        }
        let guidance = guidance_text(models);
        text.append(guidance.as_str());
        text
    }
}

impl Default for VisionServer {
    fn default() -> (s: Self)
        ensures
            s.default_model is None,
    {
        Self::new(None)
    }
}

impl<'a> ToolCall<'a> {
    /// The call of `describe_image` with the given parameters and model.
    pub fn image(params: &'a DescribeImageParams, model: &'a str) -> (c: Self)
        ensures
            c.modality == Modality::Image,
            c.input@ == params.image@,
            opt_view(c.focus) == opt_string_view(params.focus),
            opt_view(c.question) == opt_string_view(params.question),
            c.model@ == model@,
            c.deadline_secs == DEFAULT_TIMEOUT_SECS,
            c.confirm_long_media == params.confirm_long_media,
            c.force_input_type == params.force_input_type,
    {
        ToolCall {
            modality: Modality::Image,
            input: params.image.as_str(),
            focus: opt_str(&params.focus),
            question: opt_str(&params.question),
            model,
            deadline_secs: DEFAULT_TIMEOUT_SECS,
            confirm_long_media: params.confirm_long_media,
            force_input_type: params.force_input_type,
        }
    }

    /// The call of `describe_video` with the given parameters and model.
    pub fn video(params: &'a DescribeVideoParams, model: &'a str) -> (c: Self)
        ensures
            c.modality == Modality::Video,
            c.input@ == params.video@,
            opt_view(c.focus) == opt_string_view(params.focus),
            opt_view(c.question) == opt_string_view(params.question),
            c.model@ == model@,
            c.deadline_secs == VIDEO_TIMEOUT_SECS,
            c.confirm_long_media == params.confirm_long_media,
            c.force_input_type == params.force_input_type,
    {
        ToolCall {
            modality: Modality::Video,
            input: params.video.as_str(),
            focus: opt_str(&params.focus),
            question: opt_str(&params.question),
            model,
            deadline_secs: VIDEO_TIMEOUT_SECS,
            confirm_long_media: params.confirm_long_media,
            force_input_type: params.force_input_type,
        }
    }

    /// The call of `describe_audio` with the given parameters and model.
    pub fn audio(params: &'a DescribeAudioParams, model: &'a str) -> (c: Self)
        ensures
            c.modality == Modality::Audio,
            c.input@ == params.audio@,
            opt_view(c.focus) == opt_string_view(params.focus),
            opt_view(c.question) == opt_string_view(params.question),
            c.model@ == model@,
            c.deadline_secs == DEFAULT_TIMEOUT_SECS,
            c.confirm_long_media == params.confirm_long_media,
            c.force_input_type == params.force_input_type,
    {
        ToolCall {
            modality: Modality::Audio,
            input: params.audio.as_str(),
            focus: opt_str(&params.focus),
            question: opt_str(&params.question),
            model,
            deadline_secs: DEFAULT_TIMEOUT_SECS,
            confirm_long_media: params.confirm_long_media,
            force_input_type: params.force_input_type,
        }
    }

    /// The kind of media the call expects.
    pub fn expected_kind(&self) -> (k: MediaKind)
        ensures
            k == kind_for(self.modality),
    {
        match self.modality {
            Modality::Image => MediaKind::Image,
            Modality::Video => MediaKind::Video,
            Modality::Audio => MediaKind::Audio,
        }
    }

    /// Checks that the probed kind is the expected one; a mismatch or an
    /// unknown kind is refused unless the call forces the input type.
    pub fn validate_input_type(&self, probe: &MediaProbe) -> (r: Result<(), AppError>)
        ensures
            match type_check(kind_for(self.modality), self.force_input_type, probe.kind) {
                None => r is Ok,
                Some(f) => r matches Err(e) && refuses_as(e, f),
            },
    {
        let expected = self.expected_kind();
        match probe.kind {
            Some(actual) => {
                if actual == expected || self.force_input_type {
                    Ok(())
                } else {
                    Err(AppError::InputTypeMismatch { expected: expected.as_str(), actual: actual.as_str() })
                }
            },
            None => {
                if self.force_input_type {
                    Ok(())
                } else {
                    Err(AppError::UnknownInputType { expected: expected.as_str() })
                }
            },
        }
    }

    /// Checks the length of the media against the threshold of its kind (the
    /// probed kind, else the expected one): longer media, or media of unknown
    /// length, is refused unless the call confirms long media.
    pub fn enforce_long_media_policy(&self, probe: &MediaProbe) -> (r: Result<(), AppError>)
        ensures
            match length_check(kind_for(self.modality), self.confirm_long_media, *probe) {
                None => r is Ok,
                Some(f) => r matches Err(e) && refuses_as(e, f),
            },
    {
        let policy_kind = match probe.kind {
            Some(k) => k,
            None => self.expected_kind(),
        };
        let threshold = match long_threshold(policy_kind) {
            Some(t) => t,
            None => {
                return Ok(());
            },
        };
        match probe.duration_micros {
            Some(d) => {
                if d > threshold * MICROS_PER_SEC && !self.confirm_long_media {
                    Err(AppError::LongMedia { secs: d / MICROS_PER_SEC, threshold })
                } else {
                    Ok(())
                }
            },
            None => {
                if self.confirm_long_media {
                    Ok(())
                } else {
                    Err(AppError::UnknownDuration)
                }
            },
        }
    }

    /// What the call leads to once its input is probed and the models are
    /// known: the checks of input type, length and model name in this
    /// order, then the prompt for `agy` pointing at `file_ref`.
    pub fn plan(&self, probe: &MediaProbe, models: &[ModelInfo], file_ref: &str) -> (r: Result<String, AppError>)
        ensures
            match self.plan_of(*probe, models@, file_ref@) {
                Ok(p) => r matches Ok(s) && s@ == p,
                Err(f) => r matches Err(e) && refuses_as(e, f),
            },
    {
        if let Err(e) = self.validate_input_type(probe) {
            return Err(e);
        }
        if let Err(e) = self.enforce_long_media_policy(probe) {
            return Err(e);
        }
        if let Err(msg) = validate(models, self.model) {
            return Err(AppError::Input(msg));
        }
        Ok(render(self.modality, self.focus, self.question, file_ref))
    }
}

/// The length above which a kind of media needs confirmation, in seconds.
pub fn long_threshold(kind: MediaKind) -> (t: Option<u64>)
    ensures
        t == threshold_of(kind),
{
    match kind {
        MediaKind::Audio => Some(AUDIO_LONG_THRESHOLD_SECS),
        MediaKind::Video => Some(VIDEO_LONG_THRESHOLD_SECS),
        MediaKind::Image => None,
    }
}

impl ModelCache {
    /// The models kept, if a listing has been kept.
    pub closed spec fn kept(&self) -> Option<Seq<ModelInfo>> {
        match self.models {
            Some(v) => Some(v@),
            None => None,
        }
    }

    /// A cache that keeps nothing yet.
    pub fn new() -> (c: Self)
        ensures
            c.kept() is None,
    {
        ModelCache { models: None }
    }

    /// The models kept, if any.
    pub fn get(&self) -> (r: Option<&[ModelInfo]>)
        ensures
            match self.kept() {
                Some(ms) => r matches Some(s) && s@ == ms,
                None => r is None,
            },
    {
        match &self.models {
            Some(v) => Some(v.as_slice()),
            None => None,
        }
    }

    /// The models kept, or none.
    pub fn current(&self) -> (r: &[ModelInfo])
        ensures
            r@ == match self.kept() {
                Some(ms) => ms,
                None => Seq::<ModelInfo>::empty(),
            },
    {
        match &self.models {
            Some(v) => v.as_slice(),
            None => &[],
        }
    }

    /// Offers a freshly read listing: it is kept when nothing is kept yet
    /// and it is not empty; otherwise the cache is unchanged.
    pub fn offer(&mut self, loaded: Vec<ModelInfo>)
        ensures
            final(self).kept() == if old(self).kept() is None && loaded@.len() > 0 {
                Some(loaded@)
            } else {
                old(self).kept()
            },
    {
        if self.models.is_none() && loaded.len() > 0 {
            self.models = Some(loaded);
        }
    }
}

// ---------------------------------------------------------------------------
// Laws
// ---------------------------------------------------------------------------

/// Forcing the input type passes the input-type check, whatever was probed.
pub proof fn lemma_force_passes_type_check(expected: MediaKind, kind: Option<MediaKind>)
    ensures
        type_check(expected, true, kind) is None,
{
}

/// Confirming long media passes the length check, whatever was probed.
pub proof fn lemma_confirm_passes_length_check(expected: MediaKind, probe: MediaProbe)
    ensures
        length_check(expected, true, probe) is None,
{
}

/// Without confirmation, video longer than five minutes and audio longer
/// than thirty minutes are refused, with their length in whole seconds.
pub proof fn lemma_long_media_needs_confirmation(expected: MediaKind, probe: MediaProbe, d: u64)
    requires
        probe.duration_micros == Some(d),
        probe.kind == Some(MediaKind::Video) && d > 300 * 1_000_000 || probe.kind == Some(
            MediaKind::Audio,
        ) && d > 1800 * 1_000_000,
    ensures
        length_check(expected, false, probe) matches Some(Refusal::TooLong { secs, threshold })
            && secs == d / 1_000_000 && (threshold == 300 || threshold == 1800),
{
}

/// Images are never held to a length limit.
pub proof fn lemma_images_have_no_length_limit(expected: MediaKind, confirm: bool, probe: MediaProbe)
    requires
        probe.kind == Some(MediaKind::Image),
    ensures
        length_check(expected, confirm, probe) is None,
{
}

/// A model named in the call wins over the default; the default is used only
/// when the call names none.
pub proof fn lemma_requested_model_wins(requested: Seq<char>, default_model: Option<Seq<char>>)
    ensures
        chosen_model(Some(requested), default_model) == Some(requested),
        chosen_model(None, default_model) == default_model,
{
}

/// A call reaches `agy` only when it passed every check: its input is of the
/// expected kind (or forced), its length is within the limit (or confirmed),
/// and its model is listed (or nothing is listed). The prompt it sends starts
/// with the perception-only rules and ends by naming the file.
pub proof fn lemma_planned_calls_passed_every_check(
    call: ToolCall,
    probe: MediaProbe,
    models: Seq<ModelInfo>,
    file_ref: Seq<char>,
)
    ensures
        call.plan_of(probe, models, file_ref) matches Ok(p) ==> {
            &&& type_check(kind_for(call.modality), call.force_input_type, probe.kind) is None
            &&& length_check(kind_for(call.modality), call.confirm_long_media, probe) is None
            &&& models.len() == 0 || is_listed(models, call.model@)
            &&& p.take(HARD_CONSTRAINTS@.len() as int) == HARD_CONSTRAINTS@
            &&& p.skip(p.len() - file_line(file_ref).len()) == file_line(file_ref)
        },
{
    lemma_prompt_frame(call.modality, opt_view(call.focus), opt_view(call.question), file_ref);
}

/// Without `force_input_type`, the input-type check passes only when the
/// probed kind is the tool's own kind, and always passes then; a different
/// kind is refused naming both kinds, and an unknown kind is refused.
pub proof fn lemma_type_check_without_force(expected: MediaKind, kind: Option<MediaKind>)
    ensures
        type_check(expected, false, kind) is None <==> kind == Some(expected),
        forall|a: MediaKind|
            kind == Some(a) && a != expected ==> #[trigger] type_check(expected, false, Some(a))
                == Some(Refusal::Mismatch { expected: expected, actual: a }),
        kind is None ==> type_check(expected, false, kind) == Some(
            Refusal::UnknownType { expected: expected },
        ),
{
}

/// Media within the limit of its kind passes the length check: video of at
/// most five minutes and audio of at most thirty minutes, of known length.
pub proof fn lemma_short_media_passes(expected: MediaKind, confirm: bool, probe: MediaProbe, d: u64)
    requires
        probe.duration_micros == Some(d),
        probe.kind == Some(MediaKind::Video) && d <= 300 * 1_000_000 || probe.kind == Some(
            MediaKind::Audio,
        ) && d <= 1800 * 1_000_000,
    ensures
        length_check(expected, confirm, probe) is None,
{
}

/// Each tool accepts, without forcing, exactly its own kind of media: the
/// image tool images, the video tool video, the audio tool audio; and when
/// the kind is unknown the length limit of the tool's own kind applies.
pub proof fn lemma_tools_check_their_own_kind(call: ToolCall, probe: MediaProbe, models: Seq<ModelInfo>, file_ref: Seq<char>, k: MediaKind)
    requires
        !call.force_input_type,
        probe.kind == Some(k),
    ensures
        call.modality == Modality::Image && k != MediaKind::Image ==> call.plan_of(probe, models, file_ref)
            == Err::<Seq<char>, Refusal>(Refusal::Mismatch { expected: MediaKind::Image, actual: k }),
        call.modality == Modality::Video && k != MediaKind::Video ==> call.plan_of(probe, models, file_ref)
            == Err::<Seq<char>, Refusal>(Refusal::Mismatch { expected: MediaKind::Video, actual: k }),
        call.modality == Modality::Audio && k != MediaKind::Audio ==> call.plan_of(probe, models, file_ref)
            == Err::<Seq<char>, Refusal>(Refusal::Mismatch { expected: MediaKind::Audio, actual: k }),
{
}

/// When the kind of the media is unknown, the limit of the tool's own kind
/// applies: the video tool refuses unconfirmed media longer than five
/// minutes, the audio tool media longer than thirty minutes.
pub proof fn lemma_unknown_kind_uses_tool_limit(probe: MediaProbe, d: u64)
    requires
        probe.kind is None,
        probe.duration_micros == Some(d),
    ensures
        d > 300 * 1_000_000 ==> length_check(MediaKind::Video, false, probe) == Some(
            Refusal::TooLong { secs: d / 1_000_000, threshold: 300 },
        ),
        d > 1800 * 1_000_000 ==> length_check(MediaKind::Audio, false, probe) == Some(
            Refusal::TooLong { secs: d / 1_000_000, threshold: 1800 },
        ),
        d <= 300 * 1_000_000 ==> length_check(MediaKind::Video, false, probe) is None,
        length_check(MediaKind::Image, false, probe) is None,
{
}

} // verus!
