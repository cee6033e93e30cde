//! The prompt sent to `agy`: fixed perception-only rules, then either the
//! caller's question or the structured description for the modality, then
//! the path of the file to view.

use vstd::prelude::*;

verus! {

/// The kind of media a tool describes.
#[derive(Debug, Clone, Copy, PartialEq, Eq, Structural)]
pub enum Modality {
    Image,
    Video,
    Audio,
}

/// The rules that keep the model to perceiving the one file.
pub const HARD_CONSTRAINTS: &'static str = "\
You are operating in PERCEPTION-ONLY mode. Hard constraints:
- Your ONLY allowed action is to use a file-viewing tool to read the
  single file given below, so its content enters your multimodal
  context. Call that tool exactly once on the given path, then stop
  using tools.
- Do NOT write, edit, create, or execute any code or files.
- Do NOT search the web. Do NOT list or explore the workspace or any
  directory. Do NOT run shell commands.
- Do NOT reference any file other than the single one given below.
- Do NOT attempt to compute quantitative values (no code, no exact
  hex codes, no exact Hz, no exact BPM, no exact pixel counts,
  no exact timestamps or durations in seconds).
- After viewing the file, answer ONLY from what you now perceive in
  it. If something cannot be determined by direct perception, say
  \"uncertain\" rather than guessing or computing.";

/// The structured description asked of an image.
pub const IMAGE_BODY: &'static str = "\
Describe this image in exhaustive, structured detail. Cover ALL
categories below; for any that do not apply, write \"N/A\" rather than
inventing content.

1. Overall scene & setting
   - What is happening, where, and (only if cues exist) when.
2. Every visible object & person
   - For each: position (left/center/right, foreground/midground/
     background), rough size relative to the frame, color (named,
     not hex), texture, and—for people—pose, gaze direction, facial
     expression, clothing, accessories.
3. Spatial layout & composition
   - Foreground / midground / background layers; leading lines,
     framing, symmetry, depth of field.
4. Lighting
   - Direction, hardness (hard/soft), warmth (warm/neutral/cool),
     shadow quality, and any time-of-day or artificial-light cues.
5. Color palette
   - Name the 3-5 dominant tones in plain language (e.g. \"muted
     teal\", \"warm cream\"). No hex codes.
6. Visible text, symbols, numbers
   - Transcribe VERBATIM and give each item's location. If none,
     write \"None\".
7. Style, mood & atmosphere
   - Photographic / illustrative / diagrammatic / screenshot;
     emotional tone; likely intended audience if obvious.
8. Notable details a casual viewer would miss

MODALITY-SPECIFIC ADAPTATION:
- Chart / diagram / schematic / UI screenshot: prioritize structure,
  axes, labels, values, and layout hierarchy over photographic
  qualities. Transcribe all readable data points.
- Document / screenshot of text: transcribe the text faithfully first,
  then describe layout.
- Meme or image with overlaid text: transcribe the overlay and explain
  the juxtaposition with the underlying image.

Format: markdown with an H3 (###) per category. Be concrete; avoid
vague adjectives like \"nice\" or \"interesting\". When an interpretation
is inferred rather than directly visible, mark it \"(inferred)\".";

/// The structured description asked of a video.
pub const VIDEO_BODY: &'static str = "\
Describe this video in exhaustive, structured detail. Cover ALL
categories below; for any that do not apply, write \"N/A\".

1. Overall summary
   - One paragraph: what happens, setting, duration feel (short clip /
     long segment — do NOT guess exact seconds).
2. Visual timeline
   - Walk through the video in temporal order. Use relative markers
     (\"at the start\", \"about a quarter in\", \"around halfway\",
     \"near three-quarters\", \"at the end\"). For each segment: what is
     on screen, camera movement (static / pan / zoom / handheld),
     and any notable change.
3. People & objects
   - Every recurring or significant person/object: appearance, color
     (named, not hex), position, and how they move or change over time.
4. On-screen text & graphics
   - Transcribe VERBATIM with the moment they appear (relative time).
     Titles, subtitles, captions, UI overlays, watermarks. If none,
     write \"None\".
5. Audio description
   - Speech: who seems to be speaking, language(s), approximate tone
     and pace (do NOT transcribe unless it is short and clearly
     legible — instead summarize content).
   - Non-speech: music (genre feel, mood), sound effects, ambient
     environment. Do NOT guess BPM or exact instruments if unclear.
6. Lighting & color
   - Lighting quality and color palette in plain language. Note any
     shifts between scenes.
7. Mood, style & likely genre
   - Documentary / vlog / animation / tutorial / security cam / etc.
8. Notable details a casual viewer would miss

Format: markdown with an H3 (###) per category. Use relative temporal
markers everywhere; never invent exact timestamps. Mark inferences
with \"(inferred)\".";

/// The structured description asked of an audio recording.
pub const AUDIO_BODY: &'static str = "\
Describe this audio recording in exhaustive, structured detail. Cover
ALL categories below; for any that do not apply, write \"N/A\".

1. Overall summary
   - One paragraph: what kind of recording this is (speech / music /
     ambient / mixed), general character, rough length feel (short /
     medium / long — do NOT guess exact seconds).
2. Speech (if present)
   - Number of distinct speakers and roughly when each is active
     (relative markers: \"at the start\", \"midway\", etc.).
   - Language(s) heard. If multiple, note switches.
   - For each speaker: apparent gender/age feel, tone, pace, emotion.
   - Content: summarize what is being said. Do NOT attempt a full
     verbatim transcript unless the recording is very short and the
     speech is clearly legible; instead give a faithful summary with
     key phrases quoted when they matter.
   - If no speech: write \"No speech\".
3. Music (if present)
   - Genre feel, mood, instrumentation in plain language (e.g.
     \"soft piano\", \"synth pad\"). Do NOT guess exact BPM or key.
   - Sections / changes over time (intro, verse, build, etc., in
     relative terms).
   - If no music: write \"No music\".
4. Sound effects & events
   - Discrete events (door slam, dog bark, notification chime, etc.)
     with relative timing and a plain-language description.
5. Ambient / background
   - Environment cues (outdoor traffic, cafe murmur, room tone,
     wind, etc.) and how steady or changing they are.
6. Audio quality
   - Clarity, presence of noise/static/clipping/reverb. 
   Do NOT guess sample rate or bit depth.
7. Notable details a casual listener would miss

Format: markdown with an H3 (###) per category. Use relative temporal
markers throughout; never invent exact timestamps, durations, Hz, or
BPM. Mark inferences with \"(inferred)\".";

/// Opens the paragraph that steers the description toward an aspect.
pub const FOCUS_INTRO: &'static str = "The caller is specifically interested in: ";

/// Closes the paragraph that steers the description toward an aspect.
pub const FOCUS_OUTRO: &'static str = ". Still complete all\n\
     categories, but give extra attention to this aspect within the\n\
     relevant categories.";

/// Introduces the path of the file to view.
pub const FILE_INTRO: &'static str = "The file to view (call your file-viewing tool on this exact path): ";

/// A line break.
pub const NL: &'static str = "\n";

// ---------------------------------------------------------------------------
// Models
// ---------------------------------------------------------------------------

/// The view of an optional string.
pub open spec fn opt_view(o: Option<&str>) -> Option<Seq<char>> {
    match o {
        Some(s) => Some(s@),
        None => None,
    }
}

/// `s` without one leading `@`, if it has one.
pub open spec fn strip_at(s: Seq<char>) -> Seq<char> {
    if s.len() > 0 && s[0] == '@' {
        s.drop_first()
    } else {
        s
    }
}

/// The structured description asked for a modality.
pub open spec fn body_of(modality: Modality) -> Seq<char> {
    match modality {
        Modality::Image => IMAGE_BODY@,
        Modality::Video => VIDEO_BODY@,
        Modality::Audio => AUDIO_BODY@,
    }
}

/// The closing line that names the file to view.
pub open spec fn file_line(file_ref: Seq<char>) -> Seq<char> {
    FILE_INTRO@ + strip_at(file_ref) + NL@
}

/// The paragraph that steers the description toward `focus`.
pub open spec fn focus_block(focus: Seq<char>) -> Seq<char> {
    NL@ + FOCUS_INTRO@ + focus + FOCUS_OUTRO@ + NL@
}

/// The whole prompt.
pub open spec fn rendered(
    modality: Modality,
    focus: Option<Seq<char>>,
    question: Option<Seq<char>>,
    file_ref: Seq<char>,
) -> Seq<char> {
    HARD_CONSTRAINTS@ + NL@ + NL@ + match question {
        Some(q) => q + NL@ + NL@ + file_line(file_ref),
        None => body_of(modality) + NL@ + match focus {
            Some(f) => focus_block(f),
            None => Seq::<char>::empty(),
        } + NL@ + file_line(file_ref),
    }
}

// ---------------------------------------------------------------------------
// Functions
// ---------------------------------------------------------------------------

/// The prompt for one tool call. With a question, the question replaces the
/// structured description (and the focus is not used); without one, the
/// modality's structured description is asked for, steered toward the focus
/// when there is one.
pub fn render(
    modality: Modality,
    focus: Option<&str>,
    question: Option<&str>,
    file_ref: &str,
) -> (out: String)
    ensures
        out@ == rendered(modality, opt_view(focus), opt_view(question), file_ref@),
{
    let mut out = String::from_str(HARD_CONSTRAINTS);
    out.append(NL);
    out.append(NL);
    match question {
        Some(q) => {
            write_question_prompt(&mut out, q, file_ref);
        },
        None => {
            write_structured_prompt(&mut out, modality, focus, file_ref);
        },
    }
    out
}

fn write_question_prompt(out: &mut String, question: &str, file_ref: &str)
    ensures
        final(out)@ == old(out)@ + (question@ + NL@ + NL@ + file_line(file_ref@)),
{
    out.append(question);
    out.append(NL);
    out.append(NL);
    write_file_ref(out, file_ref);
}

fn write_structured_prompt(out: &mut String, modality: Modality, focus: Option<&str>, file_ref: &str)
    ensures
        final(out)@ == old(out)@ + (body_of(modality) + NL@ + match opt_view(focus) {
            Some(f) => focus_block(f),
            None => Seq::<char>::empty(),
        } + NL@ + file_line(file_ref@)),
{
    out.append(body_for(modality));
    out.append(NL);
    if let Some(f) = focus {
        out.append(NL);
        out.append(FOCUS_INTRO);
        out.append(f);
        out.append(FOCUS_OUTRO);
        out.append(NL);
    }
    out.append(NL);
    write_file_ref(out, file_ref);
}

/// The structured description asked for a modality.
pub fn body_for(modality: Modality) -> (body: &'static str)
    ensures
        body@ == body_of(modality),
{
    match modality {
        Modality::Image => IMAGE_BODY,
        Modality::Video => VIDEO_BODY,
        Modality::Audio => AUDIO_BODY,
    }
}

fn write_file_ref(out: &mut String, file_ref: &str)
    ensures
        final(out)@ == old(out)@ + file_line(file_ref@),
{
    out.append(FILE_INTRO);
    let n: usize = file_ref.unicode_len();
    if n > 0 && file_ref.get_char(0) == '@' {
        let rest = file_ref.substring_char(1, n);
        assert(rest@ =~= file_ref@.drop_first());
        out.append(rest);
    } else {
        out.append(file_ref);
    }
    out.append(NL);
}

// ---------------------------------------------------------------------------
// Laws
// ---------------------------------------------------------------------------

/// Every prompt starts with the perception-only rules and ends with the line
/// that names the file to view.
pub proof fn lemma_prompt_frame(
    modality: Modality,
    focus: Option<Seq<char>>,
    question: Option<Seq<char>>,
    file_ref: Seq<char>,
)
    ensures
        rendered(modality, focus, question, file_ref).take(HARD_CONSTRAINTS@.len() as int)
            == HARD_CONSTRAINTS@,
        rendered(modality, focus, question, file_ref).skip(
            rendered(modality, focus, question, file_ref).len() - file_line(file_ref).len(),
        ) == file_line(file_ref),
{
    let r = rendered(modality, focus, question, file_ref);
    assert(r.take(HARD_CONSTRAINTS@.len() as int) =~= HARD_CONSTRAINTS@);
    assert(r.skip(r.len() - file_line(file_ref).len()) =~= file_line(file_ref));
}

/// A question replaces the structured description: the prompt then depends
/// neither on the modality nor on the focus.
pub proof fn lemma_question_overrides(
    m1: Modality,
    m2: Modality,
    f1: Option<Seq<char>>,
    f2: Option<Seq<char>>,
    q: Seq<char>,
    file_ref: Seq<char>,
)
    ensures
        rendered(m1, f1, Some(q), file_ref) == rendered(m2, f2, Some(q), file_ref),
{
}

/// The path handed to `agy` is the resolved path: pointing at a file by `@`
/// and its path, the prompt's closing line names exactly that path.
pub proof fn lemma_prompt_names_path(path: Seq<char>)
    ensures
        file_line(seq!['@'] + path) == FILE_INTRO@ + path + NL@,
{
    assert((seq!['@'] + path).drop_first() =~= path);
}

} // verus!
