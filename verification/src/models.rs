//! The models that `agy` offers: parsing its listing, classifying each model,
//! guidance for the caller, and validation of a requested model name.

use vstd::prelude::*;

use crate::text::{
    chars_of, contains, is_white_space, join, lemma_join_push, lemma_occurs_in_concat_left,
    lemma_occurs_in_concat_right, lemma_split_pieces_lack_sep, lemma_trim_edges, lemma_trim_end,
    lemma_trim_start, lower, lower_chars, occurs_at, split, split_chars, str_contains, str_eq,
    string_of_range, trim, trim_bounds, trim_start, views,
};

verus! {

/// The family a model belongs to.
#[derive(Debug, Clone, Copy, PartialEq, Eq, Structural)]
pub enum ModelTier {
    Flash,
    Pro,
    Other,
}

/// One model of the listing.
#[derive(Debug, Clone)]
pub struct ModelInfo {
    pub name: String,
    pub tier: ModelTier,
}

pub const WARNING_NO_MODELS: &'static str = "WARNING: `agy models` could not be parsed (is agy installed and \
     authenticated?). Model validation is disabled; any model string \
     will be passed through to agy.";

pub const MODELS_HEADER: &'static str = "Available models (you MUST choose one explicitly):";

pub const GUIDANCE_FOOTER: &'static str = "\nGuidance: prefer Flash for routine description tasks. Switch to Pro \
     only when the task requires real-world knowledge or high-precision \
     transcription. Do NOT use Other-tier models for this MCP.";

pub const FLASH_HINT: &'static str = " — Flash: cheaper & faster, good default for most tasks";

pub const PRO_HINT: &'static str = " — Pro: use for world knowledge (landmarks, cities, brand names, public figures) or complex tasks like precise lyric transcription";

pub const OTHER_HINT: &'static str = " — non-Gemini model; multimodal support through agy is unverified";

pub const BULLET: &'static str = "  • ";

pub const NEWLINE: &'static str = "\n";

// ---------------------------------------------------------------------------
// Models
// ---------------------------------------------------------------------------

/// The tier of a model name: "flash" anywhere in it, ignoring ASCII case,
/// makes it Flash; otherwise "pro" makes it Pro; otherwise it is Other.
pub open spec fn tier_of(name: Seq<char>) -> ModelTier {
    if contains(lower(name), "flash"@) {
        ModelTier::Flash
    } else if contains(lower(name), "pro"@) {
        ModelTier::Pro
    } else {
        ModelTier::Other
    }
}

/// The trimmed pieces that are not empty, in order.
pub open spec fn kept_lines(parts: Seq<Seq<char>>) -> Seq<Seq<char>>
    decreases parts.len(),
{
    if parts.len() == 0 {
        Seq::<Seq<char>>::empty()
    } else {
        let r = kept_lines(parts.drop_last());
        let t = trim(parts.last());
        if t.len() > 0 {
            r.push(t)
        } else {
            r
        }
    }
}

/// The model names in the output of `agy models`: every line, trimmed,
/// except the empty ones.
pub open spec fn listed_names(stdout: Seq<char>) -> Seq<Seq<char>> {
    kept_lines(split(stdout, '\n'))
}

/// The names of a list of models.
pub open spec fn names(ms: Seq<ModelInfo>) -> Seq<Seq<char>> {
    ms.map_values(|m: ModelInfo| m.name@)
}

/// `requested` is the name of one of the models.
pub open spec fn is_listed(ms: Seq<ModelInfo>, requested: Seq<char>) -> bool {
    exists|i: int| 0 <= i < ms.len() && ms[i].name@ == requested
}

/// The hint shown after a model of the given tier.
pub open spec fn hint_of(tier: ModelTier) -> Seq<char> {
    match tier {
        ModelTier::Flash => FLASH_HINT@,
        ModelTier::Pro => PRO_HINT@,
        ModelTier::Other => OTHER_HINT@,
    }
}

/// The guidance line for one model.
pub open spec fn model_line(m: ModelInfo) -> Seq<char> {
    BULLET@ + m.name@ + hint_of(m.tier)
}

/// One guidance line per model, each preceded by a line break.
pub open spec fn model_lines_block(ms: Seq<ModelInfo>) -> Seq<char>
    decreases ms.len(),
{
    if ms.len() == 0 {
        Seq::<char>::empty()
    } else {
        model_lines_block(ms.drop_last()) + NEWLINE@ + model_line(ms.last())
    }
}

/// The guidance text for a list of models: a warning when the list is empty,
/// otherwise a header, one line per model with its tier's hint, and advice.
pub open spec fn guidance_of(ms: Seq<ModelInfo>) -> Seq<char> {
    if ms.len() == 0 {
        WARNING_NO_MODELS@
    } else {
        MODELS_HEADER@ + model_lines_block(ms) + NEWLINE@ + GUIDANCE_FOOTER@
    }
}

/// The list of valid model names, one bulleted name per line.
pub open spec fn bullet_list(ms: Seq<ModelInfo>) -> Seq<char> {
    join(ms.map_values(|m: ModelInfo| BULLET@ + m.name@), NEWLINE@)
}

/// The message for a model name that is not among the models.
pub open spec fn unknown_model_message(ms: Seq<ModelInfo>, requested: Seq<char>) -> Seq<char> {
    "Unknown model: \""@ + requested + "\".\nValid models:\n"@ + bullet_list(ms) + "\n\n"@
        + guidance_of(ms)
}

// ---------------------------------------------------------------------------
// Functions
// ---------------------------------------------------------------------------

/// The tier of a model, from its name.
pub fn classify(name: &str) -> (tier: ModelTier)
    ensures
        tier == tier_of(name@),
{
    let v = chars_of(name);
    let low = lower_chars(&v);
    if str_contains(&low, "flash") {
        ModelTier::Flash
    } else if str_contains(&low, "pro") {
        ModelTier::Pro
    } else {
        ModelTier::Other
    }
}

/// The models listed in the output of `agy models`: one per non-blank line,
/// named by the trimmed line and classified by that name.
pub fn parse_models(stdout: &str) -> (models: Vec<ModelInfo>)
    ensures
        names(models@) == listed_names(stdout@),
        forall|i: int| 0 <= i < models@.len() ==> #[trigger] models@[i].tier == tier_of(
            models@[i].name@,
        ),
{
    let chars = chars_of(stdout);
    let parts = split_chars(&chars, '\n');
    let mut models: Vec<ModelInfo> = Vec::new();
    let mut i: usize = 0;
    while i < parts.len()
        invariant
            i <= parts@.len(),
            views(parts@) == split(stdout@, '\n'),
            names(models@) == kept_lines(views(parts@).take(i as int)),
            forall|k: int| 0 <= k < models@.len() ==> #[trigger] models@[k].tier == tier_of(
                models@[k].name@,
            ),
        decreases parts@.len() - i,
    {
        let part = &parts[i];
        let (a, b) = trim_bounds(part, 0, part.len());
        assert(part@.subrange(0, part@.len() as int) =~= part@);
        let ghost before = names(models@);
        assert(views(parts@).take(i + 1).drop_last() =~= views(parts@).take(i as int));
        assert(views(parts@).take(i + 1).last() == part@);
        if a < b {
            let name = string_of_range(part, a, b);
            let tier = classify(name.as_str());
            models.push(ModelInfo { name, tier });
            assert(names(models@) =~= before.push(trim(part@)));
        } else {
            assert(names(models@) =~= before);
        }
        i = i + 1;
    }
    assert(views(parts@).take(parts@.len() as int) =~= views(parts@));
    models
}

/// The hint shown after a model of the given tier.
pub fn tier_hint(tier: ModelTier) -> (hint: &'static str)
    ensures
        hint@ == hint_of(tier),
{
    match tier {
        ModelTier::Flash => FLASH_HINT,
        ModelTier::Pro => PRO_HINT,
        ModelTier::Other => OTHER_HINT,
    }
}

/// Guidance on which model to choose, listing every model with its tier's
/// hint; a warning that validation is disabled when the list is empty.
pub fn guidance_text(models: &[ModelInfo]) -> (text: String)
    ensures
        text@ == guidance_of(models@),
{
    if models.len() == 0 {
        return String::from_str(WARNING_NO_MODELS);
    }
    let mut out = String::from_str(MODELS_HEADER);
    let mut i: usize = 0;
    while i < models.len()
        invariant
            i <= models@.len(),
            out@ == MODELS_HEADER@ + model_lines_block(models@.take(i as int)),
        decreases models@.len() - i,
    {
        let m = &models[i];
        out.append(NEWLINE);
        out.append(BULLET);
        out.append(m.name.as_str());
        out.append(tier_hint(m.tier));
        let ghost prev = models@.take(i as int);
        i = i + 1;
        assert(models@.take(i as int).drop_last() =~= prev);
        assert(out@ =~= MODELS_HEADER@ + model_lines_block(models@.take(i as int)));
    }
    assert(models@.take(models@.len() as int) =~= models@);
    out.append(NEWLINE);
    out.append(GUIDANCE_FOOTER);
    assert(out@ =~= guidance_of(models@));
    out
}

/// Accepts `requested` when the list is empty (nothing to check against) or
/// when it is the exact name of one of the models; otherwise the error lists
/// the valid names and the guidance text.
pub fn validate(models: &[ModelInfo], requested: &str) -> (r: Result<(), String>)
    ensures
        r matches Err(msg) ==> msg@ == unknown_model_message(models@, requested@),
        r is Ok <==> models@.len() == 0 || is_listed(models@, requested@),
        r is Ok <==> models@.len() == 0 || exists|i: int|
            0 <= i < models@.len() && #[trigger] models@[i].name@ == requested@,
{
    if models.len() == 0 {
        return Ok(());
    }
    let mut i: usize = 0;
    while i < models.len()
        invariant
            i <= models@.len(),
            forall|k: int| 0 <= k < i ==> models@[k].name@ != requested@,
        decreases models@.len() - i,
    {
        if str_eq(models[i].name.as_str(), requested) {
            return Ok(());
        }
        i = i + 1;
    }
    let ghost bullets = models@.map_values(|m: ModelInfo| BULLET@ + m.name@);
    let mut valid = String::new();
    let mut j: usize = 0;
    while j < models.len()
        invariant
            j <= models@.len(),
            bullets == models@.map_values(|m: ModelInfo| BULLET@ + m.name@),
            valid@ == join(bullets.take(j as int), NEWLINE@),
        decreases models@.len() - j,
    {
        proof {
            lemma_join_push(bullets.take(j as int), bullets[j as int], NEWLINE@);
            assert(bullets.take(j + 1) =~= bullets.take(j as int).push(bullets[j as int]));
        }
        if j > 0 {
            valid.append(NEWLINE);
        }
        valid.append(BULLET);
        valid.append(models[j].name.as_str());
        j = j + 1;
    }
    assert(bullets.take(models@.len() as int) =~= bullets);
    let mut msg = String::from_str("Unknown model: \"");
    msg.append(requested);
    msg.append("\".\nValid models:\n");
    msg.append(valid.as_str());
    msg.append("\n\n");
    let guidance = guidance_text(models);
    msg.append(guidance.as_str());
    Err(msg)
}

// ---------------------------------------------------------------------------
// Laws
// ---------------------------------------------------------------------------

/// Every model name read from a listing is non-empty, has no leading or
/// trailing white space and holds no line break.
pub proof fn lemma_listed_names_are_clean(stdout: Seq<char>)
    ensures
        forall|i: int|
            0 <= i < listed_names(stdout).len() ==> {
                let n = #[trigger] listed_names(stdout)[i];
                &&& n.len() > 0
                &&& !is_white_space(n[0])
                &&& !is_white_space(n.last())
                &&& forall|j: int| 0 <= j < n.len() ==> n[j] != '\n'
            },
{
    lemma_split_pieces_lack_sep(stdout, '\n');
    lemma_kept_lines_clean(split(stdout, '\n'), '\n');
}

proof fn lemma_kept_lines_clean(parts: Seq<Seq<char>>, sep: char)
    requires
        forall|k: int, j: int|
            0 <= k < parts.len() && 0 <= j < parts[k].len() ==> #[trigger] parts[k][j] != sep,
    ensures
        forall|i: int|
            0 <= i < kept_lines(parts).len() ==> {
                let n = #[trigger] kept_lines(parts)[i];
                &&& n.len() > 0
                &&& !is_white_space(n[0])
                &&& !is_white_space(n.last())
                &&& forall|j: int| 0 <= j < n.len() ==> n[j] != sep
            },
    decreases parts.len(),
{
    if parts.len() > 0 {
        let p = parts.drop_last();
        assert forall|k: int, j: int| 0 <= k < p.len() && 0 <= j < p[k].len() implies #[trigger] p[k][j]
            != sep by {
            assert(p[k] == parts[k]);
        }
        lemma_kept_lines_clean(p, sep);
        let last = parts.last();
        let t = trim(last);
        lemma_trim_edges(last);
        lemma_trim_start(last);
        lemma_trim_end(trim_start(last));
        let s = trim_start(last);
        assert forall|j: int| 0 <= j < t.len() implies t[j] != sep by {
            assert(t[j] == s[j]);
            assert(s[j] == last[last.len() - s.len() + j]);
            assert(parts[parts.len() - 1][last.len() - s.len() + j] != sep);
        }
        let r = kept_lines(p);
        if t.len() > 0 {
            assert(kept_lines(parts) == r.push(t));
            assert forall|i: int| 0 <= i < kept_lines(parts).len() implies {
                let n = #[trigger] kept_lines(parts)[i];
                &&& n.len() > 0
                &&& !is_white_space(n[0])
                &&& !is_white_space(n.last())
                &&& forall|j: int| 0 <= j < n.len() ==> n[j] != sep
            } by {
                if i < r.len() {
                    assert(kept_lines(parts)[i] == r[i]);
                }
            }
        }
    }
}

/// The guidance text names every model it is given.
pub proof fn lemma_guidance_names_every_model(ms: Seq<ModelInfo>, i: int)
    requires
        0 <= i < ms.len(),
    ensures
        contains(guidance_of(ms), ms[i].name@),
{
    lemma_block_names_model(ms, i);
    let k = choose|k: int| occurs_at(model_lines_block(ms), ms[i].name@, k);
    lemma_occurs_in_concat_right(MODELS_HEADER@, model_lines_block(ms), ms[i].name@, k);
    lemma_occurs_in_concat_left(
        MODELS_HEADER@ + model_lines_block(ms),
        NEWLINE@,
        ms[i].name@,
        MODELS_HEADER@.len() + k,
    );
    lemma_occurs_in_concat_left(
        MODELS_HEADER@ + model_lines_block(ms) + NEWLINE@,
        GUIDANCE_FOOTER@,
        ms[i].name@,
        MODELS_HEADER@.len() + k,
    );
}

proof fn lemma_block_names_model(ms: Seq<ModelInfo>, i: int)
    requires
        0 <= i < ms.len(),
    ensures
        contains(model_lines_block(ms), ms[i].name@),
    decreases ms.len(),
{
    let n = ms[i].name@;
    let prefix = model_lines_block(ms.drop_last()) + NEWLINE@;
    if i == ms.len() - 1 {
        let line = model_line(ms.last());
        assert(n.subrange(0, n.len() as int) =~= n);
        lemma_occurs_in_concat_right(BULLET@, n, n, 0);
        lemma_occurs_in_concat_left(BULLET@ + n, hint_of(ms.last().tier), n, BULLET@.len() as int);
        lemma_occurs_in_concat_right(prefix, line, n, BULLET@.len() as int);
    } else {
        lemma_block_names_model(ms.drop_last(), i);
        let k = choose|k: int| occurs_at(model_lines_block(ms.drop_last()), n, k);
        lemma_occurs_in_concat_left(model_lines_block(ms.drop_last()), NEWLINE@, n, k);
        lemma_occurs_in_concat_left(prefix, model_line(ms.last()), n, k);
    }
}

/// The refusal of an unknown model names every valid model.
pub proof fn lemma_unknown_model_message_names_every_model(ms: Seq<ModelInfo>, requested: Seq<char>, i: int)
    requires
        0 <= i < ms.len(),
    ensures
        contains(unknown_model_message(ms, requested), ms[i].name@),
{
    lemma_guidance_names_every_model(ms, i);
    let k = choose|k: int| occurs_at(guidance_of(ms), ms[i].name@, k);
    let head = "Unknown model: \""@ + requested + "\".\nValid models:\n"@ + bullet_list(ms) + "\n\n"@;
    lemma_occurs_in_concat_right(head, guidance_of(ms), ms[i].name@, k);
}

/// A model name is accepted exactly when it is, character for character,
/// the name of one of the models.
pub proof fn lemma_listed_means_same_name(ms: Seq<ModelInfo>, requested: Seq<char>)
    ensures
        is_listed(ms, requested) <==> exists|i: int| 0 <= i < ms.len() && #[trigger] ms[i].name@ == requested,
        forall|i: int| 0 <= i < ms.len() ==> is_listed(ms, #[trigger] ms[i].name@),
{
    assert forall|i: int| 0 <= i < ms.len() implies is_listed(ms, #[trigger] ms[i].name@) by {
        assert(ms[i].name@ == ms[i].name@);
    }
}

/// A name that differs from every listed name is refused whenever the list
/// is not empty; in particular a proper prefix of a listed name that is not
/// itself listed is refused.
pub proof fn lemma_unlisted_name_refused(ms: Seq<ModelInfo>, requested: Seq<char>)
    requires
        ms.len() > 0,
        forall|i: int| 0 <= i < ms.len() ==> #[trigger] ms[i].name@ != requested,
    ensures
        !is_listed(ms, requested),
{
}

/// Each tier has its own hint: Flash models are called cheaper and faster,
/// Pro models are advised for world knowledge, other models are flagged as
/// unverified.
pub proof fn lemma_hint_texts()
    ensures
        hint_of(ModelTier::Flash) == " — Flash: cheaper & faster, good default for most tasks"@,
        hint_of(ModelTier::Pro)
            == " — Pro: use for world knowledge (landmarks, cities, brand names, public figures) or complex tasks like precise lyric transcription"@,
        hint_of(ModelTier::Other) == " — non-Gemini model; multimodal support through agy is unverified"@,
{
}

/// Each model's guidance line is the bullet, its name and the hint of its
/// own tier.
pub proof fn lemma_model_line_uses_own_tier(m: ModelInfo)
    ensures
        m.tier == ModelTier::Flash ==> model_line(m) == "  • "@ + m.name@
            + " — Flash: cheaper & faster, good default for most tasks"@,
        m.tier == ModelTier::Pro ==> model_line(m) == "  • "@ + m.name@
            + " — Pro: use for world knowledge (landmarks, cities, brand names, public figures) or complex tasks like precise lyric transcription"@,
{
}

/// A name that holds "flash" in any ASCII case is a Flash model; one that
/// holds "pro" but no "flash" is a Pro model; the tier never depends on
/// ASCII case.
pub proof fn lemma_tier_by_words(a: Seq<char>, b: Seq<char>, name: Seq<char>)
    ensures
        tier_of(a + seq!['f', 'l', 'a', 's', 'h'] + b) == ModelTier::Flash,
        tier_of(a + seq!['F', 'L', 'A', 'S', 'H'] + b) == ModelTier::Flash,
        !contains(lower(a + seq!['p', 'r', 'o'] + b), "flash"@) ==> tier_of(
            a + seq!['p', 'r', 'o'] + b,
        ) == ModelTier::Pro,
        !contains(lower(name), "flash"@) && !contains(lower(name), "pro"@) ==> tier_of(name)
            == ModelTier::Other,
        tier_of(lower(name)) == tier_of(name),
{
    reveal_strlit("flash");
    reveal_strlit("pro");
    let f = seq!['f', 'l', 'a', 's', 'h'];
    let fu = seq!['F', 'L', 'A', 'S', 'H'];
    let p = seq!['p', 'r', 'o'];
    assert(lower(f) =~= f);
    assert(lower(fu) =~= f);
    assert(lower(p) =~= p);
    assert(f =~= "flash"@);
    assert(p =~= "pro"@);
    lemma_lower_concat3(a, f, b);
    lemma_lower_concat3(a, fu, b);
    lemma_lower_concat3(a, p, b);
    let la = lower(a);
    let lb = lower(b);
    assert((la + f + lb).subrange(la.len() as int, la.len() + 5int) =~= f);
    assert(occurs_at(la + f + lb, f, la.len() as int));
    assert((la + p + lb).subrange(la.len() as int, la.len() + 3int) =~= p);
    assert(occurs_at(la + p + lb, p, la.len() as int));
    crate::text::lemma_lower_twice(name);
}

proof fn lemma_lower_concat3(a: Seq<char>, m: Seq<char>, b: Seq<char>)
    ensures
        lower(a + m + b) == lower(a) + lower(m) + lower(b),
{
    assert(lower(a + m + b) =~= lower(a) + lower(m) + lower(b));
}

} // verus!
