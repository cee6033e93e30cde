//! Deciding what a tool's input string names: a local path, or media carried
//! inline as a base64 `data:` URI. Remote URLs and other URL schemes are
//! refused.

use vstd::prelude::*;

use crate::error::AppError;
use crate::text::{
    chars_of, chars_eq, contains, lower, lower_char, lower_chars, split, split_chars, str_contains,
    str_eq, string_of, string_of_range, trim, trim_bounds, views,
};

verus! {

/// What an input names once resolved: a local path to check, or the bytes
/// of an inline payload to be written to a file with the given extension.
#[derive(Debug)]
pub enum InputTarget {
    Path(String),
    Data { extension: &'static str, bytes: Vec<u8> },
}

/// The model of an [`InputTarget`].
pub enum TargetView {
    Path(Seq<char>),
    Data { extension: Seq<char>, bytes: Seq<u8> },
}

impl View for InputTarget {
    type V = TargetView;

    open spec fn view(&self) -> TargetView {
        match self {
            InputTarget::Path(p) => TargetView::Path(p@),
            InputTarget::Data { extension, bytes } => TargetView::Data {
                extension: extension@,
                bytes: bytes@,
            },
        }
    }
}

/// The file extension for each MIME type that has one; keys are lower case.
pub const MIME_EXTENSIONS: [(&'static str, &'static str); 23] = [
    ("image/png", "png"),
    ("image/jpeg", "jpg"),
    ("image/gif", "gif"),
    ("image/webp", "webp"),
    ("image/bmp", "bmp"),
    ("image/tiff", "tiff"),
    ("image/svg+xml", "svg"),
    ("audio/wav", "wav"),
    ("audio/x-wav", "wav"),
    ("audio/wave", "wav"),
    ("audio/mpeg", "mp3"),
    ("audio/mp3", "mp3"),
    ("audio/ogg", "ogg"),
    ("audio/mp4", "m4a"),
    ("audio/m4a", "m4a"),
    ("audio/aac", "aac"),
    ("audio/flac", "flac"),
    ("audio/webm", "weba"),
    ("video/mp4", "mp4"),
    ("video/webm", "webm"),
    ("video/quicktime", "mov"),
    ("video/x-matroska", "mkv"),
    ("video/x-msvideo", "avi"),
];

/// The extension of a MIME type that is not in the table.
pub const FALLBACK_EXTENSION: &'static str = "bin";

/// The message for an input that is blank.
pub const EMPTY_INPUT: &'static str = "empty input";

/// The message for a `data:` URI without a comma.
pub const MISSING_COMMA: &'static str = "malformed data URI: missing comma";

/// The message for a `data:` URI that is not base64.
pub const NOT_BASE64: &'static str = "only base64 data URIs are supported (use `;base64,`)";

/// Opens the message for an undecodable payload.
pub const BAD_PAYLOAD: &'static str = "failed to decode base64 payload: ";

/// Opens the message for an `http` or `https` URL; the input follows.
pub const REMOTE_URL: &'static str = "remote URLs are not supported — download the file to a local \
     path first, then pass that path. Got: ";

/// Opens the message for another URL scheme; the scheme follows.
pub const OTHER_SCHEME: &'static str = "unsupported URL scheme: ";

/// Closes the message for another URL scheme.
pub const OTHER_SCHEME_END: &'static str = " — only local paths and data URIs are accepted";

// ---------------------------------------------------------------------------
// Names for what outside functions return
// ---------------------------------------------------------------------------

/// The scheme of the absolute URL that `url::Url::parse` reads from the
/// text, or `None` when it reads none.
pub uninterp spec fn url_scheme(text: Seq<char>) -> Option<Seq<char>>;

/// What the standard base64 engine of the `base64` crate decodes from the
/// text: the bytes, or the message of its error.
pub uninterp spec fn base64_decoded(text: Seq<char>) -> Result<Seq<u8>, Seq<char>>;

// ---------------------------------------------------------------------------
// Trusted items
// ---------------------------------------------------------------------------

/// Calls `url::Url::parse` on the text and, when it reads an absolute URL,
/// `url::Url::scheme` on it. The contract claims only that the outcome is a
/// function of the text: the scheme, or `None` when parsing fails.
#[verifier::external_body]
fn parse_url_scheme(text: &str) -> (scheme: Option<String>)
    ensures
        match scheme {
            Some(s) => url_scheme(text@) == Some(s@),
            None => url_scheme(text@) is None,
        },
{
    match url::Url::parse(text) {
        Ok(u) => Some(u.scheme().to_string()),
        Err(_) => None,
    }
}

/// Calls `base64::Engine::decode` of `base64::engine::general_purpose::STANDARD`
/// on the bytes of the text. The contract claims only that the outcome is a
/// function of the text: the decoded bytes, or the `Display` text of the
/// `base64::DecodeError`.
#[verifier::external_body]
fn decode_base64(text: &str) -> (r: Result<Vec<u8>, String>)
    ensures
        match r {
            Ok(b) => base64_decoded(text@) == Ok::<Seq<u8>, Seq<char>>(b@),
            Err(m) => base64_decoded(text@) == Err::<Seq<u8>, Seq<char>>(m@),
        },
{
    match base64::Engine::decode(&base64::engine::general_purpose::STANDARD, text) {
        Ok(b) => Ok(b),
        Err(e) => Err(e.to_string()),
    }
}

// ---------------------------------------------------------------------------
// Models
// ---------------------------------------------------------------------------

/// `s` starts with `prefix`, ignoring ASCII case.
pub open spec fn has_prefix_ignore_case(s: Seq<char>, prefix: Seq<char>) -> bool {
    prefix.len() <= s.len() && lower(s.take(prefix.len() as int)) == lower(prefix)
}

/// The MIME type and the base64 flag read from the parameters of a `data:`
/// URI, piece by piece: a piece equal to `base64` (ignoring ASCII case) sets
/// the flag; the first other non-empty piece is the MIME type.
pub open spec fn meta_of(parts: Seq<Seq<char>>) -> (Seq<char>, bool)
    decreases parts.len(),
{
    if parts.len() == 0 {
        (Seq::<char>::empty(), false)
    } else {
        let (mime, b64) = meta_of(parts.drop_last());
        let p = parts.last();
        if lower(p) == lower("base64"@) {
            (mime, true)
        } else if p.len() > 0 && mime.len() == 0 {
            (p, b64)
        } else {
            (mime, b64)
        }
    }
}

/// The extension for a MIME type, looked up from entry `i` of the table on.
pub open spec fn extension_from(mime: Seq<char>, i: int) -> Seq<char>
    decreases 23 - i,
{
    if i < 0 || i >= 23 {
        FALLBACK_EXTENSION@
    } else if lower(mime) == MIME_EXTENSIONS[i].0@ {
        MIME_EXTENSIONS[i].1@
    } else {
        extension_from(mime, i + 1)
    }
}

/// The extension for a MIME type, ignoring ASCII case; `bin` when unknown.
pub open spec fn extension_of(mime: Seq<char>) -> Seq<char> {
    extension_from(mime, 0)
}

/// The index of the first comma, if any.
pub open spec fn first_comma(s: Seq<char>) -> Option<int> {
    if exists|i: int| 0 <= i < s.len() && s[i] == ',' {
        Some(choose|i: int| 0 <= i < s.len() && s[i] == ',' && forall|j: int| 0 <= j < i ==> s[j] != ',')
    } else {
        None
    }
}

/// The parts of a `data:` URI (without its scheme): the extension for its
/// MIME type and its payload, or the message of why it is refused.
pub open spec fn data_uri_parts(raw: Seq<char>) -> Result<(Seq<char>, Seq<char>), Seq<char>> {
    match first_comma(raw) {
        None => Err(MISSING_COMMA@),
        Some(c) => {
            let (mime, b64) = meta_of(split(raw.take(c), ';'));
            if !b64 {
                Err(NOT_BASE64@)
            } else {
                Ok((extension_of(mime), raw.skip(c + 1)))
            }
        },
    }
}

/// What a `data:` URI (without its scheme) resolves to, given what its
/// payload decodes to.
pub open spec fn data_target_of(
    raw: Seq<char>,
    decoded: Result<Seq<u8>, Seq<char>>,
) -> Result<TargetView, Seq<char>> {
    match data_uri_parts(raw) {
        Err(m) => Err(m),
        Ok((ext, _payload)) => match decoded {
            Ok(b) => Ok(TargetView::Data { extension: ext, bytes: b }),
            Err(m) => Err(BAD_PAYLOAD@ + m),
        },
    }
}

/// What a trimmed input that is not a `data:` URI resolves to, given the
/// scheme of the URL it parses as, if any: `http` and `https` are refused
/// with a hint to download first; another scheme is refused when the input
/// holds `://`; anything else is a local path.
pub open spec fn url_target_of(t: Seq<char>, scheme: Option<Seq<char>>) -> Result<TargetView, Seq<char>> {
    match scheme {
        Some(s) => if s == "http"@ || s == "https"@ {
            Err(REMOTE_URL@ + t)
        } else if contains(t, "://"@) {
            Err(OTHER_SCHEME@ + s + OTHER_SCHEME_END@)
        } else {
            Ok(TargetView::Path(t))
        },
        None => Ok(TargetView::Path(t)),
    }
}

/// What an input resolves to: the trimmed input must not be empty; a
/// `data:` prefix (ignoring ASCII case) makes it an inline payload;
/// otherwise URL schemes are screened and the rest is a local path.
pub open spec fn target_of(input: Seq<char>) -> Result<TargetView, Seq<char>> {
    let t = trim(input);
    if t.len() == 0 {
        Err(EMPTY_INPUT@)
    } else if has_prefix_ignore_case(t, "data:"@) {
        let raw = t.skip(5);
        data_target_of(raw, base64_decoded(raw.skip(first_comma(raw).unwrap_or(0) + 1)))
    } else {
        url_target_of(t, url_scheme(t))
    }
}

/// The result of a resolution matches its model: the same target, or an
/// input error with the same message.
pub open spec fn resolves_as(r: Result<InputTarget, AppError>, m: Result<TargetView, Seq<char>>) -> bool {
    match m {
        Ok(v) => r matches Ok(t) && t@ == v,
        Err(msg) => r matches Err(AppError::Input(e)) && e@ == msg,
    }
}

// ---------------------------------------------------------------------------
// Functions
// ---------------------------------------------------------------------------

/// Whether `s` starts with `prefix`, ignoring ASCII case.
pub fn starts_with_ignore_ascii_case(s: &Vec<char>, prefix: &str) -> (b: bool)
    ensures
        b == has_prefix_ignore_case(s@, prefix@),
{
    let p = chars_of(prefix);
    if p.len() > s.len() {
        return false;
    }
    let head = string_of_range(s, 0, p.len());
    let head_chars = chars_of(head.as_str());
    let a = lower_chars(&head_chars);
    let b = lower_chars(&p);
    chars_eq(&a, &b)
}

/// The MIME type and whether the parameters of a `data:` URI say `base64`.
pub fn parse_data_uri_meta(meta: &str) -> (r: (String, bool))
    ensures
        (r.0@, r.1) == meta_of(split(meta@, ';')),
{
    let v = chars_of(meta);
    let parts = split_chars(&v, ';');
    let b64_word = chars_of("base64");
    let b64_low = lower_chars(&b64_word);
    let mut mime: Vec<char> = Vec::new();
    let mut is_base64 = false;
    let mut i: usize = 0;
    while i < parts.len()
        invariant
            i <= parts@.len(),
            views(parts@) == split(meta@, ';'),
            b64_low@ == lower("base64"@),
            (mime@, is_base64) == meta_of(views(parts@).take(i as int)),
        decreases parts@.len() - i,
    {
        let part = &parts[i];
        let low = lower_chars(part);
        assert(views(parts@).take(i + 1).drop_last() =~= views(parts@).take(i as int));
        assert(views(parts@).take(i + 1).last() == part@);
        if chars_eq(&low, &b64_low) {
            is_base64 = true;
        } else if part.len() > 0 && mime.len() == 0 {
            mime = part.clone();
        }
        i = i + 1;
    }
    assert(views(parts@).take(parts@.len() as int) =~= views(parts@));
    (string_of(&mime), is_base64)
}

/// The file extension for a MIME type, ignoring ASCII case; `bin` when the
/// type is not known.
pub fn extension_for_mime(mime: &str) -> (ext: &'static str)
    ensures
        ext@ == extension_of(mime@),
{
    let v = chars_of(mime);
    let low = lower_chars(&v);
    let mut i: usize = 0;
    while i < 23
        invariant
            i <= 23,
            low@ == lower(mime@),
            extension_of(mime@) == extension_from(mime@, i as int),
        decreases 23 - i,
    {
        let (key, ext) = MIME_EXTENSIONS[i];
        let k = chars_of(key);
        if chars_eq(&low, &k) {
            return ext;
        }
        i = i + 1;
    }
    FALLBACK_EXTENSION
}

/// Splits a `data:` URI (without its scheme) at its first comma, reads its
/// parameters, and gives the extension for its MIME type and its payload;
/// refuses a URI without a comma or without the `base64` parameter.
pub fn parse_data_uri(raw: &str) -> (r: Result<(&'static str, String), AppError>)
    ensures
        match data_uri_parts(raw@) {
            Ok((ext, payload)) => r matches Ok(x) && x.0@ == ext && x.1@ == payload,
            Err(msg) => r matches Err(AppError::Input(e)) && e@ == msg,
        },
{
    let v = chars_of(raw);
    let n: usize = v.len();
    let mut c: usize = 0;
    while c < n && v[c] != ','
        invariant
            n == v@.len(),
            c <= n,
            v@ == raw@,
            forall|j: int| 0 <= j < c ==> v@[j] != ',',
        decreases n - c,
    {
        c = c + 1;
    }
    if c == n {
        assert(!exists|i: int| 0 <= i < raw@.len() && raw@[i] == ',');
        return Err(AppError::Input(String::from_str(MISSING_COMMA)));
    }
    proof {
        let w = choose|i: int| 0 <= i < raw@.len() && raw@[i] == ',' && forall|j: int| 0 <= j < i ==> raw@[j] != ',';
        assert(0 <= c < raw@.len() && raw@[c as int] == ',');
        assert(w == c) by {
            if w < c {
                assert(v@[w] != ',');
            } else if w > c {
                assert(raw@[c as int] != ',');
            }
        }
    }
    let meta = string_of_range(&v, 0, c);
    assert(v@.subrange(0, c as int) =~= raw@.take(c as int));
    let (mime, is_base64) = parse_data_uri_meta(meta.as_str());
    if !is_base64 {
        return Err(AppError::Input(String::from_str(NOT_BASE64)));
    }
    let ext = extension_for_mime(mime.as_str());
    let payload = string_of_range(&v, c + 1, n);
    assert(v@.subrange(c + 1, n as int) =~= raw@.skip(c + 1));
    Ok((ext, payload))
}

/// The target of a `data:` URI once its payload is decoded: the decoded
/// bytes, or an input error carrying the decoder's message.
pub fn data_target(extension: &'static str, decoded: Result<Vec<u8>, String>) -> (r: Result<InputTarget, AppError>)
    ensures
        match decoded {
            Ok(b) => r matches Ok(t) && t@ == (TargetView::Data { extension: extension@, bytes: b@ }),
            Err(m) => r matches Err(AppError::Input(e)) && e@ == BAD_PAYLOAD@ + m@,
        },
{
    match decoded {
        Ok(bytes) => Ok(InputTarget::Data { extension, bytes }),
        Err(m) => {
            let mut msg = String::from_str(BAD_PAYLOAD);
            msg.append(m.as_str());
            Err(AppError::Input(msg))
        },
    }
}

/// Resolves a `data:` URI (without its scheme): parses it, decodes its
/// payload as standard base64.
pub fn resolve_data_uri(raw: &str) -> (r: Result<InputTarget, AppError>)
    ensures
        resolves_as(r, data_target_of(raw@, base64_decoded(raw@.skip(first_comma(raw@).unwrap_or(0) + 1)))),
{
    match parse_data_uri(raw) {
        Err(e) => Err(e),
        Ok((ext, payload)) => {
            let decoded = decode_base64(payload.as_str());
            data_target(ext, decoded)
        },
    }
}

/// The target of a trimmed input that is not a `data:` URI, given the
/// scheme of the URL it parses as, if any.
pub fn url_target(trimmed: &str, scheme: Option<String>) -> (r: Result<InputTarget, AppError>)
    ensures
        resolves_as(r, url_target_of(trimmed@, match scheme { Some(s) => Some(s@), None => None })),
{
    match scheme {
        Some(s) => {
            if str_eq(s.as_str(), "http") || str_eq(s.as_str(), "https") {
                let mut msg = String::from_str(REMOTE_URL);
                msg.append(trimmed);
                return Err(AppError::Input(msg));
            }
            let t = chars_of(trimmed);
            if str_contains(&t, "://") {
                let mut msg = String::from_str(OTHER_SCHEME);
                msg.append(s.as_str());
                msg.append(OTHER_SCHEME_END);
                return Err(AppError::Input(msg));
            }
            Ok(InputTarget::Path(String::from_str(trimmed)))
        },
        None => Ok(InputTarget::Path(String::from_str(trimmed))),
    }
}

/// Resolves a tool's input: the trimmed input must not be empty; a `data:`
/// URI (any ASCII case) becomes its decoded payload; `http` and `https` URLs
/// and other `scheme://` URLs are refused; anything else is a local path.
pub fn resolve_target(input: &str) -> (r: Result<InputTarget, AppError>)
    ensures
        resolves_as(r, target_of(input@)),
{
    let v = chars_of(input);
    let (a, b) = trim_bounds(&v, 0, v.len());
    assert(v@.subrange(0, v@.len() as int) =~= v@);
    if a == b {
        return Err(AppError::Input(String::from_str(EMPTY_INPUT)));
    }
    let tv = string_of_range(&v, a, b);
    let t = chars_of(tv.as_str());
    if starts_with_ignore_ascii_case(&t, "data:") {
        proof {
            reveal_strlit("data:");
        }
        let raw = string_of_range(&t, 5, t.len());
        assert(t@.subrange(5, t@.len() as int) =~= t@.skip(5));
        return resolve_data_uri(raw.as_str());
    }
    let scheme = parse_url_scheme(tv.as_str());
    url_target(tv.as_str(), scheme)
}

/// The reference by which `agy` is pointed at a file: `@` and the path.
pub fn file_ref(path: &str) -> (r: String)
    ensures
        r@ == seq!['@'] + path@,
{
    let mut r = String::new();
    r.push('@');
    r.append(path);
    r
}

// ---------------------------------------------------------------------------
// Laws
// ---------------------------------------------------------------------------

/// `http` and `https` URLs are always refused, with a message that tells to
/// download the file first and repeats the input.
pub proof fn lemma_remote_urls_refused(input: Seq<char>)
    requires
        trim(input).len() > 0,
        !has_prefix_ignore_case(trim(input), "data:"@),
        url_scheme(trim(input)) == Some("http"@) || url_scheme(trim(input)) == Some("https"@),
    ensures
        target_of(input) == Err::<TargetView, Seq<char>>(REMOTE_URL@ + trim(input)),
{
}

/// An input that is not a URL with `://` and not a `data:` URI is taken as a
/// local path, trimmed.
pub proof fn lemma_plain_input_is_path(input: Seq<char>)
    requires
        trim(input).len() > 0,
        !has_prefix_ignore_case(trim(input), "data:"@),
        !contains(trim(input), "://"@),
        url_scheme(trim(input)) != Some("http"@),
        url_scheme(trim(input)) != Some("https"@),
    ensures
        target_of(input) == Ok::<TargetView, Seq<char>>(TargetView::Path(trim(input))),
{
}

/// The case-insensitive prefix test compares every character of the prefix:
/// it holds exactly when the string is long enough and each of its first
/// characters equals the prefix's character at the same place, ASCII case
/// aside.
pub proof fn lemma_prefix_ignore_case_is_charwise(s: Seq<char>, p: Seq<char>)
    ensures
        has_prefix_ignore_case(s, p) <==> (p.len() <= s.len() && forall|i: int|
            0 <= i < p.len() ==> lower_char(#[trigger] s[i]) == lower_char(p[i])),
{
    if p.len() <= s.len() {
        if forall|i: int| 0 <= i < p.len() ==> lower_char(#[trigger] s[i]) == lower_char(p[i]) {
            assert(lower(s.take(p.len() as int)) =~= lower(p));
        }
        if lower(s.take(p.len() as int)) == lower(p) {
            assert forall|i: int| 0 <= i < p.len() implies lower_char(#[trigger] s[i]) == lower_char(
                p[i],
            ) by {
                assert(lower(s.take(p.len() as int))[i] == lower(p)[i]);
            }
        }
    }
}

proof fn lemma_lower_char_to(c: char, d: char)
    requires
        lower_char(c) == d,
        !('A' <= d <= 'Z'),
    ensures
        c == d || ('a' <= d <= 'z' && c as u32 + 32 == d as u32),
{
    if 'A' <= c <= 'Z' {
        assert((((c as u32) + 32) as char) as u32 == (c as u32) + 32);
    }
}

/// An input is read as a `data:` URI only when its trimmed text starts with
/// the five characters `d`, `a`, `t`, `a` (each in either ASCII case) and
/// `:`.
pub proof fn lemma_data_prefix_needs_colon(t: Seq<char>)
    requires
        has_prefix_ignore_case(t, "data:"@),
    ensures
        t.len() >= 5,
        t[0] == 'd' || t[0] == 'D',
        t[1] == 'a' || t[1] == 'A',
        t[2] == 't' || t[2] == 'T',
        t[3] == 'a' || t[3] == 'A',
        t[4] == ':',
{
    reveal_strlit("data:");
    lemma_prefix_ignore_case_is_charwise(t, "data:"@);
    assert(lower_char(t[0]) == lower_char('d'));
    assert(lower_char(t[1]) == lower_char('a'));
    assert(lower_char(t[2]) == lower_char('t'));
    assert(lower_char(t[3]) == lower_char('a'));
    assert(lower_char(t[4]) == lower_char(':'));
    lemma_lower_char_to(t[0], 'd');
    lemma_lower_char_to(t[1], 'a');
    lemma_lower_char_to(t[2], 't');
    lemma_lower_char_to(t[3], 'a');
    lemma_lower_char_to(t[4], ':');
}

/// An input whose trimmed text does not have `:` as its fifth character,
/// holds no `://` and is not an `http` or `https` URL resolves to a local
/// path: the trimmed text itself.
pub proof fn lemma_no_colon_fifth_is_path(input: Seq<char>)
    requires
        trim(input).len() > 0,
        trim(input).len() < 5 || trim(input)[4] != ':',
        !contains(trim(input), "://"@),
        url_scheme(trim(input)) != Some("http"@),
        url_scheme(trim(input)) != Some("https"@),
    ensures
        target_of(input) == Ok::<TargetView, Seq<char>>(TargetView::Path(trim(input))),
{
    if has_prefix_ignore_case(trim(input), "data:"@) {
        lemma_data_prefix_needs_colon(trim(input));
    }
}

/// ASCII lower-casing changes nothing the second time.
pub proof fn lemma_lower_idempotent(s: Seq<char>)
    ensures
        lower(lower(s)) == lower(s),
{
    assert forall|i: int| 0 <= i < s.len() implies lower_char(lower_char(s[i])) == lower_char(s[i]) by {
        let c = s[i];
        if 'A' <= c <= 'Z' {
            assert((((c as u32) + 32) as char) as u32 == (c as u32) + 32);
        }
    }
    assert(lower(lower(s)) =~= lower(s));
}

/// The extension of a MIME type does not depend on its ASCII case.
pub proof fn lemma_extension_ignores_case(mime: Seq<char>)
    ensures
        extension_of(mime) == extension_of(lower(mime)),
{
    lemma_lower_idempotent(mime);
    lemma_extension_from_ignores_case(mime, 0);
}

proof fn lemma_extension_from_ignores_case(mime: Seq<char>, i: int)
    requires
        lower(lower(mime)) == lower(mime),
    ensures
        extension_from(mime, i) == extension_from(lower(mime), i),
    decreases 23 - i,
{
    if 0 <= i < 23 {
        lemma_extension_from_ignores_case(mime, i + 1);
    }
}

/// The base64 flag of a `data:` URI is set exactly when one of its
/// parameters is `base64` (in any ASCII case), and the MIME type is the
/// first parameter that is neither empty nor `base64`, or empty when there
/// is none.
pub proof fn lemma_meta_reads_parameters(parts: Seq<Seq<char>>)
    ensures
        meta_of(parts).1 <==> exists|i: int| 0 <= i < parts.len() && lower(#[trigger] parts[i]) == lower("base64"@),
        meta_of(parts).0.len() == 0 ==> forall|i: int|
            0 <= i < parts.len() ==> (#[trigger] parts[i]).len() == 0 || lower(parts[i]) == lower("base64"@),
        meta_of(parts).0.len() > 0 ==> exists|j: int|
            0 <= j < parts.len() && #[trigger] parts[j] == meta_of(parts).0 && lower(parts[j]) != lower("base64"@)
                && forall|i: int|
                0 <= i < j ==> (#[trigger] parts[i]).len() == 0 || lower(parts[i]) == lower("base64"@),
    decreases parts.len(),
{
    if parts.len() > 0 {
        let d = parts.drop_last();
        lemma_meta_reads_parameters(d);
        let n = parts.len() - 1;
        assert forall|i: int| 0 <= i < d.len() implies #[trigger] d[i] == parts[i] by {}
        if meta_of(d).1 {
            let i = choose|i: int| 0 <= i < d.len() && lower(#[trigger] d[i]) == lower("base64"@);
            assert(parts[i] == d[i]);
        }
        if meta_of(d).0.len() > 0 {
            let j = choose|j: int|
                0 <= j < d.len() && #[trigger] d[j] == meta_of(d).0 && lower(d[j]) != lower("base64"@)
                    && forall|i: int| 0 <= i < j ==> (#[trigger] d[i]).len() == 0 || lower(d[i]) == lower("base64"@);
            assert(parts[j] == d[j]);
            assert forall|i: int| 0 <= i < j implies (#[trigger] parts[i]).len() == 0 || lower(parts[i]) == lower("base64"@) by {
                assert(parts[i] == d[i]);
            }
        }
        if meta_of(parts).1 && !meta_of(d).1 {
            assert(lower(parts[n]) == lower("base64"@));
        }
        if exists|i: int| 0 <= i < parts.len() && lower(#[trigger] parts[i]) == lower("base64"@) {
            let i = choose|i: int| 0 <= i < parts.len() && lower(#[trigger] parts[i]) == lower("base64"@);
            if i < n {
                assert(d[i] == parts[i]);
            }
        }
        if meta_of(parts).0.len() > 0 && meta_of(d).0.len() == 0 {
            assert forall|i: int| 0 <= i < n implies (#[trigger] parts[i]).len() == 0 || lower(parts[i]) == lower("base64"@) by {
                assert(parts[i] == d[i]);
            }
            assert(parts[n] == meta_of(parts).0);
        }
        if meta_of(parts).0.len() == 0 {
            assert forall|i: int| 0 <= i < parts.len() implies (#[trigger] parts[i]).len() == 0 || lower(parts[i]) == lower("base64"@) by {
                if i < n {
                    assert(parts[i] == d[i]);
                }
            }
        }
    }
}

} // verus!
