//! Telling what kind of media a file holds, from the first bytes of the file
//! and from the streams of its container.

use vstd::prelude::*;
use vstd::utf8::{decode_utf8, valid_utf8};

use crate::text::{
    chars_of, contains, has_prefix, is_white_space, is_white_space_char, occurs_at, occurs_at_exec,
    str_contains, trim_start,
};

verus! {

/// A kind of media.
#[derive(Debug, Clone, Copy, PartialEq, Eq, Structural)]
pub enum MediaKind {
    Image,
    Audio,
    Video,
}

/// What is known of a file: its kind, if one could be told, and its length
/// in microseconds, if the container gives one.
#[derive(Debug, Clone, Copy, PartialEq, Eq, Structural)]
pub struct MediaProbe {
    pub kind: Option<MediaKind>,
    pub duration_micros: Option<u64>,
}

/// The medium of one stream of a container.
#[derive(Debug, Clone, Copy, PartialEq, Eq, Structural)]
pub enum StreamMedium {
    Audio,
    Video,
    Other,
}

/// One stream of a container: its medium, and whether it is a picture
/// attached to the file (cover art) rather than a moving image.
#[derive(Debug, Clone, Copy, PartialEq, Eq, Structural)]
pub struct StreamFacts {
    pub medium: StreamMedium,
    pub attached_pic: bool,
}

/// What the container of a file tells: its streams and its length in
/// microseconds (zero or less when unknown).
#[derive(Debug, Clone)]
pub struct ContainerFacts {
    pub streams: Vec<StreamFacts>,
    pub duration_micros: i64,
}

impl MediaKind {
    /// The name of the kind.
    pub open spec fn name(self) -> Seq<char> {
        match self {
            MediaKind::Image => "image"@,
            MediaKind::Audio => "audio"@,
            MediaKind::Video => "video"@,
        }
    }

    /// The name of the kind.
    pub fn as_str(self) -> (s: &'static str)
        ensures
            s@ == self.name(),
    {
        match self {
            MediaKind::Image => "image",
            MediaKind::Audio => "audio",
            MediaKind::Video => "video",
        }
    }
}

// ---------------------------------------------------------------------------
// Models
// ---------------------------------------------------------------------------

/// `pat` occurs in `bytes` at index `at`.
pub open spec fn bytes_at(bytes: Seq<u8>, pat: Seq<u8>, at: int) -> bool {
    &&& 0 <= at
    &&& at + pat.len() <= bytes.len()
    &&& bytes.subrange(at, at + pat.len()) == pat
}

/// The RIFF container of a WebP image.
pub open spec fn is_webp_spec(b: Seq<u8>) -> bool {
    &&& b.len() >= 12
    &&& bytes_at(b, seq![0x52u8, 0x49, 0x46, 0x46], 0)
    &&& bytes_at(b, seq![0x57u8, 0x45, 0x42, 0x50], 8)
}

/// The brands of ISO base media files that hold still images
/// (AVIF, HEIC/HEIF and their sequences).
pub open spec fn image_brands() -> Seq<Seq<u8>> {
    seq![
        seq![0x61u8, 0x76, 0x69, 0x66],
        seq![0x61u8, 0x76, 0x69, 0x73],
        seq![0x68u8, 0x65, 0x69, 0x63],
        seq![0x68u8, 0x65, 0x69, 0x78],
        seq![0x68u8, 0x65, 0x76, 0x63],
        seq![0x68u8, 0x65, 0x76, 0x78],
        seq![0x6du8, 0x69, 0x66, 0x31],
        seq![0x6du8, 0x73, 0x66, 0x31],
    ]
}

/// An ISO base media file (`ftyp` box) whose brand is an image brand.
pub open spec fn is_isobmff_image_spec(b: Seq<u8>) -> bool {
    &&& b.len() >= 12
    &&& bytes_at(b, seq![0x66u8, 0x74, 0x79, 0x70], 4)
    &&& image_brands().contains(b.subrange(8, 12))
}

/// The byte signatures of PNG, JPEG, GIF, BMP, TIFF and ICO files.
pub open spec fn image_magics() -> Seq<Seq<u8>> {
    seq![
        seq![0x89u8, 0x50, 0x4e, 0x47, 0x0d, 0x0a, 0x1a, 0x0a],
        seq![0xffu8, 0xd8, 0xff],
        seq![0x47u8, 0x49, 0x46, 0x38, 0x37, 0x61],
        seq![0x47u8, 0x49, 0x46, 0x38, 0x39, 0x61],
        seq![0x42u8, 0x4d],
        seq![0x49u8, 0x49, 0x2a, 0x00],
        seq![0x4du8, 0x4d, 0x00, 0x2a],
        seq![0x00u8, 0x00, 0x01, 0x00],
    ]
}

/// The bytes begin with the signature of a raster image format.
pub open spec fn image_signature(b: Seq<u8>) -> bool {
    ||| exists|i: int| 0 <= i < image_magics().len() && bytes_at(b, #[trigger] image_magics()[i], 0)
    ||| is_webp_spec(b)
    ||| is_isobmff_image_spec(b)
}

/// `t` without its leading byte-order marks.
pub open spec fn strip_boms(t: Seq<char>) -> Seq<char>
    decreases t.len(),
{
    if t.len() > 0 && t[0] == '\u{feff}' {
        strip_boms(t.drop_first())
    } else {
        t
    }
}

/// Text that opens an SVG document: after byte-order marks and white space
/// it starts with `<svg`, or it starts with `<?xml` and holds `<svg`.
pub open spec fn svg_text(t: Seq<char>) -> bool {
    let u = trim_start(strip_boms(t));
    has_prefix(u, "<svg"@) || (has_prefix(u, "<?xml"@) && contains(u, "<svg"@))
}

/// The bytes are UTF-8 text that opens an SVG document.
pub open spec fn svg_bytes(b: Seq<u8>) -> bool {
    valid_utf8(b) && svg_text(decode_utf8(b))
}

/// The first bytes of a file show an image.
pub open spec fn image_header(b: Seq<u8>) -> bool {
    image_signature(b) || svg_bytes(b)
}

/// Some stream has the medium.
pub open spec fn has_medium(streams: Seq<StreamFacts>, medium: StreamMedium) -> bool {
    exists|i: int| 0 <= i < streams.len() && (#[trigger] streams[i]).medium == medium
}

/// Some stream is a moving image (a video stream that is not attached art).
pub open spec fn has_moving_video(streams: Seq<StreamFacts>) -> bool {
    exists|i: int|
        0 <= i < streams.len() && (#[trigger] streams[i]).medium == StreamMedium::Video
            && !streams[i].attached_pic
}

/// The kind told by the streams: video when there is moving video, or video
/// without audio; otherwise audio when there is audio; otherwise unknown.
pub open spec fn kind_of_streams(streams: Seq<StreamFacts>) -> Option<MediaKind> {
    if has_moving_video(streams) || (has_medium(streams, StreamMedium::Video) && !has_medium(
        streams,
        StreamMedium::Audio,
    )) {
        Some(MediaKind::Video)
    } else if has_medium(streams, StreamMedium::Audio) {
        Some(MediaKind::Audio)
    } else {
        None
    }
}

/// A length in microseconds is known only when it is positive.
pub open spec fn duration_of(micros: i64) -> Option<u64> {
    if micros > 0 {
        Some(micros as u64)
    } else {
        None
    }
}

/// What is known of a file from its first bytes and, when it could be opened
/// as a media container, from that container.
pub open spec fn probe_of(header: Seq<u8>, container: Option<ContainerFacts>) -> MediaProbe {
    if image_header(header) {
        MediaProbe { kind: Some(MediaKind::Image), duration_micros: None }
    } else {
        match container {
            Some(c) => MediaProbe {
                kind: kind_of_streams(c.streams@),
                duration_micros: duration_of(c.duration_micros),
            },
            None => MediaProbe { kind: None, duration_micros: None },
        }
    }
}

// ---------------------------------------------------------------------------
// Trusted items
// ---------------------------------------------------------------------------

/// Calls `std::str::from_utf8`, which, as its documentation says, accepts the
/// bytes exactly when they are valid UTF-8 and then yields the text they
/// encode. Validity and decoding are vstd's `valid_utf8` and `decode_utf8`.
#[verifier::external_body]
fn utf8_text(bytes: &[u8]) -> (t: Option<String>)
    ensures
        t is Some <==> valid_utf8(bytes@),
        t matches Some(s) ==> s@ == decode_utf8(bytes@),
{
    match std::str::from_utf8(bytes) {
        Ok(s) => Some(s.to_string()),
        Err(_) => None,
    }
}

// ---------------------------------------------------------------------------
// Functions
// ---------------------------------------------------------------------------

fn bytes_at_exec(bytes: &[u8], pat: &[u8], at: usize) -> (b: bool)
    ensures
        b == bytes_at(bytes@, pat@, at as int),
{
    if at > bytes.len() || pat.len() > bytes.len() - at {
        return false;
    }
    let n: usize = bytes.len();
    let mut j: usize = 0;
    while j < pat.len()
        invariant
            n == bytes@.len(),
            at + pat@.len() <= bytes@.len(),
            j <= pat@.len(),
            forall|k: int| 0 <= k < j ==> bytes@[at + k] == pat@[k],
        decreases pat@.len() - j,
    {
        if bytes[at + j] != pat[j] {
            assert(bytes@.subrange(at as int, at + pat@.len())[j as int] != pat@[j as int]);
            return false;
        }
        j = j + 1;
    }
    assert(bytes@.subrange(at as int, at + pat@.len()) =~= pat@);
    true
}

fn is_webp(bytes: &[u8]) -> (b: bool)
    ensures
        b == is_webp_spec(bytes@),
{
    let riff: [u8; 4] = [0x52, 0x49, 0x46, 0x46];
    let webp: [u8; 4] = [0x57, 0x45, 0x42, 0x50];
    assert(riff@ =~= seq![0x52u8, 0x49, 0x46, 0x46]);
    assert(webp@ =~= seq![0x57u8, 0x45, 0x42, 0x50]);
    bytes.len() >= 12 && bytes_at_exec(bytes, &riff, 0) && bytes_at_exec(bytes, &webp, 8)
}

fn is_isobmff_image(bytes: &[u8]) -> (b: bool)
    ensures
        b == is_isobmff_image_spec(bytes@),
{
    let ftyp: [u8; 4] = [0x66, 0x74, 0x79, 0x70];
    assert(ftyp@ =~= seq![0x66u8, 0x74, 0x79, 0x70]);
    if bytes.len() < 12 || !bytes_at_exec(bytes, &ftyp, 4) {
        return false;
    }
    let brands: [[u8; 4]; 8] = [
        [0x61, 0x76, 0x69, 0x66],
        [0x61, 0x76, 0x69, 0x73],
        [0x68, 0x65, 0x69, 0x63],
        [0x68, 0x65, 0x69, 0x78],
        [0x68, 0x65, 0x76, 0x63],
        [0x68, 0x65, 0x76, 0x78],
        [0x6d, 0x69, 0x66, 0x31],
        [0x6d, 0x73, 0x66, 0x31],
    ];
    assert(forall|i: int| 0 <= i < 8 ==> (#[trigger] brands@[i])@ == image_brands()[i]) by {
        assert(brands@[0]@ =~= image_brands()[0]);
        assert(brands@[1]@ =~= image_brands()[1]);
        assert(brands@[2]@ =~= image_brands()[2]);
        assert(brands@[3]@ =~= image_brands()[3]);
        assert(brands@[4]@ =~= image_brands()[4]);
        assert(brands@[5]@ =~= image_brands()[5]);
        assert(brands@[6]@ =~= image_brands()[6]);
        assert(brands@[7]@ =~= image_brands()[7]);
    }
    let mut i: usize = 0;
    while i < 8
        invariant
            i <= 8,
            bytes@.len() >= 12,
            bytes_at(bytes@, seq![0x66u8, 0x74, 0x79, 0x70], 4),
            forall|k: int| 0 <= k < 8 ==> (#[trigger] brands@[k])@ == image_brands()[k],
            forall|k: int| 0 <= k < i ==> image_brands()[k] != bytes@.subrange(8, 12),
        decreases 8 - i,
    {
        if bytes_at_exec(bytes, &brands[i], 8) {
            assert(image_brands()[i as int] == bytes@.subrange(8, 12));
            assert(image_brands().len() == 8);
            assert(image_brands().contains(bytes@.subrange(8, 12)));
            return true;
        }
        i = i + 1;
    }
    assert(!image_brands().contains(bytes@.subrange(8, 12)));
    false
}

/// Whether the bytes begin with the signature of a raster image format
/// (PNG, JPEG, GIF, BMP, TIFF, ICO, WebP, AVIF or HEIF).
pub fn has_image_signature(bytes: &[u8]) -> (b: bool)
    ensures
        b == image_signature(bytes@),
{
    let m0: [u8; 8] = [0x89, 0x50, 0x4e, 0x47, 0x0d, 0x0a, 0x1a, 0x0a];
    assert(m0@ =~= image_magics()[0]);
    if bytes_at_exec(bytes, &m0, 0) {
        return true;
    }
    let m1: [u8; 3] = [0xff, 0xd8, 0xff];
    assert(m1@ =~= image_magics()[1]);
    if bytes_at_exec(bytes, &m1, 0) {
        return true;
    }
    let m2: [u8; 6] = [0x47, 0x49, 0x46, 0x38, 0x37, 0x61];
    assert(m2@ =~= image_magics()[2]);
    if bytes_at_exec(bytes, &m2, 0) {
        return true;
    }
    let m3: [u8; 6] = [0x47, 0x49, 0x46, 0x38, 0x39, 0x61];
    assert(m3@ =~= image_magics()[3]);
    if bytes_at_exec(bytes, &m3, 0) {
        return true;
    }
    let m4: [u8; 2] = [0x42, 0x4d];
    assert(m4@ =~= image_magics()[4]);
    if bytes_at_exec(bytes, &m4, 0) {
        return true;
    }
    let m5: [u8; 4] = [0x49, 0x49, 0x2a, 0x00];
    assert(m5@ =~= image_magics()[5]);
    if bytes_at_exec(bytes, &m5, 0) {
        return true;
    }
    let m6: [u8; 4] = [0x4d, 0x4d, 0x00, 0x2a];
    assert(m6@ =~= image_magics()[6]);
    if bytes_at_exec(bytes, &m6, 0) {
        return true;
    }
    let m7: [u8; 4] = [0x00, 0x00, 0x01, 0x00];
    assert(m7@ =~= image_magics()[7]);
    if bytes_at_exec(bytes, &m7, 0) {
        return true;
    }
    assert forall|k: int| 0 <= k < image_magics().len() implies !bytes_at(
        bytes@,
        #[trigger] image_magics()[k],
        0,
    ) by {
        if k == 0 {
        } else if k == 1 {
        } else if k == 2 {
        } else if k == 3 {
        } else if k == 4 {
        } else if k == 5 {
        } else if k == 6 {
        } else {
        }
    }
    is_webp(bytes) || is_isobmff_image(bytes)
}

/// Whether the text opens an SVG document: after byte-order marks and white
/// space it starts with `<svg`, or it starts with `<?xml` and holds `<svg`.
pub fn looks_like_svg_text(text: &str) -> (b: bool)
    ensures
        b == svg_text(text@),
{
    let v = chars_of(text);
    let n: usize = v.len();
    let mut a: usize = 0;
    assert(v@.subrange(0, n as int) =~= v@);
    while a < n && v[a] == '\u{feff}'
        invariant
            n == v@.len(),
            a <= n,
            strip_boms(v@) == strip_boms(v@.subrange(a as int, n as int)),
        decreases n - a,
    {
        assert(v@.subrange(a as int, n as int).drop_first() =~= v@.subrange(a + 1, n as int));
        a = a + 1;
    }
    assert(v@.subrange(0, n as int) =~= v@);
    let ghost stripped = v@.subrange(a as int, n as int);
    assert(strip_boms(stripped) == stripped);
    let mut c: usize = a;
    while c < n && is_white_space_char(v[c])
        invariant
            n == v@.len(),
            a <= c <= n,
            stripped == v@.subrange(a as int, n as int),
            trim_start(stripped) == trim_start(v@.subrange(c as int, n as int)),
        decreases n - c,
    {
        assert(v@.subrange(c as int, n as int).drop_first() =~= v@.subrange(c + 1, n as int));
        c = c + 1;
    }
    let ghost u = v@.subrange(c as int, n as int);
    assert(trim_start(u) == u);
    let mut rest: Vec<char> = Vec::new();
    let mut k: usize = c;
    while k < n
        invariant
            n == v@.len(),
            c <= k <= n,
            rest@ == v@.subrange(c as int, k as int),
        decreases n - k,
    {
        rest.push(v[k]);
        k = k + 1;
        assert(rest@ =~= v@.subrange(c as int, k as int));
    }
    let svg = chars_of("<svg");
    let xml = chars_of("<?xml");
    occurs_at_exec(&rest, &svg, 0) || (occurs_at_exec(&rest, &xml, 0) && str_contains(&rest, "<svg"))
}

/// Whether the bytes are UTF-8 text that opens an SVG document.
pub fn looks_like_svg(bytes: &[u8]) -> (b: bool)
    ensures
        b == svg_bytes(bytes@),
{
    match utf8_text(bytes) {
        Some(t) => looks_like_svg_text(t.as_str()),
        None => false,
    }
}

/// Whether the first bytes of a file show an image: a raster signature, or
/// the start of an SVG document.
pub fn looks_like_image(header: &[u8]) -> (b: bool)
    ensures
        b == image_header(header@),
{
    has_image_signature(header) || looks_like_svg(header)
}

/// The kind told by the streams of a container.
pub fn kind_from_streams(streams: &[StreamFacts]) -> (kind: Option<MediaKind>)
    ensures
        kind == kind_of_streams(streams@),
{
    let mut has_audio = false;
    let mut has_video = false;
    let mut has_moving = false;
    let mut i: usize = 0;
    while i < streams.len()
        invariant
            i <= streams@.len(),
            has_audio == has_medium(streams@.take(i as int), StreamMedium::Audio),
            has_video == has_medium(streams@.take(i as int), StreamMedium::Video),
            has_moving == has_moving_video(streams@.take(i as int)),
        decreases streams@.len() - i,
    {
        let s = streams[i];
        let ghost before = streams@.take(i as int);
        match s.medium {
            StreamMedium::Audio => {
                has_audio = true;
            },
            StreamMedium::Video => {
                has_video = true;
                if !s.attached_pic {
                    has_moving = true;
                }
            },
            StreamMedium::Other => {},
        }
        i = i + 1;
        let ghost now = streams@.take(i as int);
        assert(now =~= before.push(s));
        assert(now[now.len() - 1] == s);
        assert(forall|k: int| 0 <= k < before.len() ==> now[k] == before[k]);
    }
    assert(streams@.take(streams@.len() as int) =~= streams@);
    if has_moving || (has_video && !has_audio) {
        Some(MediaKind::Video)
    } else if has_audio {
        Some(MediaKind::Audio)
    } else {
        None
    }
}

/// A length in microseconds, known only when positive.
pub fn duration_from_micros(micros: i64) -> (d: Option<u64>)
    ensures
        d == duration_of(micros),
{
    if micros > 0 {
        Some(micros as u64)
    } else {
        None
    }
}

/// What is known of a file from its first bytes (up to 512 of them) and,
/// when it could be opened as a media container, from that container. An
/// image header decides alone; otherwise the container's streams tell the
/// kind and its positive length is the duration.
pub fn probe_from_facts(header: &[u8], container: Option<&ContainerFacts>) -> (p: MediaProbe)
    ensures
        p == probe_of(
            header@,
            match container {
                Some(c) => Some(*c),
                None => None,
            },
        ),
{
    if looks_like_image(header) {
        return MediaProbe { kind: Some(MediaKind::Image), duration_micros: None };
    }
    match container {
        Some(c) => MediaProbe {
            kind: kind_from_streams(c.streams.as_slice()),
            duration_micros: duration_from_micros(c.duration_micros),
        },
        None => MediaProbe { kind: None, duration_micros: None },
    }
}

// ---------------------------------------------------------------------------
// Laws
// ---------------------------------------------------------------------------

/// A file whose first bytes show an image is an image of no duration,
/// whatever its container says; a duration, when known, is positive.
pub proof fn lemma_probe_outcomes(header: Seq<u8>, container: Option<ContainerFacts>)
    ensures
        image_header(header) ==> probe_of(header, container) == (MediaProbe {
            kind: Some(MediaKind::Image),
            duration_micros: None,
        }),
        probe_of(header, container).duration_micros matches Some(d) ==> d > 0,
{
}

/// The kind told by the streams depends on their audio and video streams
/// only: any moving (not attached) video stream makes it video; video with
/// no audio makes it video; audio with no moving video makes it audio; with
/// neither audio nor video it is unknown; and adding a stream of another
/// medium never changes it.
pub proof fn lemma_kind_from_audio_and_video(streams: Seq<StreamFacts>, extra: StreamFacts)
    requires
        extra.medium == StreamMedium::Other,
    ensures
        (exists|i: int|
            0 <= i < streams.len() && (#[trigger] streams[i]).medium == StreamMedium::Video
                && !streams[i].attached_pic) ==> kind_of_streams(streams) == Some(MediaKind::Video),
        (exists|i: int| 0 <= i < streams.len() && (#[trigger] streams[i]).medium == StreamMedium::Video)
            && (forall|i: int| 0 <= i < streams.len() ==> (#[trigger] streams[i]).medium
            != StreamMedium::Audio) ==> kind_of_streams(streams) == Some(MediaKind::Video),
        (exists|i: int| 0 <= i < streams.len() && (#[trigger] streams[i]).medium == StreamMedium::Audio)
            && (forall|i: int|
            0 <= i < streams.len() && (#[trigger] streams[i]).medium == StreamMedium::Video
                ==> streams[i].attached_pic) ==> kind_of_streams(streams) == Some(MediaKind::Audio),
        (forall|i: int|
            0 <= i < streams.len() ==> (#[trigger] streams[i]).medium != StreamMedium::Audio
                && streams[i].medium != StreamMedium::Video) ==> kind_of_streams(streams) is None,
        kind_of_streams(streams.push(extra)) == kind_of_streams(streams),
{
    let t = streams.push(extra);
    assert forall|i: int| 0 <= i < t.len() && t[i].medium == StreamMedium::Audio implies i < streams.len()
        && streams[i].medium == StreamMedium::Audio by {}
    assert forall|i: int| 0 <= i < t.len() && t[i].medium == StreamMedium::Video implies i < streams.len()
        && streams[i].medium == StreamMedium::Video by {}
    assert(has_medium(t, StreamMedium::Audio) == has_medium(streams, StreamMedium::Audio)) by {
        if has_medium(streams, StreamMedium::Audio) {
            let i = choose|i: int| 0 <= i < streams.len() && (#[trigger] streams[i]).medium == StreamMedium::Audio;
            assert(t[i] == streams[i]);
        }
    }
    assert(has_medium(t, StreamMedium::Video) == has_medium(streams, StreamMedium::Video)) by {
        if has_medium(streams, StreamMedium::Video) {
            let i = choose|i: int| 0 <= i < streams.len() && (#[trigger] streams[i]).medium == StreamMedium::Video;
            assert(t[i] == streams[i]);
        }
    }
    assert(has_moving_video(t) == has_moving_video(streams)) by {
        if has_moving_video(streams) {
            let i = choose|i: int|
                0 <= i < streams.len() && (#[trigger] streams[i]).medium == StreamMedium::Video
                    && !streams[i].attached_pic;
            assert(t[i] == streams[i]);
        }
    }
}

/// Files that begin with the PNG, JPEG or GIF signature are images,
/// whatever follows.
pub proof fn lemma_common_signatures_are_images(rest: Seq<u8>)
    ensures
        image_signature(seq![0x89u8, 0x50, 0x4e, 0x47, 0x0d, 0x0a, 0x1a, 0x0a] + rest),
        image_signature(seq![0xffu8, 0xd8, 0xff] + rest),
        image_signature(seq![0x47u8, 0x49, 0x46, 0x38, 0x39, 0x61] + rest),
        image_signature(seq![0x47u8, 0x49, 0x46, 0x38, 0x37, 0x61] + rest),
{
    let png = seq![0x89u8, 0x50, 0x4e, 0x47, 0x0d, 0x0a, 0x1a, 0x0a];
    let jpg = seq![0xffu8, 0xd8, 0xff];
    let gif9 = seq![0x47u8, 0x49, 0x46, 0x38, 0x39, 0x61];
    let gif7 = seq![0x47u8, 0x49, 0x46, 0x38, 0x37, 0x61];
    assert((png + rest).subrange(0, 8) =~= png);
    assert((jpg + rest).subrange(0, 3) =~= jpg);
    assert((gif9 + rest).subrange(0, 6) =~= gif9);
    assert((gif7 + rest).subrange(0, 6) =~= gif7);
    assert(bytes_at(png + rest, image_magics()[0], 0));
    assert(bytes_at(jpg + rest, image_magics()[1], 0));
    assert(bytes_at(gif7 + rest, image_magics()[2], 0));
    assert(bytes_at(gif9 + rest, image_magics()[3], 0));
}

/// Text that holds no `<svg` anywhere is never taken for SVG, and text that
/// starts with `<svg` always is.
pub proof fn lemma_svg_needs_svg_tag(t: Seq<char>)
    ensures
        !contains(t, "<svg"@) ==> !svg_text(t),
        has_prefix(t, "<svg"@) ==> svg_text(t),
{
    lemma_strip_boms_suffix(t);
    let s = strip_boms(t);
    crate::text::lemma_trim_start(s);
    let u = trim_start(s);
    let off = t.len() - u.len();
    assert(u =~= t.skip(off)) by {
        assert(s == t.skip(t.len() - s.len()));
        assert(u == s.skip(s.len() - u.len()));
    }
    if svg_text(t) {
        let w = "<svg"@;
        if has_prefix(u, w) {
            assert(t.subrange(off, off + w.len()) =~= u.subrange(0, w.len() as int));
            assert(occurs_at(t, w, off));
        } else {
            let k = choose|k: int| occurs_at(u, w, k);
            assert(t.subrange(off + k, off + k + w.len()) =~= u.subrange(k, k + w.len()));
            assert(occurs_at(t, w, off + k));
        }
    }
    if has_prefix(t, "<svg"@) {
        reveal_strlit("<svg");
        assert(t.subrange(0, 4)[0] == t[0]);
        assert(t[0] == '<');
        assert(strip_boms(t) == t);
        assert(!is_white_space(t[0]));
        assert(trim_start(t) == t);
    }
}

proof fn lemma_strip_boms_suffix(t: Seq<char>)
    ensures
        strip_boms(t).len() <= t.len(),
        strip_boms(t) == t.skip(t.len() - strip_boms(t).len()),
    decreases t.len(),
{
    if t.len() > 0 && t[0] == '\u{feff}' {
        lemma_strip_boms_suffix(t.drop_first());
        let r = strip_boms(t.drop_first());
        assert(t.drop_first().skip(t.drop_first().len() - r.len()) =~= t.skip(t.len() - r.len()));
    } else {
        assert(t.skip(0) =~= t);
    }
}

} // verus!
