use vstd::prelude::*;

use crate::access::{strategy_browser, strategy_uses_pot, browser_id, YoutubeAccessStrategy};
use crate::analysis::opt_text;
use crate::youtube_url::{safe_http_url, safe_http_url_spec};
use crate::download::copy_string;
use crate::text::{
    all_digits, chars_of, contains_text, decimal, ends_with_chars, ends_with_text, has_lit, eq_lit,
    lower_chars, lower_text, owned, push_decimal, string_from_chars, trim_chars, trim_text,
};

verus! {

/// The outcome of comparing two things.
#[derive(Debug, Clone, Copy, PartialEq, Eq, Structural)]
pub enum Preference {
    Less,
    Equal,
    Greater,
}

/// Comparison of two integers.
pub open spec fn compare_int(a: int, b: int) -> Preference {
    if a < b {
        Preference::Less
    } else if a == b {
        Preference::Equal
    } else {
        Preference::Greater
    }
}

/// The sign bit of a binary64 encoding.
pub open spec fn sign_bit() -> int {
    0x8000_0000_0000_0000
}

/// The binary64 encoding is a NaN: all exponent bits set and a non-zero
/// fraction.
pub open spec fn is_nan_bits(bits: u64) -> bool {
    let magnitude = if bits >= sign_bit() { bits - sign_bit() } else { bits as int };
    magnitude > 0x7FF0_0000_0000_0000
}

/// For a binary64 encoding that is not a NaN, an integer with the same order
/// as the encoded number: the magnitude bits, negated for a negative sign
/// (so that both zeros meet at 0).
pub open spec fn float_rank(bits: u64) -> int {
    if bits >= sign_bit() {
        -(bits - sign_bit())
    } else {
        bits as int
    }
}

/// `f64::partial_cmp` on encodings, with an unordered pair (a NaN) counted as
/// equal, and an absent value below any present one (`Option::partial_cmp`).
pub open spec fn compare_float_opt(a: Option<u64>, b: Option<u64>) -> Preference {
    match (a, b) {
        (None, None) => Preference::Equal,
        (None, Some(_)) => Preference::Less,
        (Some(_), None) => Preference::Greater,
        (Some(x), Some(y)) => if is_nan_bits(x) || is_nan_bits(y) {
            Preference::Equal
        } else {
            compare_int(float_rank(x), float_rank(y))
        },
    }
}

/// `Option<u64>::cmp`: absent is least.
pub open spec fn compare_u64_opt(a: Option<u64>, b: Option<u64>) -> Preference {
    match (a, b) {
        (None, None) => Preference::Equal,
        (None, Some(_)) => Preference::Less,
        (Some(_), None) => Preference::Greater,
        (Some(x), Some(y)) => compare_int(x as int, y as int),
    }
}

/// `bool::cmp`: false before true.
pub open spec fn compare_bool(a: bool, b: bool) -> Preference {
    if a == b {
        Preference::Equal
    } else if !a {
        Preference::Less
    } else {
        Preference::Greater
    }
}

/// Lexicographic comparison of texts by code point (`str::cmp`).
pub open spec fn compare_text(a: Seq<char>, b: Seq<char>) -> Preference
    decreases a.len(),
{
    if a.len() == 0 && b.len() == 0 {
        Preference::Equal
    } else if a.len() == 0 {
        Preference::Less
    } else if b.len() == 0 {
        Preference::Greater
    } else if (a[0] as u32) < (b[0] as u32) {
        Preference::Less
    } else if (a[0] as u32) > (b[0] as u32) {
        Preference::Greater
    } else {
        compare_text(a.drop_first(), b.drop_first())
    }
}

/// `Ordering::then`: the second comparison decides a tie of the first.
pub open spec fn then(first: Preference, second: Preference) -> Preference {
    if first == Preference::Equal {
        second
    } else {
        first
    }
}

fn compare_u64(a: u64, b: u64) -> (r: Preference)
    ensures
        r == compare_int(a as int, b as int),
{
    if a < b {
        Preference::Less
    } else if a == b {
        Preference::Equal
    } else {
        Preference::Greater
    }
}

fn nan_bits(bits: u64) -> (r: bool)
    ensures
        r == is_nan_bits(bits),
{
    let magnitude: u64 = if bits >= 0x8000_0000_0000_0000 { bits - 0x8000_0000_0000_0000 } else { bits };
    magnitude > 0x7FF0_0000_0000_0000
}

/// Compares two optional binary64 encodings as `Option<f64>::partial_cmp`
/// does, an unordered pair counted as equal.
pub fn compare_floats(a: Option<u64>, b: Option<u64>) -> (r: Preference)
    ensures
        r == compare_float_opt(a, b),
{
    match (a, b) {
        (None, None) => Preference::Equal,
        (None, Some(_)) => Preference::Less,
        (Some(_), None) => Preference::Greater,
        (Some(x), Some(y)) => {
            if nan_bits(x) || nan_bits(y) {
                return Preference::Equal;
            }
            let x_negative = x >= 0x8000_0000_0000_0000;
            let y_negative = y >= 0x8000_0000_0000_0000;
            if !x_negative && !y_negative {
                compare_u64(x, y)
            } else if x_negative && y_negative {
                let xm: u64 = x - 0x8000_0000_0000_0000;
                let ym: u64 = y - 0x8000_0000_0000_0000;
                compare_u64(ym, xm)
            } else if x_negative {
                let xm: u64 = x - 0x8000_0000_0000_0000;
                if xm == 0 && y == 0 {
                    Preference::Equal
                } else {
                    Preference::Less
                }
            } else {
                let ym: u64 = y - 0x8000_0000_0000_0000;
                if ym == 0 && x == 0 {
                    Preference::Equal
                } else {
                    Preference::Greater
                }
            }
        },
    }
}

/// Compares two optional counts, absent first.
pub fn compare_counts(a: Option<u64>, b: Option<u64>) -> (r: Preference)
    ensures
        r == compare_u64_opt(a, b),
{
    match (a, b) {
        (None, None) => Preference::Equal,
        (None, Some(_)) => Preference::Less,
        (Some(_), None) => Preference::Greater,
        (Some(x), Some(y)) => compare_u64(x, y),
    }
}

/// Compares two flags, false first.
pub fn compare_flags(a: bool, b: bool) -> (r: Preference)
    ensures
        r == compare_bool(a, b),
{
    if a == b {
        Preference::Equal
    } else if !a {
        Preference::Less
    } else {
        Preference::Greater
    }
}

/// Compares two texts lexicographically by code point.
pub fn compare_chars(a: &Vec<char>, b: &Vec<char>) -> (r: Preference)
    ensures
        r == compare_text(a@, b@),
{
    assert(a@.subrange(0, a@.len() as int) == a@);
    assert(b@.subrange(0, b@.len() as int) == b@);
    let mut i: usize = 0;
    while i < a.len() && i < b.len()
        invariant
            i <= a@.len(),
            i <= b@.len(),
            compare_text(a@, b@) == compare_text(a@.subrange(i as int, a@.len() as int), b@.subrange(i as int, b@.len() as int)),
        decreases a.len() - i,
    {
        let ghost ra = a@.subrange(i as int, a@.len() as int);
        let ghost rb = b@.subrange(i as int, b@.len() as int);
        assert(ra[0] == a@[i as int] && rb[0] == b@[i as int]);
        let x = a[i] as u32;
        let y = b[i] as u32;
        if x < y {
            return Preference::Less;
        }
        if x > y {
            return Preference::Greater;
        }
        assert(ra.drop_first() == a@.subrange(i + 1, a@.len() as int));
        assert(rb.drop_first() == b@.subrange(i + 1, b@.len() as int));
        i = i + 1;
    }
    if i == a.len() && i == b.len() {
        Preference::Equal
    } else if i == a.len() {
        Preference::Less
    } else {
        Preference::Greater
    }
}


/// A downloadable stream as the resolution picker lists it. Frame rate and
/// bit rate are decimal measurements carried as their binary64 encodings.
#[derive(Debug, Clone)]
pub struct VideoFormat {
    pub id: String,
    pub extension: String,
    pub format_note: Option<String>,
    pub height: Option<u32>,
    pub width: Option<u32>,
    pub fps_bits: Option<u64>,
    pub video_codec: Option<String>,
    pub audio_codec: Option<String>,
    pub bitrate_bits: Option<u64>,
    pub filesize: Option<u64>,
    pub filesize_approx: Option<u64>,
    pub has_video: bool,
    pub has_audio: bool,
}

impl VideoFormat {
    /// A copy of this format.
    pub fn copy(&self) -> (r: VideoFormat)
        ensures
            r == *self,
    {
        VideoFormat {
            id: self.id.clone(),
            extension: self.extension.clone(),
            format_note: copy_string(&self.format_note),
            height: self.height,
            width: self.width,
            fps_bits: self.fps_bits,
            video_codec: copy_string(&self.video_codec),
            audio_codec: copy_string(&self.audio_codec),
            bitrate_bits: self.bitrate_bits,
            filesize: self.filesize,
            filesize_approx: self.filesize_approx,
            has_video: self.has_video,
            has_audio: self.has_audio,
        }
    }
}

/// The known size of a format: exact if reported, else approximate.
pub open spec fn known_size(f: VideoFormat) -> Option<u64> {
    match f.filesize {
        Some(s) => Some(s),
        None => f.filesize_approx,
    }
}

/// Which of two formats of one resolution is better: higher frame rate, then
/// higher bit rate, then larger size, then one that carries audio, then the
/// greater identifier.
pub open spec fn format_preference(l: VideoFormat, r: VideoFormat) -> Preference {
    then(
        then(
            then(
                then(compare_float_opt(l.fps_bits, r.fps_bits), compare_float_opt(l.bitrate_bits, r.bitrate_bits)),
                compare_u64_opt(known_size(l), known_size(r)),
            ),
            compare_bool(l.has_audio, r.has_audio),
        ),
        compare_text(l.id@, r.id@),
    )
}

/// Between two formats with the same frame rate that both report a bit rate
/// (non-negative numbers, not NaN), the one with the strictly higher bit rate
/// is preferred, whatever their sizes, audio and identifiers: it compares
/// `Greater` against the other, and the other `Less` against it. (For such
/// binary64 encodings a larger encoding is a larger number.)
pub proof fn lemma_higher_bitrate_is_preferred(l: VideoFormat, r: VideoFormat)
    requires
        l.fps_bits == r.fps_bits,
        l.bitrate_bits is Some,
        r.bitrate_bits is Some,
        l.bitrate_bits.unwrap() <= 0x7FF0_0000_0000_0000u64,
        r.bitrate_bits.unwrap() <= 0x7FF0_0000_0000_0000u64,
        l.bitrate_bits.unwrap() > r.bitrate_bits.unwrap(),
    ensures
        format_preference(l, r) == Preference::Greater,
        format_preference(r, l) == Preference::Less,
{
}

/// Compares two formats of one resolution (see `format_preference`).
pub fn preferred_format(left: &VideoFormat, right: &VideoFormat) -> (r: Preference)
    ensures
        r == format_preference(*left, *right),
{
    let by_fps = compare_floats(left.fps_bits, right.fps_bits);
    if by_fps != Preference::Equal {
        return by_fps;
    }
    let by_rate = compare_floats(left.bitrate_bits, right.bitrate_bits);
    if by_rate != Preference::Equal {
        return by_rate;
    }
    let left_size = match left.filesize {
        Some(s) => Some(s),
        None => left.filesize_approx,
    };
    let right_size = match right.filesize {
        Some(s) => Some(s),
        None => right.filesize_approx,
    };
    let by_size = compare_counts(left_size, right_size);
    if by_size != Preference::Equal {
        return by_size;
    }
    let by_audio = compare_flags(left.has_audio, right.has_audio);
    if by_audio != Preference::Equal {
        return by_audio;
    }
    let l = chars_of(left.id.as_str());
    let r = chars_of(right.id.as_str());
    compare_chars(&l, &r)
}

/// The position that `Iterator::max_by` with `format_preference` picks in a
/// non-empty list: among equally good formats, the last.
pub open spec fn best_index(fs: Seq<VideoFormat>) -> int
    decreases fs.len(),
{
    if fs.len() <= 1 {
        0
    } else {
        let b = best_index(fs.drop_last());
        if format_preference(fs[b], fs.last()) == Preference::Greater {
            b
        } else {
            fs.len() - 1
        }
    }
}

proof fn lemma_best_index_in_range(fs: Seq<VideoFormat>)
    requires
        fs.len() > 0,
    ensures
        0 <= best_index(fs) < fs.len(),
    decreases fs.len(),
{
    if fs.len() > 1 {
        lemma_best_index_in_range(fs.drop_last());
    }
}

/// The position of the best of a non-empty list of formats.
pub fn best_format(fs: &Vec<VideoFormat>) -> (r: usize)
    requires
        fs@.len() > 0,
    ensures
        r == best_index(fs@),
        r < fs@.len(),
{
    let mut best: usize = 0;
    let mut i: usize = 1;
    while i < fs.len()
        invariant
            1 <= i <= fs@.len(),
            best == best_index(fs@.subrange(0, i as int)),
            best < i,
        decreases fs.len() - i,
    {
        proof {
            assert(fs@.subrange(0, i + 1).drop_last() == fs@.subrange(0, i as int));
            assert(fs@.subrange(0, i + 1)[best as int] == fs@[best as int]);
            assert(fs@.subrange(0, i + 1).last() == fs@[i as int]);
        }
        if preferred_format(&fs[best], &fs[i]) != Preference::Greater {
            best = i;
        }
        i = i + 1;
    }
    assert(fs@.subrange(0, fs@.len() as int) == fs@);
    best
}

// ---------------------------------------------------------------------------
// Quality labels
// ---------------------------------------------------------------------------

/// The marketing name of a standard height, if it has one.
pub open spec fn height_badge(height: u32) -> Option<Seq<char>> {
    if height == 4320 {
        Some(" · 8K"@)
    } else if height == 2160 {
        Some(" · 4K"@)
    } else if height == 1440 {
        Some(" · 2K"@)
    } else if height == 1080 {
        Some(" · Full HD"@)
    } else if height == 720 {
        Some(" · HD"@)
    } else {
        None
    }
}

/// `text` followed by the height's badge, if any.
pub open spec fn with_badge(text: Seq<char>, height: u32) -> Seq<char> {
    match height_badge(height) {
        Some(b) => text + b,
        None => text,
    }
}

/// The label of a height: `1080p · Full HD`, `480p`, ….
pub open spec fn quality_label_text(height: u32) -> Seq<char> {
    with_badge(decimal(height as nat) + "p"@, height)
}

fn push_str(out: &mut Vec<char>, s: &str)
    ensures
        final(out)@ == old(out)@ + s@,
{
    let mut tail = chars_of(s);
    out.append(&mut tail);
}

fn push_badge(out: &mut Vec<char>, height: u32)
    ensures
        final(out)@ == with_badge(old(out)@, height),
{
    if height == 4320 {
        push_str(out, " · 8K");
    } else if height == 2160 {
        push_str(out, " · 4K");
    } else if height == 1440 {
        push_str(out, " · 2K");
    } else if height == 1080 {
        push_str(out, " · Full HD");
    } else if height == 720 {
        push_str(out, " · HD");
    }
}

/// The label of a height.
pub fn quality_label(height: u32) -> (r: String)
    ensures
        r@ == quality_label_text(height),
{
    let mut v: Vec<char> = Vec::new();
    push_decimal(&mut v, height as u64);
    push_str(&mut v, "p");
    assert(v@ =~= decimal(height as nat) + "p"@);
    push_badge(&mut v, height);
    string_from_chars(&v)
}

/// The frame size of a format, as the interface shows it.
pub open spec fn resolution_text(width: Option<u32>, height: Option<u32>) -> Seq<char> {
    match (width, height) {
        (Some(w), Some(h)) => decimal(w as nat) + " × "@ + decimal(h as nat) + " px"@,
        _ => "tamaño informado por la fuente"@,
    }
}

impl VideoFormat {
    /// The frame size of this format.
    pub fn resolution_label(&self) -> (r: String)
        ensures
            r@ == resolution_text(self.width, self.height),
    {
        match (self.width, self.height) {
            (Some(w), Some(h)) => {
                let mut v: Vec<char> = Vec::new();
                push_decimal(&mut v, w as u64);
                push_str(&mut v, " × ");
                push_decimal(&mut v, h as u64);
                push_str(&mut v, " px");
                assert(v@ =~= decimal(w as nat) + " × "@ + decimal(h as nat) + " px"@);
                string_from_chars(&v)
            },
            _ => owned("tamaño informado por la fuente"),
        }
    }
}

/// A quality name as the source writes it: digits followed by `p`.
pub open spec fn is_quality_note(note: Seq<char>) -> bool {
    note.len() >= 2 && note.last() == 'p' && all_digits(note.drop_last())
}

/// The source's own quality name for a format, if it gave one.
pub open spec fn source_note(f: VideoFormat) -> Option<Seq<char>> {
    match f.format_note {
        Some(n) => if is_quality_note(trim_text(n@)) {
            Some(trim_text(n@))
        } else {
            None
        },
        None => None,
    }
}

/// The label of a resolution: the source's quality name where it gave one
/// (with the real frame size when that name is not the frame height), else
/// a name made from the height.
pub open spec fn source_label_text(f: VideoFormat, height: u32) -> Seq<char> {
    match source_note(f) {
        Some(note) => if note != decimal(height as nat) + "p"@ {
            note + " ("@ + resolution_text(f.width, f.height) + ")"@
        } else {
            with_badge(note, height)
        },
        None => quality_label_text(height),
    }
}

fn quality_note(f: &VideoFormat) -> (r: Option<Vec<char>>)
    ensures
        match r {
            Some(v) => source_note(*f) == Some(v@),
            None => source_note(*f) is None,
        },
{
    match &f.format_note {
        None => None,
        Some(n) => {
            let raw = chars_of(n.as_str());
            let t = trim_chars(&raw);
            if t.len() < 2 || t[t.len() - 1] != 'p' {
                return None;
            }
            let mut i: usize = 0;
            while i < t.len() - 1
                invariant
                    t.len() >= 2,
                    t@ == trim_text(n@),
                    source_note(*f) == (if is_quality_note(t@) { Some(t@) } else { None }),
                    i <= t.len() - 1,
                    forall|j: int| 0 <= j < i ==> crate::text::is_digit(#[trigger] t@.drop_last()[j]),
                decreases t.len() - 1 - i,
            {
                let c = t[i];
                assert(t@.drop_last()[i as int] == c);
                if !('0' <= c && c <= '9') {
                    assert(!crate::text::is_digit(t@.drop_last()[i as int]));
                    return None;
                }
                i = i + 1;
            }
            Some(t)
        },
    }
}

/// The label of a resolution whose best format is `format`.
pub fn source_quality_label(format: &VideoFormat, height: u32) -> (r: String)
    ensures
        r@ == source_label_text(*format, height),
{
    match quality_note(format) {
        None => quality_label(height),
        Some(note) => {
            let mut plain: Vec<char> = Vec::new();
            push_decimal(&mut plain, height as u64);
            push_str(&mut plain, "p");
            assert(plain@ =~= decimal(height as nat) + "p"@);
            if !crate::text::same_chars(&note, &plain) {
                let mut v = note;
                push_str(&mut v, " (");
                let size = format.resolution_label();
                let mut size_chars = chars_of(size.as_str());
                v.append(&mut size_chars);
                push_str(&mut v, ")");
                string_from_chars(&v)
            } else {
                let mut v = note;
                push_badge(&mut v, height);
                string_from_chars(&v)
            }
        },
    }
}


// ---------------------------------------------------------------------------
// From metadata to the resolution picker
// ---------------------------------------------------------------------------

/// One entry of the `formats` list of yt-dlp's metadata, as read from JSON:
/// numbers already narrowed to the integer types used here, frame rate and bit
/// rate carried as binary64 encodings.
#[derive(Debug, Clone)]
pub struct RawFormat {
    pub format_id: Option<String>,
    pub ext: Option<String>,
    pub format_note: Option<String>,
    pub width: Option<u32>,
    pub height: Option<u32>,
    pub fps_bits: Option<u64>,
    pub vcodec: Option<String>,
    pub acodec: Option<String>,
    pub tbr_bits: Option<u64>,
    pub filesize: Option<u64>,
    pub filesize_approx: Option<u64>,
    pub url: Option<String>,
    pub has_drm: Option<bool>,
}

/// A codec field names a real codec (yt-dlp writes `none` for a missing
/// stream).
pub open spec fn codec_present(c: Option<String>) -> bool {
    c matches Some(s) && s@ != "none"@
}

/// `f` is the picker's view of the metadata entry `raw`.
pub open spec fn converted(f: VideoFormat, raw: RawFormat) -> bool {
    &&& raw.format_id == Some(f.id)
    &&& f.extension@ == (match raw.ext {
        Some(e) => e@,
        None => "unknown"@,
    })
    &&& f.format_note == raw.format_note
    &&& f.height == raw.height
    &&& f.width == raw.width
    &&& f.fps_bits == raw.fps_bits
    &&& f.video_codec == raw.vcodec
    &&& f.audio_codec == raw.acodec
    &&& f.bitrate_bits == raw.tbr_bits
    &&& f.filesize == raw.filesize
    &&& f.filesize_approx == raw.filesize_approx
    &&& f.has_video == codec_present(raw.vcodec)
    &&& f.has_audio == codec_present(raw.acodec)
}

/// A usable video stream: it has video, a real frame size and a direct URL,
/// and is neither DRM-protected nor a storyboard.
pub open spec fn downloadable(raw: RawFormat) -> bool {
    &&& codec_present(raw.vcodec)
    &&& raw.width matches Some(w) && w > 0
    &&& raw.height matches Some(h) && h > 0
    &&& raw.url matches Some(u) && trim_text(u@).len() > 0
    &&& raw.has_drm != Some(true)
    &&& !(raw.format_note matches Some(n) && contains_text(lower_text(n@), "storyboard"@))
}

/// The entry is listed in the picker: it has an identifier, is a usable video
/// stream and is not a Super Resolution (`-sr`) variant.
pub open spec fn listed(raw: RawFormat) -> bool {
    raw.format_id matches Some(id) && downloadable(raw) && !ends_with_text(id@, "-sr"@)
}

fn present_codec(c: &Option<String>) -> (r: bool)
    ensures
        r == codec_present(*c),
{
    match c {
        Some(s) => {
            let v = chars_of(s.as_str());
            !eq_lit(&v, "none")
        },
        None => false,
    }
}

/// The picker's view of a metadata entry; `None` without an identifier.
pub fn to_video_format(raw: &RawFormat) -> (r: Option<VideoFormat>)
    ensures
        r matches Some(f) ==> converted(f, *raw),
        r is None <==> raw.format_id is None,
{
    let id = match &raw.format_id {
        Some(id) => id.clone(),
        None => {
            return None;
        },
    };
    let extension = match &raw.ext {
        Some(e) => e.clone(),
        None => owned("unknown"),
    };
    Some(VideoFormat {
        id,
        extension,
        format_note: copy_string(&raw.format_note),
        height: raw.height,
        width: raw.width,
        fps_bits: raw.fps_bits,
        video_codec: copy_string(&raw.vcodec),
        audio_codec: copy_string(&raw.acodec),
        bitrate_bits: raw.tbr_bits,
        filesize: raw.filesize,
        filesize_approx: raw.filesize_approx,
        has_video: present_codec(&raw.vcodec),
        has_audio: present_codec(&raw.acodec),
    })
}

/// Whether a metadata entry is a usable video stream.
pub fn is_downloadable_video_format(raw: &RawFormat) -> (r: bool)
    ensures
        r == downloadable(*raw),
{
    if !present_codec(&raw.vcodec) {
        return false;
    }
    match raw.width {
        Some(w) => if w == 0 { return false; },
        None => { return false; },
    }
    match raw.height {
        Some(h) => if h == 0 { return false; },
        None => { return false; },
    }
    match &raw.url {
        Some(u) => {
            let c = chars_of(u.as_str());
            let t = trim_chars(&c);
            if t.len() == 0 {
                return false;
            }
        },
        None => { return false; },
    }
    if raw.has_drm == Some(true) {
        return false;
    }
    match &raw.format_note {
        Some(n) => {
            let c = chars_of(n.as_str());
            let lower = lower_chars(&c);
            !has_lit(&lower, "storyboard")
        },
        None => true,
    }
}

/// Whether a metadata entry is listed in the picker.
pub fn is_listed(raw: &RawFormat) -> (r: bool)
    ensures
        r == listed(*raw),
{
    match &raw.format_id {
        None => false,
        Some(id) => {
            if !is_downloadable_video_format(raw) {
                return false;
            }
            let c = chars_of(id.as_str());
            let suffix = chars_of("-sr");
            !ends_with_chars(&c, &suffix)
        },
    }
}

/// The picker's formats for a metadata `formats` list, in order.
pub open spec fn listed_formats(out: Seq<VideoFormat>, raws: Seq<RawFormat>) -> bool {
    let kept = raws.filter(|r: RawFormat| listed(r));
    &&& out.len() == kept.len()
    &&& forall|i: int| 0 <= i < out.len() ==> converted(#[trigger] out[i], kept[i])
}

/// The usable, non-Super-Resolution formats of the metadata, in order.
pub fn downloadable_formats(raws: &Vec<RawFormat>) -> (r: Vec<VideoFormat>)
    ensures
        listed_formats(r@, raws@),
{
    let mut out: Vec<VideoFormat> = Vec::new();
    let mut i: usize = 0;
    while i < raws.len()
        invariant
            i <= raws@.len(),
            listed_formats(out@, raws@.subrange(0, i as int)),
        decreases raws.len() - i,
    {
        let ghost before = raws@.subrange(0, i as int).filter(|r: RawFormat| listed(r));
        proof {
            reveal_with_fuel(Seq::filter, 1);
            assert(raws@.subrange(0, i + 1).drop_last() == raws@.subrange(0, i as int));
            assert(raws@.subrange(0, i + 1).last() == raws@[i as int]);
        }
        if is_listed(&raws[i]) {
            match to_video_format(&raws[i]) {
                Some(f) => {
                    out.push(f);
                },
                None => {},
            }
            assert(raws@.subrange(0, i + 1).filter(|r: RawFormat| listed(r)) == before.push(raws@[i as int]));
            assert forall|k: int| 0 <= k < out@.len() implies converted(#[trigger] out@[k], raws@.subrange(0, i + 1).filter(|r: RawFormat| listed(r))[k]) by {
                if k < before.len() {
                }
            }
        } else {
            assert(raws@.subrange(0, i + 1).filter(|r: RawFormat| listed(r)) == before);
        }
        i = i + 1;
    }
    assert(raws@.subrange(0, raws@.len() as int) == raws@);
    out
}


/// Some format has height `h`.
pub open spec fn has_height(fs: Seq<VideoFormat>, h: u32) -> bool {
    exists|i: int| 0 <= i < fs.len() && (#[trigger] fs[i]).height == Some(h)
}

/// The formats of height `h`, in order.
pub open spec fn of_height(fs: Seq<VideoFormat>, h: u32) -> Seq<VideoFormat> {
    fs.filter(|f: VideoFormat| f.height == Some(h))
}

/// The distinct heights of the formats, from the highest down.
pub open spec fn heights_descending(hs: Seq<u32>, fs: Seq<VideoFormat>) -> bool {
    &&& forall|i: int, j: int| 0 <= i < j < hs.len() ==> hs[i] > hs[j]
    &&& forall|i: int| 0 <= i < hs.len() ==> has_height(fs, #[trigger] hs[i])
    &&& forall|h: u32| #[trigger] has_height(fs, h) ==> hs.contains(h)
}

/// `h` lies below the bound, if there is one.
pub open spec fn below(bound: Option<u32>, h: u32) -> bool {
    match bound {
        Some(x) => h < x,
        None => true,
    }
}

/// The highest height below `bound` (any height when there is no bound).
fn highest_below(fs: &Vec<VideoFormat>, bound: Option<u32>) -> (r: Option<u32>)
    ensures
        r matches Some(b) ==> has_height(fs@, b) && (bound matches Some(x) ==> b < x),
        forall|i: int| 0 <= i < fs@.len() && (#[trigger] fs@[i]).height is Some
            && below(bound, fs@[i].height.unwrap()) ==> (r matches Some(b) && fs@[i].height.unwrap() <= b),
{
    let mut best: Option<u32> = None;
    let mut i: usize = 0;
    while i < fs.len()
        invariant
            i <= fs@.len(),
            best matches Some(b) ==> has_height(fs@, b) && (bound matches Some(x) ==> b < x),
            forall|j: int| 0 <= j < i && (#[trigger] fs@[j]).height is Some
                && below(bound, fs@[j].height.unwrap()) ==> (best matches Some(b) && fs@[j].height.unwrap() <= b),
        decreases fs.len() - i,
    {
        match fs[i].height {
            Some(h) => {
                let below = match bound {
                    Some(x) => h < x,
                    None => true,
                };
                if below {
                    let better = match best {
                        Some(b) => h > b,
                        None => true,
                    };
                    if better {
                        assert(fs@[i as int].height == Some(h));
                        best = Some(h);
                    }
                }
            },
            None => {},
        }
        i = i + 1;
    }
    best
}

/// The distinct heights of the formats, from the highest down.
pub fn heights_of(fs: &Vec<VideoFormat>) -> (r: Vec<u32>)
    ensures
        heights_descending(r@, fs@),
{
    let mut hs: Vec<u32> = Vec::new();
    loop
        invariant
            forall|i: int, j: int| 0 <= i < j < hs@.len() ==> hs@[i] > hs@[j],
            forall|i: int| 0 <= i < hs@.len() ==> has_height(fs@, #[trigger] hs@[i]),
            forall|h: u32| #[trigger] has_height(fs@, h) && hs@.len() > 0 && h >= hs@.last() ==> hs@.contains(h),
        decreases (if hs@.len() == 0 { 0x1_0000_0000 } else { hs@.last() as int }),
    {
        let bound: Option<u32> = if hs.len() == 0 { None } else { Some(hs[hs.len() - 1]) };
        match highest_below(fs, bound) {
            None => {
                assert forall|h: u32| #[trigger] has_height(fs@, h) implies hs@.contains(h) by {
                    let i = choose|i: int| 0 <= i < fs@.len() && (#[trigger] fs@[i]).height == Some(h);
                    assert(fs@[i].height == Some(h));
                }
                return hs;
            },
            Some(b) => {
                let ghost old_hs = hs@;
                hs.push(b);
                assert forall|h: u32| #[trigger] has_height(fs@, h) && hs@.len() > 0 && h >= hs@.last() implies hs@.contains(h) by {
                    if h == b {
                        assert(hs@[hs@.len() - 1] == b);
                    } else {
                        let i = choose|i: int| 0 <= i < fs@.len() && (#[trigger] fs@[i]).height == Some(h);
                        assert(fs@[i].height == Some(h));
                        assert(old_hs.len() > 0 && h >= old_hs.last());
                        let k = choose|k: int| 0 <= k < old_hs.len() && old_hs[k] == h;
                        assert(hs@[k] == h);
                    }
                }
            },
        }
    }
}

/// The formats of height `h`, in order.
pub fn formats_of_height(fs: &Vec<VideoFormat>, h: u32) -> (r: Vec<VideoFormat>)
    ensures
        r@ == of_height(fs@, h),
{
    let mut out: Vec<VideoFormat> = Vec::new();
    let mut i: usize = 0;
    while i < fs.len()
        invariant
            i <= fs@.len(),
            out@ == of_height(fs@.subrange(0, i as int), h),
        decreases fs.len() - i,
    {
        proof {
            reveal_with_fuel(Seq::filter, 1);
            assert(fs@.subrange(0, i + 1).drop_last() == fs@.subrange(0, i as int));
        }
        if fs[i].height == Some(h) {
            out.push(fs[i].copy());
        }
        i = i + 1;
    }
    assert(fs@.subrange(0, fs@.len() as int) == fs@);
    out
}

/// One resolution offered in the picker, with its best format and all the
/// formats of that height.
#[derive(Debug, Clone)]
pub struct QualityOption {
    pub height: u32,
    pub label: String,
    pub format_id: String,
    pub format_has_audio: bool,
    pub video_formats: Vec<VideoFormat>,
}

/// `q` offers height `h` of the formats `fs`.
pub open spec fn quality_for(q: QualityOption, fs: Seq<VideoFormat>, h: u32) -> bool {
    let group = of_height(fs, h);
    let best = group[best_index(group)];
    &&& q.height == h
    &&& q.video_formats@ == group
    &&& q.format_id == best.id
    &&& q.format_has_audio == best.has_audio
    &&& q.label@ == source_label_text(best, h)
}

/// The picker's resolutions for the formats `fs`: one per distinct height,
/// from the highest down.
pub open spec fn qualities_for(qs: Seq<QualityOption>, fs: Seq<VideoFormat>) -> bool {
    exists|hs: Seq<u32>| {
        &&& heights_descending(hs, fs)
        &&& qs.len() == hs.len()
        &&& forall|i: int| 0 <= i < qs.len() ==> quality_for(#[trigger] qs[i], fs, hs[i])
    }
}

proof fn lemma_height_group_nonempty(fs: Seq<VideoFormat>, h: u32)
    requires
        has_height(fs, h),
    ensures
        of_height(fs, h).len() > 0,
{
    let i = choose|i: int| 0 <= i < fs.len() && (#[trigger] fs[i]).height == Some(h);
    fs.lemma_filter_contains(|f: VideoFormat| f.height == Some(h), i);
    assert(of_height(fs, h).contains(fs[i]));
}

/// The resolutions of the formats `fs`, from the highest down.
pub fn qualities_of(fs: &Vec<VideoFormat>) -> (r: Vec<QualityOption>)
    ensures
        qualities_for(r@, fs@),
{
    let hs = heights_of(fs);
    let mut qs: Vec<QualityOption> = Vec::new();
    let mut k: usize = 0;
    while k < hs.len()
        invariant
            k <= hs@.len(),
            heights_descending(hs@, fs@),
            qs@.len() == k,
            forall|i: int| 0 <= i < k ==> quality_for(#[trigger] qs@[i], fs@, hs@[i]),
        decreases hs.len() - k,
    {
        let h = hs[k];
        let group = formats_of_height(fs, h);
        proof {
            lemma_height_group_nonempty(fs@, h);
        }
        let b = best_format(&group);
        let label = source_quality_label(&group[b], h);
        let q = QualityOption {
            height: h,
            label,
            format_id: group[b].id.clone(),
            format_has_audio: group[b].has_audio,
            video_formats: group,
        };
        qs.push(q);
        k = k + 1;
    }
    qs
}


/// What yt-dlp's metadata says of a video, as read from JSON.
#[derive(Debug, Clone)]
pub struct VideoMetadata {
    pub id: Option<String>,
    pub title: Option<String>,
    pub channel: Option<String>,
    pub uploader: Option<String>,
    pub duration_bits: Option<u64>,
    pub thumbnail: Option<String>,
    pub formats: Vec<RawFormat>,
}

/// An analysed video: its metadata, the strategy that reached it, and its
/// resolutions. The duration is carried as its binary64 encoding.
#[derive(Debug, Clone)]
pub struct AnalyzedVideo {
    pub id: String,
    pub url: String,
    pub title: String,
    pub channel: Option<String>,
    pub duration_bits: Option<u64>,
    pub thumbnail: Option<String>,
    pub access_strategy: YoutubeAccessStrategy,
    pub browser_session: Option<String>,
    pub use_pot_provider: bool,
    pub qualities: Vec<QualityOption>,
    pub formats: Vec<VideoFormat>,
}

/// A copy of a list of formats.
pub fn copy_formats(v: &Vec<VideoFormat>) -> (r: Vec<VideoFormat>)
    ensures
        r@ == v@,
{
    let mut out: Vec<VideoFormat> = Vec::new();
    let mut i: usize = 0;
    while i < v.len()
        invariant
            i <= v@.len(),
            out@ == v@.subrange(0, i as int),
        decreases v.len() - i,
    {
        out.push(v[i].copy());
        assert(out@ =~= v@.subrange(0, i + 1));
        i = i + 1;
    }
    assert(out@ =~= v@);
    out
}

impl QualityOption {
    /// A copy of this resolution.
    pub fn copy(&self) -> (r: QualityOption)
        ensures
            r.height == self.height,
            r.label == self.label,
            r.format_id == self.format_id,
            r.format_has_audio == self.format_has_audio,
            r.video_formats@ == self.video_formats@,
    {
        QualityOption {
            height: self.height,
            label: self.label.clone(),
            format_id: self.format_id.clone(),
            format_has_audio: self.format_has_audio,
            video_formats: copy_formats(&self.video_formats),
        }
    }
}

/// The two resolutions are the same.
pub open spec fn same_quality(a: QualityOption, b: QualityOption) -> bool {
    a.height == b.height && a.label == b.label && a.format_id == b.format_id
        && a.format_has_audio == b.format_has_audio && a.video_formats@ == b.video_formats@
}

/// The two lists of resolutions are the same.
pub open spec fn same_qualities(a: Seq<QualityOption>, b: Seq<QualityOption>) -> bool {
    a.len() == b.len() && forall|i: int| 0 <= i < a.len() ==> same_quality(#[trigger] a[i], b[i])
}

/// A copy of a list of resolutions.
pub fn copy_qualities(v: &Vec<QualityOption>) -> (r: Vec<QualityOption>)
    ensures
        same_qualities(r@, v@),
{
    let mut out: Vec<QualityOption> = Vec::new();
    let mut i: usize = 0;
    while i < v.len()
        invariant
            i <= v@.len(),
            out@.len() == i,
            forall|k: int| 0 <= k < i ==> same_quality(#[trigger] out@[k], v@[k]),
        decreases v.len() - i,
    {
        out.push(v[i].copy());
        i = i + 1;
    }
    out
}

/// The two videos are the same, apart from the URL.
pub open spec fn same_video_but_url(a: AnalyzedVideo, b: AnalyzedVideo) -> bool {
    &&& a.id == b.id
    &&& a.title == b.title
    &&& a.channel == b.channel
    &&& a.duration_bits == b.duration_bits
    &&& a.thumbnail == b.thumbnail
    &&& a.access_strategy == b.access_strategy
    &&& a.browser_session == b.browser_session
    &&& a.use_pot_provider == b.use_pot_provider
    &&& same_qualities(a.qualities@, b.qualities@)
    &&& a.formats@ == b.formats@
}

impl AnalyzedVideo {
    /// A copy of this video under another URL.
    pub fn copy_with_url(&self, url: String) -> (r: AnalyzedVideo)
        ensures
            same_video_but_url(r, *self),
            r.url == url,
    {
        AnalyzedVideo {
            id: self.id.clone(),
            url,
            title: self.title.clone(),
            channel: copy_string(&self.channel),
            duration_bits: self.duration_bits,
            thumbnail: copy_string(&self.thumbnail),
            access_strategy: self.access_strategy,
            browser_session: copy_string(&self.browser_session),
            use_pot_provider: self.use_pot_provider,
            qualities: copy_qualities(&self.qualities),
            formats: copy_formats(&self.formats),
        }
    }
}

/// The video that metadata describes, as public access found it.
pub open spec fn video_from_metadata(v: AnalyzedVideo, url: String, meta: VideoMetadata) -> bool {
    &&& meta.id == Some(v.id)
    &&& v.url == url
    &&& v.title@ == (match meta.title {
        Some(t) => t@,
        None => "Video sin título"@,
    })
    &&& v.channel == (match meta.channel {
        Some(c) => Some(c),
        None => meta.uploader,
    })
    &&& v.duration_bits == meta.duration_bits
    &&& opt_text(v.thumbnail) == safe_http_url_spec(opt_text(meta.thumbnail))
    &&& v.access_strategy == YoutubeAccessStrategy::Public
    &&& v.browser_session is None
    &&& !v.use_pot_provider
    &&& listed_formats(v.formats@, meta.formats@)
    &&& qualities_for(v.qualities@, v.formats@)
}

/// Builds the analysed video from yt-dlp's metadata: the usable formats,
/// their resolutions from the highest down, and the descriptive fields.
/// Metadata without an identifier is refused.
pub fn analyzed_video(url: String, meta: VideoMetadata) -> (r: Result<AnalyzedVideo, String>)
    ensures
        meta.id is None ==> (r matches Err(e) && e@ == "No se pudo determinar el ID del video."@),
        meta.id is Some ==> (r matches Ok(v) && video_from_metadata(v, url, meta)),
{
    let formats = downloadable_formats(&meta.formats);
    let qualities = qualities_of(&formats);
    let id = match &meta.id {
        Some(id) => id.clone(),
        None => {
            return Err(owned("No se pudo determinar el ID del video."));
        },
    };
    let title = match &meta.title {
        Some(t) => t.clone(),
        None => owned("Video sin título"),
    };
    let channel = match &meta.channel {
        Some(c) => Some(c.clone()),
        None => copy_string(&meta.uploader),
    };
    let thumbnail = safe_http_url(copy_string(&meta.thumbnail));
    Ok(AnalyzedVideo {
        id,
        url,
        title,
        channel,
        duration_bits: meta.duration_bits,
        thumbnail,
        access_strategy: YoutubeAccessStrategy::Public,
        browser_session: None,
        use_pot_provider: false,
        qualities,
        formats,
    })
}

/// Records on a video the strategy that reached it, with the legacy fields
/// that older front ends read.
pub fn apply_strategy(video: &mut AnalyzedVideo, strategy: YoutubeAccessStrategy)
    ensures
        final(video).access_strategy == strategy,
        final(video).use_pot_provider == strategy_uses_pot(strategy),
        opt_text(final(video).browser_session) == (match strategy_browser(strategy) {
            Some(b) => Some(browser_id(b)),
            None => None,
        }),
        final(video).id == old(video).id,
        final(video).url == old(video).url,
        final(video).title == old(video).title,
        final(video).channel == old(video).channel,
        final(video).duration_bits == old(video).duration_bits,
        final(video).thumbnail == old(video).thumbnail,
        final(video).qualities == old(video).qualities,
        final(video).formats == old(video).formats,
{
    let (browser_session, use_pot_provider) = strategy.legacy_fields();
    video.access_strategy = strategy;
    video.browser_session = browser_session;
    video.use_pot_provider = use_pot_provider;
}


/// The source chosen for a download after a fresh analysis.
pub struct ResolvedDownloadSource {
    pub strategy: YoutubeAccessStrategy,
    pub format_id: Option<String>,
    pub format_has_audio: Option<bool>,
}

/// `i` is the position of the first resolution of height `h`.
pub open spec fn first_quality(qs: Seq<QualityOption>, h: u32, i: int) -> bool {
    &&& 0 <= i < qs.len()
    &&& qs[i].height == h
    &&& forall|j: int| 0 <= j < i ==> (#[trigger] qs[j]).height != h
}

/// The formats of a resolution other than the excluded one.
pub open spec fn candidates(q: QualityOption, excluded: Option<Seq<char>>) -> Seq<VideoFormat> {
    q.video_formats@.filter(|f: VideoFormat| excluded != Some(f.id@))
}

/// The message when the exact height is no longer offered.
pub open spec fn height_gone_text(h: u32) -> Seq<char> {
    "La fuente ya no ofrece la calidad exacta de "@ + decimal(h as nat)
        + "p; no se descargó una resolución inferior."@
}

/// The message when no other source of the height is left.
pub open spec fn no_source_text(h: u32) -> Seq<char> {
    "No queda otra fuente utilizable para "@ + decimal(h as nat)
        + "p; no se descargó una resolución inferior. Elegí otra resolución y volvé a intentarlo."@
}

/// `r` names the best candidate of `q` (or nothing when there is none).
pub open spec fn names_best(r: ResolvedDownloadSource, q: QualityOption, excluded: Option<Seq<char>>) -> bool {
    let c = candidates(q, excluded);
    if c.len() == 0 {
        r.format_id is None && r.format_has_audio is None
    } else {
        r.format_id == Some(c[best_index(c)].id) && r.format_has_audio == Some(c[best_index(c)].has_audio)
    }
}

fn text_with_height(before: &str, h: u32, after: &str) -> (r: String)
    ensures
        r@ == before@ + decimal(h as nat) + after@,
{
    let mut v = chars_of(before);
    push_decimal(&mut v, h as u64);
    push_str(&mut v, after);
    string_from_chars(&v)
}

/// The formats of a resolution other than the excluded one.
fn candidates_of(q: &QualityOption, excluded: Option<&str>) -> (r: Vec<VideoFormat>)
    ensures
        r@ == candidates(*q, match excluded {
            Some(e) => Some(e@),
            None => None,
        }),
{
    let ghost ex = match excluded {
        Some(e) => Some(e@),
        None => None,
    };
    let skip: Option<Vec<char>> = match excluded {
        Some(e) => Some(chars_of(e)),
        None => None,
    };
    let fs = &q.video_formats;
    let mut out: Vec<VideoFormat> = Vec::new();
    let mut i: usize = 0;
    while i < fs.len()
        invariant
            i <= fs@.len(),
            fs@ == q.video_formats@,
            match skip {
                Some(v) => ex == Some(v@),
                None => ex is None,
            },
            out@ == fs@.subrange(0, i as int).filter(|f: VideoFormat| ex != Some(f.id@)),
        decreases fs.len() - i,
    {
        proof {
            reveal_with_fuel(Seq::filter, 1);
            assert(fs@.subrange(0, i + 1).drop_last() == fs@.subrange(0, i as int));
        }
        let keep = match &skip {
            Some(v) => {
                let id = chars_of(fs[i].id.as_str());
                !crate::text::same_chars(&id, v)
            },
            None => true,
        };
        if keep {
            out.push(fs[i].copy());
        }
        i = i + 1;
    }
    assert(fs@.subrange(0, fs@.len() as int) == fs@);
    out
}

/// The position of the first resolution of height `h`.
fn find_quality(qs: &Vec<QualityOption>, h: u32) -> (r: Option<usize>)
    ensures
        r matches Some(i) ==> first_quality(qs@, h, i as int),
        r is None ==> forall|j: int| 0 <= j < qs@.len() ==> (#[trigger] qs@[j]).height != h,
{
    let mut i: usize = 0;
    while i < qs.len()
        invariant
            i <= qs@.len(),
            forall|j: int| 0 <= j < i ==> (#[trigger] qs@[j]).height != h,
        decreases qs.len() - i,
    {
        if qs[i].height == h {
            return Some(i);
        }
        i = i + 1;
    }
    None
}

/// Picks the source for a download from a fresh analysis. A required height
/// is kept exactly: when that height or any other source of it is gone the
/// download is refused, never moved to a lower resolution. Without a required
/// height the highest resolution is used.
pub fn choose_download_source(
    video: &AnalyzedVideo,
    required_height: Option<u32>,
    excluded_format_id: Option<&str>,
) -> (r: Result<ResolvedDownloadSource, String>)
    ensures
        ({
            let qs = video.qualities@;
            let ex = match excluded_format_id {
                Some(e) => Some(e@),
                None => None,
            };
            match required_height {
                Some(h) => {
                    &&& (forall|j: int| 0 <= j < qs.len() ==> (#[trigger] qs[j]).height != h) ==> (r matches Err(e) && e@ == height_gone_text(h))
                    &&& forall|i: int| first_quality(qs, h, i) ==> if candidates(qs[i], ex).len() == 0 {
                        r matches Err(e) && e@ == no_source_text(h)
                    } else {
                        r matches Ok(src) && src.strategy == video.access_strategy && names_best(src, qs[i], ex)
                    }
                },
                None => if qs.len() == 0 {
                    r matches Ok(src) && src.strategy == video.access_strategy && src.format_id is None && src.format_has_audio is None
                } else {
                    r matches Ok(src) && src.strategy == video.access_strategy && names_best(src, qs[0], ex)
                },
            }
        }),
{
    let qs = &video.qualities;
    let position: Option<usize> = match required_height {
        Some(h) => {
            let found = find_quality(qs, h);
            match found {
                Some(i) => {
                    assert(first_quality(qs@, h, i as int));
                    Some(i)
                },
                None => {
                    return Err(text_with_height(
                        "La fuente ya no ofrece la calidad exacta de ",
                        h,
                        "p; no se descargó una resolución inferior.",
                    ));
                },
            }
        },
        None => if qs.len() == 0 {
            None
        } else {
            Some(0)
        },
    };
    let chosen: Option<usize> = match position {
        None => {
            return Ok(ResolvedDownloadSource {
                strategy: video.access_strategy,
                format_id: None,
                format_has_audio: None,
            });
        },
        Some(i) => Some(i),
    };
    let i = chosen.unwrap();
    let c = candidates_of(&qs[i], excluded_format_id);
    if c.len() == 0 {
        match required_height {
            Some(h) => {
                return Err(text_with_height(
                    "No queda otra fuente utilizable para ",
                    h,
                    "p; no se descargó una resolución inferior. Elegí otra resolución y volvé a intentarlo.",
                ));
            },
            None => {
                return Ok(ResolvedDownloadSource {
                    strategy: video.access_strategy,
                    format_id: None,
                    format_has_audio: None,
                });
            },
        }
    }
    let b = best_format(&c);
    Ok(ResolvedDownloadSource {
        strategy: video.access_strategy,
        format_id: Some(c[b].id.clone()),
        format_has_audio: Some(c[b].has_audio),
    })
}


/// A download that asks for a height gets exactly that height: for a video
/// built from metadata, the source chosen for a required height is one of the
/// video's own formats, and it has that height.
pub proof fn lemma_required_height_is_kept(
    video: AnalyzedVideo,
    h: u32,
    i: int,
    excluded: Option<Seq<char>>,
    r: ResolvedDownloadSource,
)
    requires
        qualities_for(video.qualities@, video.formats@),
        first_quality(video.qualities@, h, i),
        candidates(video.qualities@[i], excluded).len() > 0,
        names_best(r, video.qualities@[i], excluded),
    ensures
        exists|f: VideoFormat| #[trigger] video.formats@.contains(f) && f.height == Some(h) && r.format_id == Some(f.id),
{
    let qs = video.qualities@;
    let fs = video.formats@;
    let hs = choose|hs: Seq<u32>| {
        &&& heights_descending(hs, fs)
        &&& qs.len() == hs.len()
        &&& forall|k: int| 0 <= k < qs.len() ==> quality_for(#[trigger] qs[k], fs, hs[k])
    };
    assert(quality_for(qs[i], fs, hs[i]));
    let group = of_height(fs, h);
    assert(qs[i].video_formats@ == group);
    let c = candidates(qs[i], excluded);
    lemma_best_index_in_range(c);
    let b = best_index(c);
    let f = c[b];
    let p = |g: VideoFormat| excluded != Some(g.id@);
    assert(c.contains(f));
    group.lemma_filter_contains_rev(p, f);
    assert(group.contains(f));
    let k = choose|k: int| 0 <= k < group.len() && group[k] == f;
    fs.lemma_filter_pred(|g: VideoFormat| g.height == Some(h), k);
    fs.lemma_filter_contains_rev(|g: VideoFormat| g.height == Some(h), f);
    assert(fs.contains(f) && f.height == Some(h) && r.format_id == Some(f.id));
}

} // verus!
