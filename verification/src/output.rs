use vstd::prelude::*;

use crate::commands::{file_prefix, processing_prefix, progress_prefix};
use crate::download::{DownloadJob, DownloadVerification};
use crate::history::HistoryEntry;
use crate::text::{
    chars_of, decimal, ends_with_text, owned, parse_trimmed_u64, parse_u64_text, push_decimal,
    starts_with_chars, starts_with_text, string_from_chars, trim_chars, trim_text,
};

verus! {

/// `str::split('\t')`: the pieces between tabs, in order (one empty piece
/// for an empty text).
pub open spec fn split_tabs(s: Seq<char>) -> Seq<Seq<char>>
    decreases s.len(),
{
    if s.len() == 0 {
        seq![Seq::empty()]
    } else {
        let init = split_tabs(s.drop_last());
        if s.last() == '\t' {
            init.push(Seq::empty())
        } else {
            init.update(init.len() - 1, init.last().push(s.last()))
        }
    }
}

proof fn lemma_split_nonempty(s: Seq<char>)
    ensures
        split_tabs(s).len() >= 1,
    decreases s.len(),
{
    if s.len() > 0 {
        lemma_split_nonempty(s.drop_last());
    }
}

/// The texts of a list of pieces.
pub open spec fn piece_texts(v: Seq<Vec<char>>) -> Seq<Seq<char>> {
    v.map_values(|p: Vec<char>| p@)
}

/// Splits a text at its tabs.
pub fn split_at_tabs(s: &Vec<char>) -> (r: Vec<Vec<char>>)
    ensures
        piece_texts(r@) == split_tabs(s@),
{
    let mut pieces: Vec<Vec<char>> = Vec::new();
    pieces.push(Vec::new());
    assert(piece_texts(pieces@) =~= split_tabs(s@.subrange(0, 0)));
    let mut i: usize = 0;
    while i < s.len()
        invariant
            i <= s@.len(),
            pieces@.len() >= 1,
            piece_texts(pieces@) == split_tabs(s@.subrange(0, i as int)),
        decreases s.len() - i,
    {
        let c = s[i];
        let ghost before = piece_texts(pieces@);
        proof {
            let sub = s@.subrange(0, i + 1);
            assert(sub.drop_last() == s@.subrange(0, i as int));
            assert(sub.last() == c);
        }
        if c == '\t' {
            pieces.push(Vec::new());
            assert(piece_texts(pieces@) =~= before.push(Seq::empty()));
        } else {
            let mut last = pieces.pop().unwrap();
            last.push(c);
            pieces.push(last);
            assert(piece_texts(pieces@) =~= before.update(before.len() - 1, before.last().push(c)));
        }
        i = i + 1;
    }
    assert(s@.subrange(0, s@.len() as int) == s@);
    pieces
}

/// `text` without any trailing `%` signs (`trim_end_matches('%')`).
pub open spec fn strip_percent(s: Seq<char>) -> Seq<char>
    decreases s.len(),
{
    if s.len() > 0 && s.last() == '%' {
        strip_percent(s.drop_last())
    } else {
        s
    }
}

fn strip_percent_chars(s: &Vec<char>) -> (r: Vec<char>)
    ensures
        r@ == strip_percent(s@),
{
    let mut end: usize = s.len();
    assert(s@.subrange(0, end as int) == s@);
    while end > 0 && s[end - 1] == '%'
        invariant
            end <= s@.len(),
            strip_percent(s@) == strip_percent(s@.subrange(0, end as int)),
        decreases end,
    {
        assert(s@.subrange(0, end as int).drop_last() == s@.subrange(0, end - 1));
        end = end - 1;
    }
    let mut r: Vec<char> = Vec::new();
    let mut k: usize = 0;
    while k < end
        invariant
            k <= end <= s@.len(),
            r@ == s@.subrange(0, k as int),
        decreases end - k,
    {
        r.push(s[k]);
        assert(r@ =~= s@.subrange(0, k + 1));
        k = k + 1;
    }
    r
}

/// A structured progress line, read into its fields. The completed
/// fraction, the rate and the time left are left as the (trimmed) decimal
/// texts yt-dlp printed; the byte counts are read here.
pub struct ProgressFields {
    pub percent_text: String,
    pub downloaded_bytes: u64,
    pub total_bytes: Option<u64>,
    pub speed_text: String,
    pub eta_text: String,
}

/// A byte count as yt-dlp prints it: the trimmed text read as an unsigned
/// integer, when there is a text.
pub open spec fn bytes_of(value: Option<Seq<char>>) -> Option<u64> {
    match value {
        Some(v) => parse_u64_text(trim_text(v)),
        None => None,
    }
}

/// The byte count in an optional field.
pub fn parse_bytes(value: Option<&str>) -> (r: Option<u64>)
    ensures
        r == bytes_of(match value {
            Some(v) => Some(v@),
            None => None,
        }),
{
    match value {
        Some(v) => {
            let c = chars_of(v);
            parse_trimmed_u64(&c)
        },
        None => None,
    }
}

/// What a structured progress line holds, given the text after the marker:
/// at least seven tab-separated fields (status, percentage, downloaded,
/// total, estimated total, speed, time left).
pub open spec fn progress_fields_of(payload: Seq<char>, f: ProgressFields) -> bool {
    let fields = split_tabs(payload);
    &&& fields.len() >= 7
    &&& f.percent_text@ == trim_text(strip_percent(trim_text(fields[1])))
    &&& f.downloaded_bytes == (match parse_u64_text(trim_text(fields[2])) {
        Some(n) => n,
        None => 0,
    })
    &&& f.total_bytes == (match parse_u64_text(trim_text(fields[3])) {
        Some(n) => Some(n),
        None => parse_u64_text(trim_text(fields[4])),
    })
    &&& f.speed_text@ == trim_text(fields[5])
    &&& f.eta_text@ == trim_text(fields[6])
}

/// The fields of a progress line, when it is one: the progress marker, then
/// at least seven tab-separated fields.
pub fn parse_progress_fields(line: &str) -> (r: Option<ProgressFields>)
    ensures
        match r {
            Some(f) => starts_with_text(line@, progress_prefix())
                && progress_fields_of(line@.subrange(progress_prefix().len() as int, line@.len() as int), f),
            None => !starts_with_text(line@, progress_prefix())
                || split_tabs(line@.subrange(progress_prefix().len() as int, line@.len() as int)).len() < 7,
        },
{
    let text = chars_of(line);
    let prefix = chars_of("__YTDM_PROGRESS__");
    if !starts_with_chars(&text, &prefix) {
        return None;
    }
    let mut payload: Vec<char> = Vec::new();
    let mut k: usize = prefix.len();
    while k < text.len()
        invariant
            prefix.len() <= k <= text@.len(),
            payload@ == text@.subrange(prefix@.len() as int, k as int),
        decreases text.len() - k,
    {
        payload.push(text[k]);
        assert(payload@ =~= text@.subrange(prefix@.len() as int, k + 1));
        k = k + 1;
    }
    let fields = split_at_tabs(&payload);
    if fields.len() < 7 {
        return None;
    }
    proof {
        assert(piece_texts(fields@)[1] == fields@[1]@);
        assert(piece_texts(fields@)[2] == fields@[2]@);
        assert(piece_texts(fields@)[3] == fields@[3]@);
        assert(piece_texts(fields@)[4] == fields@[4]@);
        assert(piece_texts(fields@)[5] == fields@[5]@);
        assert(piece_texts(fields@)[6] == fields@[6]@);
    }
    let p1 = trim_chars(&fields[1]);
    let p2 = strip_percent_chars(&p1);
    let percent = trim_chars(&p2);
    let downloaded = match parse_trimmed_u64(&fields[2]) {
        Some(n) => n,
        None => 0,
    };
    let total = match parse_trimmed_u64(&fields[3]) {
        Some(n) => Some(n),
        None => parse_trimmed_u64(&fields[4]),
    };
    let speed = trim_chars(&fields[5]);
    let eta = trim_chars(&fields[6]);
    Some(ProgressFields {
        percent_text: string_from_chars(&percent),
        downloaded_bytes: downloaded,
        total_bytes: total,
        speed_text: string_from_chars(&speed),
        eta_text: string_from_chars(&eta),
    })
}

/// What `serde_json` decodes a JSON string literal to (`None` for text that
/// is not one).
pub uninterp spec fn json_string(text: Seq<char>) -> Option<Seq<char>>;

/// Decodes a JSON string literal with `serde_json::from_str::<String>`. The
/// contract names the result as a function of the text; the JSON grammar is
/// left to `serde_json`.
#[verifier::external_body]
fn decode_json_string(text: &Vec<char>) -> (r: Option<String>)
    ensures
        match r {
            Some(s) => json_string(text@) == Some(s@),
            None => json_string(text@) is None,
        },
{
    let raw: String = text.iter().collect();
    serde_json::from_str::<String>(&raw).ok()
}

/// A line of yt-dlp's output, as the downloader reads it.
pub enum OutputLine {
    /// A structured progress report.
    Progress(ProgressFields),
    /// Post-processing (the merge of video and audio) has started.
    Processing,
    /// The final path of the downloaded file.
    FinalPath(String),
    /// Anything else (kept for diagnostics where it is not a marker line).
    Other,
}

/// How a line of yt-dlp's output is read.
pub fn classify_output_line(line: &str) -> (r: OutputLine)
    ensures
        ({
            let t = line@;
            match r {
                OutputLine::Progress(f) => starts_with_text(t, progress_prefix())
                    && progress_fields_of(t.subrange(progress_prefix().len() as int, t.len() as int), f),
                OutputLine::Processing => !(starts_with_text(t, progress_prefix())
                    && split_tabs(t.subrange(progress_prefix().len() as int, t.len() as int)).len() >= 7)
                    && starts_with_text(t, processing_prefix()),
                OutputLine::FinalPath(p) => !(starts_with_text(t, progress_prefix())
                    && split_tabs(t.subrange(progress_prefix().len() as int, t.len() as int)).len() >= 7)
                    && !starts_with_text(t, processing_prefix()) && starts_with_text(t, file_prefix())
                    && json_string(trim_text(t.subrange(file_prefix().len() as int, t.len() as int))) == Some(p@),
                OutputLine::Other => !(starts_with_text(t, progress_prefix())
                    && split_tabs(t.subrange(progress_prefix().len() as int, t.len() as int)).len() >= 7)
                    && !starts_with_text(t, processing_prefix())
                    && !(starts_with_text(t, file_prefix())
                        && json_string(trim_text(t.subrange(file_prefix().len() as int, t.len() as int))) is Some),
            }
        }),
{
    match parse_progress_fields(line) {
        Some(f) => {
            return OutputLine::Progress(f);
        },
        None => {},
    }
    let text = chars_of(line);
    let processing = chars_of("__YTDM_POSTPROCESS__");
    if starts_with_chars(&text, &processing) {
        return OutputLine::Processing;
    }
    let file = chars_of("__YTDM_FILE__");
    if !starts_with_chars(&text, &file) {
        return OutputLine::Other;
    }
    let mut rest: Vec<char> = Vec::new();
    let mut k: usize = file.len();
    while k < text.len()
        invariant
            file.len() <= k <= text@.len(),
            rest@ == text@.subrange(file@.len() as int, k as int),
        decreases text.len() - k,
    {
        rest.push(text[k]);
        assert(rest@ =~= text@.subrange(file@.len() as int, k + 1));
        k = k + 1;
    }
    let trimmed = trim_chars(&rest);
    match decode_json_string(&trimmed) {
        Some(path) => OutputLine::FinalPath(path),
        None => OutputLine::Other,
    }
}

/// A line that goes to the diagnostics of a failed download: one that
/// starts with none of the three markers.
pub open spec fn diagnostic_line_spec(line: Seq<char>) -> bool {
    !starts_with_text(line, progress_prefix()) && !starts_with_text(line, processing_prefix())
        && !starts_with_text(line, file_prefix())
}

/// Whether an output line is kept for the diagnostics of a failed download.
pub fn is_diagnostic_line(line: &str) -> (r: bool)
    ensures
        r == diagnostic_line_spec(line@),
{
    let text = chars_of(line);
    let a = chars_of("__YTDM_PROGRESS__");
    let b = chars_of("__YTDM_POSTPROCESS__");
    let c = chars_of("__YTDM_FILE__");
    !starts_with_chars(&text, &a) && !starts_with_chars(&text, &b) && !starts_with_chars(&text, &c)
}

/// The error of a download whose process failed: its trimmed diagnostics,
/// or a generic message when there are none.
pub open spec fn failure_text(diagnostics: Seq<char>) -> Seq<char> {
    if trim_text(diagnostics).len() > 0 {
        trim_text(diagnostics)
    } else {
        "yt-dlp no pudo completar la descarga."@
    }
}

/// The error reported for a failed download process.
pub fn download_failure_message(diagnostics: &str) -> (r: String)
    ensures
        r@ == failure_text(diagnostics@),
{
    let c = chars_of(diagnostics);
    let t = trim_chars(&c);
    if t.len() > 0 {
        string_from_chars(&t)
    } else {
        owned("yt-dlp no pudo completar la descarga.")
    }
}

/// One stream as `ffprobe` reports it.
pub struct ProbeStream {
    pub codec_type: Option<String>,
    pub codec_name: Option<String>,
    pub width: Option<u64>,
    pub height: Option<u64>,
}

/// The stream is of the given type.
pub open spec fn of_type(s: ProbeStream, t: Seq<char>) -> bool {
    s.codec_type matches Some(c) && c@ == t
}

/// The first stream of a type.
pub open spec fn first_of_type(streams: Seq<ProbeStream>, t: Seq<char>) -> Option<ProbeStream>
    decreases streams.len(),
{
    if streams.len() == 0 {
        None
    } else if of_type(streams[0], t) {
        Some(streams[0])
    } else {
        first_of_type(streams.drop_first(), t)
    }
}

fn first_stream(streams: &Vec<ProbeStream>, t: &str) -> (r: Option<usize>)
    ensures
        r matches Some(i) ==> i < streams@.len() && first_of_type(streams@, t@) == Some(streams@[i as int]),
        r is None ==> first_of_type(streams@, t@) is None,
{
    let wanted = chars_of(t);
    assert(streams@.subrange(0, streams@.len() as int) == streams@);
    let mut i: usize = 0;
    while i < streams.len()
        invariant
            i <= streams@.len(),
            wanted@ == t@,
            first_of_type(streams@, t@) == first_of_type(streams@.subrange(i as int, streams@.len() as int), t@),
        decreases streams.len() - i,
    {
        let ghost rest = streams@.subrange(i as int, streams@.len() as int);
        assert(rest[0] == streams@[i as int]);
        let matches_type = match &streams[i].codec_type {
            Some(c) => {
                let cc = chars_of(c.as_str());
                crate::text::same_chars(&cc, &wanted)
            },
            None => false,
        };
        if matches_type {
            return Some(i);
        }
        assert(rest.drop_first() == streams@.subrange(i + 1, streams@.len() as int));
        i = i + 1;
    }
    None
}

/// What the check of a final file found: the first video stream's frame size
/// (narrowed to 32 bits) and codec, the first audio stream's codec, and the
/// container's duration.
pub open spec fn verification_of(v: DownloadVerification, streams: Seq<ProbeStream>, duration_bits: Option<u64>) -> bool {
    let video = first_of_type(streams, "video"@);
    let audio = first_of_type(streams, "audio"@);
    &&& v.width == (match video {
        Some(s) => match s.width {
            Some(w) => Some(w as u32),
            None => None,
        },
        None => None,
    })
    &&& v.height == (match video {
        Some(s) => match s.height {
            Some(h) => Some(h as u32),
            None => None,
        },
        None => None,
    })
    &&& v.duration_bits == duration_bits
    &&& v.video_codec == (match video {
        Some(s) => s.codec_name,
        None => None,
    })
    &&& v.audio_codec == (match audio {
        Some(s) => s.codec_name,
        None => None,
    })
}

/// Summarises `ffprobe`'s report of a final file.
pub fn verification_from_streams(streams: &Vec<ProbeStream>, duration_bits: Option<u64>) -> (r: DownloadVerification)
    ensures
        verification_of(r, streams@, duration_bits),
{
    let video = first_stream(streams, "video");
    let audio = first_stream(streams, "audio");
    let (width, height, video_codec) = match video {
        Some(i) => (
            match streams[i].width {
                Some(w) => Some(w as u32),
                None => None,
            },
            match streams[i].height {
                Some(h) => Some(h as u32),
                None => None,
            },
            crate::download::copy_string(&streams[i].codec_name),
        ),
        None => (None, None, None),
    };
    let audio_codec = match audio {
        Some(i) => crate::download::copy_string(&streams[i].codec_name),
        None => None,
    };
    DownloadVerification { width, height, duration_bits, video_codec, audio_codec }
}

/// Why a verified file is refused: it lacks a video or an audio stream, or
/// its height is not the one asked for.
pub open spec fn verification_problem(v: DownloadVerification, requested_height: Option<u32>) -> Option<Seq<char>> {
    if v.video_codec is None || v.audio_codec is None {
        Some("El archivo final no contiene video y audio válidos."@)
    } else {
        match requested_height {
            Some(h) => if v.height != Some(h) {
                Some("La verificación final informó "@ + decimal((match v.height {
                    Some(x) => x,
                    None => 0,
                }) as nat) + "p, no la calidad solicitada de "@ + decimal(h as nat) + "p."@)
            } else {
                None
            },
            None => None,
        }
    }
}

/// Accepts a downloaded file only with both video and audio, and only at the
/// height that was asked for.
pub fn check_verification(v: &DownloadVerification, requested_height: Option<u32>) -> (r: Result<(), String>)
    ensures
        match r {
            Ok(()) => verification_problem(*v, requested_height) is None,
            Err(e) => verification_problem(*v, requested_height) == Some(e@),
        },
{
    if v.video_codec.is_none() || v.audio_codec.is_none() {
        return Err(owned("El archivo final no contiene video y audio válidos."));
    }
    match requested_height {
        Some(h) => {
            if v.height != Some(h) {
                let found: u32 = match v.height {
                    Some(x) => x,
                    None => 0,
                };
                let mut t = chars_of("La verificación final informó ");
                push_decimal(&mut t, found as u64);
                let mut mid = chars_of("p, no la calidad solicitada de ");
                t.append(&mut mid);
                push_decimal(&mut t, h as u64);
                let mut tail = chars_of("p.");
                t.append(&mut tail);
                return Err(string_from_chars(&t));
            }
            Ok(())
        },
        None => Ok(()),
    }
}

/// The resolution recorded in the history for a request.
pub open spec fn resolution_text(quality_height: Option<u32>) -> Seq<char> {
    match quality_height {
        Some(h) => decimal(h as nat) + "p"@,
        None => "Mejor calidad"@,
    }
}

/// The history entry of a completed job.
pub fn history_entry(job: &DownloadJob, file_path: String, downloaded_at: i64) -> (r: HistoryEntry)
    ensures
        r.id == job.job_id,
        r.video_id == job.request.video_id,
        r.url == job.request.url,
        r.title == job.request.title,
        r.thumbnail == job.request.thumbnail,
        r.channel == job.request.channel,
        r.resolution@ == resolution_text(job.request.quality_height),
        r.container == job.request.container,
        r.file_path == file_path,
        r.downloaded_at == downloaded_at,
{
    let resolution = match job.request.quality_height {
        Some(h) => {
            let mut v: Vec<char> = Vec::new();
            push_decimal(&mut v, h as u64);
            let mut p = chars_of("p");
            v.append(&mut p);
            string_from_chars(&v)
        },
        None => owned("Mejor calidad"),
    };
    HistoryEntry {
        id: job.job_id.clone(),
        video_id: job.request.video_id.clone(),
        url: job.request.url.clone(),
        title: job.request.title.clone(),
        thumbnail: crate::download::copy_string(&job.request.thumbnail),
        channel: crate::download::copy_string(&job.request.channel),
        resolution,
        container: job.request.container.clone(),
        file_path,
        downloaded_at,
    }
}

/// The message of a completed job whose history entry could not be saved.
pub fn history_not_saved_message(error: &str) -> (r: String)
    ensures
        r@ == "Completado; historial no guardado: "@ + error@,
{
    let mut s = owned("Completado; historial no guardado: ");
    s.append(error);
    s
}

/// A job identifier made from a time stamp in nanoseconds.
pub fn job_id(nanos: u64) -> (r: String)
    ensures
        r@ == "job-"@ + decimal(nanos as nat),
{
    let mut v = chars_of("job-");
    push_decimal(&mut v, nanos);
    string_from_chars(&v)
}

/// The path, given by its components, lies inside the directory, given by
/// its components: the directory's components begin the path's
/// (`Path::starts_with` on canonical paths).
pub open spec fn within(path: Seq<Seq<char>>, directory: Seq<Seq<char>>) -> bool {
    directory.len() <= path.len() && forall|i: int| 0 <= i < directory.len() ==> path[i] == directory[i]
}

/// Whether a downloaded file, by the components of its canonical path, lies
/// inside the job's destination directory.
pub fn contained_in(path: &Vec<String>, directory: &Vec<String>) -> (r: bool)
    ensures
        r == within(path@.map_values(|s: String| s@), directory@.map_values(|s: String| s@)),
{
    let ghost p = path@.map_values(|s: String| s@);
    let ghost d = directory@.map_values(|s: String| s@);
    if directory.len() > path.len() {
        return false;
    }
    let mut i: usize = 0;
    while i < directory.len()
        invariant
            i <= directory@.len() <= path@.len(),
            p == path@.map_values(|s: String| s@),
            d == directory@.map_values(|s: String| s@),
            forall|j: int| 0 <= j < i ==> p[j] == d[j],
        decreases directory.len() - i,
    {
        let a = chars_of(path[i].as_str());
        let b = chars_of(directory[i].as_str());
        if !crate::text::same_chars(&a, &b) {
            assert(p[i as int] != d[i as int]);
            return false;
        }
        i = i + 1;
    }
    true
}

} // verus!
