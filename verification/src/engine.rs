use vstd::prelude::*;
use vstd::utf8::{decode_utf8, valid_utf8};

use crate::access::YoutubeAccessStrategy;
use crate::text::{
    chars_of, contains_text, decimal, has_lit, owned, push_decimal, starts_with_chars,
    starts_with_text, string_from_chars, trim_chars, trim_text,
};

verus! {

/// `std::path::PathBuf`, carried through this library without being read.
#[verifier::external_type_specification]
#[verifier::external_body]
pub struct ExPathBuf(std::path::PathBuf);

/// Where the bundled engines were found, if they were.
pub struct EnginePaths {
    pub yt_dlp: Option<std::path::PathBuf>,
    pub ffmpeg: Option<std::path::PathBuf>,
    pub ffprobe: Option<std::path::PathBuf>,
    pub deno: Option<std::path::PathBuf>,
}

/// `parts` joined with `sep` between neighbours.
pub open spec fn join_text(parts: Seq<Seq<char>>, sep: Seq<char>) -> Seq<char>
    decreases parts.len(),
{
    if parts.len() == 0 {
        Seq::empty()
    } else if parts.len() == 1 {
        parts[0]
    } else {
        join_text(parts.drop_last(), sep) + sep + parts.last()
    }
}

/// The names of the engines that were not found, in a fixed order.
pub open spec fn missing_engines(
    yt_dlp: bool,
    ffmpeg: bool,
    ffprobe: bool,
    deno: bool,
) -> Seq<Seq<char>> {
    (if yt_dlp { seq!["yt-dlp"@] } else { Seq::empty() })
        + (if ffmpeg { seq!["ffmpeg"@] } else { Seq::empty() })
        + (if ffprobe { seq!["ffprobe"@] } else { Seq::empty() })
        + (if deno { seq!["deno"@] } else { Seq::empty() })
}

impl EnginePaths {
    /// Succeeds when every engine that YouTube work needs was found; else
    /// names the missing ones.
    pub fn required_for_youtube(&self) -> (r: Result<(), String>)
        ensures
            ({
                let missing = missing_engines(
                    self.yt_dlp is None,
                    self.ffmpeg is None,
                    self.ffprobe is None,
                    self.deno is None,
                );
                if missing.len() == 0 {
                    r is Ok
                } else {
                    r matches Err(e) && e@ == "Motor incompleto: falta "@ + join_text(missing, ", "@) + "."@
                }
            }),
    {
        let mut names: Vec<&str> = Vec::new();
        if self.yt_dlp.is_none() {
            names.push("yt-dlp");
        }
        let ghost n1 = names@.map_values(|s: &str| s@);
        if self.ffmpeg.is_none() {
            names.push("ffmpeg");
        }
        let ghost n2 = names@.map_values(|s: &str| s@);
        if self.ffprobe.is_none() {
            names.push("ffprobe");
        }
        let ghost n3 = names@.map_values(|s: &str| s@);
        if self.deno.is_none() {
            names.push("deno");
        }
        let ghost missing = missing_engines(
            self.yt_dlp is None,
            self.ffmpeg is None,
            self.ffprobe is None,
            self.deno is None,
        );
        assert(names@.map_values(|s: &str| s@) =~= missing);
        if names.len() == 0 {
            return Ok(());
        }
        let mut text = chars_of("Motor incompleto: falta ");
        let ghost prefix = text@;
        let mut i: usize = 0;
        while i < names.len()
            invariant
                i <= names@.len(),
                names@.map_values(|s: &str| s@) == missing,
                text@ == prefix + join_text(missing.subrange(0, i as int), ", "@),
            decreases names.len() - i,
        {
            let ghost before = text@;
            if i > 0 {
                let mut sep = chars_of(", ");
                text.append(&mut sep);
            }
            let mut part = chars_of(names[i]);
            text.append(&mut part);
            proof {
                let sub = missing.subrange(0, i + 1);
                assert(sub.drop_last() == missing.subrange(0, i as int));
                assert(sub.last() == names@[i as int]@);
                if i == 0 {
                    assert(sub.len() == 1);
                    assert(text@ =~= prefix + join_text(sub, ", "@));
                } else {
                    assert(text@ =~= prefix + join_text(sub, ", "@));
                }
            }
            i = i + 1;
        }
        let mut stop = chars_of(".");
        text.append(&mut stop);
        assert(missing.subrange(0, names@.len() as int) == missing);
        assert(text@ =~= "Motor incompleto: falta "@ + join_text(missing, ", "@) + "."@);
        Err(string_from_chars(&text))
    }
}

/// The local paths of the proof-of-origin token provider: one HTTP server on
/// the loopback interface, with every cache inside the application's data.
pub struct PotProviderPaths {
    pub plugin_directory: std::path::PathBuf,
    pub server_home: std::path::PathBuf,
    pub deno_directory: std::path::PathBuf,
    pub cache_home: std::path::PathBuf,
    pub port: u16,
    pub base_url: String,
}

/// The version of the bundled token provider.
pub open spec fn provider_version() -> Seq<char> {
    "1.3.1"@
}

/// The address of the provider on the loopback interface.
pub open spec fn provider_base_url_text(port: u16) -> Seq<char> {
    "http://127.0.0.1:"@ + decimal(port as nat)
}

/// The address of the provider listening on `port`.
pub fn provider_base_url(port: u16) -> (r: String)
    ensures
        r@ == provider_base_url_text(port),
{
    let mut v = chars_of("http://127.0.0.1:");
    push_decimal(&mut v, port as u64);
    string_from_chars(&v)
}

/// The health-check request sent to the provider.
pub open spec fn ping_request_text(port: u16) -> Seq<char> {
    "GET /ping HTTP/1.1\r\nHost: 127.0.0.1:"@ + decimal(port as nat) + "\r\nConnection: close\r\n\r\n"@
}

/// The health-check request for the provider on `port`.
pub fn ping_request(port: u16) -> (r: String)
    ensures
        r@ == ping_request_text(port),
{
    let mut v = chars_of("GET /ping HTTP/1.1\r\nHost: 127.0.0.1:");
    push_decimal(&mut v, port as u64);
    let mut tail = chars_of("\r\nConnection: close\r\n\r\n");
    v.append(&mut tail);
    string_from_chars(&v)
}

/// The provider answered the health check: a success status and the bundled
/// version in the body.
pub open spec fn healthy_response(response: Seq<char>) -> bool {
    starts_with_text(response, "HTTP/1.1 200"@) && contains_text(response, provider_version())
}

/// Whether the provider's answer to the health check shows it ready.
pub fn provider_response_ok(response: &str) -> (r: bool)
    ensures
        r == healthy_response(response@),
{
    let text = chars_of(response);
    let status = chars_of("HTTP/1.1 200");
    starts_with_chars(&text, &status) && has_lit(&text, "1.3.1")
}

/// The maximum size of the diagnostic log before it is rotated.
pub const DIAGNOSTIC_LOG_MAX_BYTES: u64 = 524_288;

/// Whether the diagnostic log is to be rotated before the next write.
pub fn needs_rotation(current_len: Option<u64>) -> (r: bool)
    ensures
        r == (current_len matches Some(n) && n >= DIAGNOSTIC_LOG_MAX_BYTES),
{
    match current_len {
        Some(n) => n >= DIAGNOSTIC_LOG_MAX_BYTES,
        None => false,
    }
}

/// A line break or tab becomes a space; anything else stays.
pub open spec fn flatten_char(c: char) -> char {
    if c == '\r' || c == '\n' || c == '\t' {
        ' '
    } else {
        c
    }
}

/// An event as written to the diagnostic log: on one line, at most 600
/// characters.
pub open spec fn sanitized_text(event: Seq<char>) -> Seq<char> {
    let cut = if event.len() > 600 { event.subrange(0, 600) } else { event };
    cut.map_values(|c: char| flatten_char(c))
}

/// An event made fit for the diagnostic log.
pub fn sanitize_event(event: &str) -> (r: String)
    ensures
        r@ == sanitized_text(event@),
{
    let chars = chars_of(event);
    let limit: usize = if chars.len() > 600 { 600 } else { chars.len() };
    let ghost cut = if event@.len() > 600 { event@.subrange(0, 600) } else { event@ };
    assert(cut == chars@.subrange(0, limit as int));
    let mut out: Vec<char> = Vec::new();
    let mut i: usize = 0;
    while i < limit
        invariant
            i <= limit <= chars@.len(),
            cut == chars@.subrange(0, limit as int),
            out@ == cut.subrange(0, i as int).map_values(|c: char| flatten_char(c)),
        decreases limit - i,
    {
        let c = chars[i];
        let flat = if c == '\r' || c == '\n' || c == '\t' { ' ' } else { c };
        out.push(flat);
        assert(cut.subrange(0, i + 1) == cut.subrange(0, i as int).push(c));
        assert(out@ =~= cut.subrange(0, i + 1).map_values(|c: char| flatten_char(c)));
        i = i + 1;
    }
    assert(cut.subrange(0, limit as int) == cut);
    string_from_chars(&out)
}

/// A line of the diagnostic log: the time stamp, a space, the event.
pub fn diagnostic_line(timestamp: u64, event: &str) -> (r: String)
    ensures
        r@ == decimal(timestamp as nat) + " "@ + sanitized_text(event@),
{
    let mut v: Vec<char> = Vec::new();
    push_decimal(&mut v, timestamp);
    let mut space = chars_of(" ");
    v.append(&mut space);
    let event_text = sanitize_event(event);
    let mut rest = chars_of(event_text.as_str());
    v.append(&mut rest);
    string_from_chars(&v)
}

/// The diagnostic event of one analysis attempt: strategy, duration,
/// outcome and engine version, never a URL or raw error text.
pub open spec fn analysis_event_text(strategy: YoutubeAccessStrategy, duration_ms: u64, outcome: Seq<char>, engine: Seq<char>) -> Seq<char> {
    "component=analysis strategy="@ + crate::access::strategy_diagnostic_name(strategy) + " duration_ms="@
        + decimal(duration_ms as nat) + " outcome="@ + outcome + " engine="@ + engine
}

/// The diagnostic event of one analysis attempt.
pub fn analysis_event(strategy: &YoutubeAccessStrategy, duration_ms: u64, outcome: &str, engine: &str) -> (r: String)
    ensures
        r@ == analysis_event_text(*strategy, duration_ms, outcome@, engine@),
{
    let mut v = chars_of("component=analysis strategy=");
    let name = strategy.diagnostic_name();
    let mut name_chars = chars_of(name.as_str());
    v.append(&mut name_chars);
    let mut t1 = chars_of(" duration_ms=");
    v.append(&mut t1);
    push_decimal(&mut v, duration_ms);
    let mut t2 = chars_of(" outcome=");
    v.append(&mut t2);
    let mut o = chars_of(outcome);
    v.append(&mut o);
    let mut t3 = chars_of(" engine=");
    v.append(&mut t3);
    let mut e = chars_of(engine);
    v.append(&mut e);
    assert(v@ =~= analysis_event_text(*strategy, duration_ms, outcome@, engine@));
    string_from_chars(&v)
}

/// The diagnostic event of a cooldown.
pub fn cooldown_event(reason: &str) -> (r: String)
    ensures
        r@ == "component=traffic action=cooldown reason="@ + reason@ + " duration_seconds=1800"@,
{
    let mut s = owned("component=traffic action=cooldown reason=");
    s.append(reason);
    s.append(" duration_seconds=1800");
    s
}

// ---------------------------------------------------------------------------
// Engine output
// ---------------------------------------------------------------------------

/// `String::from_utf8`: the text of the bytes when they are valid UTF-8.
#[verifier::external_body]
fn utf8_text(bytes: &Vec<u8>) -> (r: Option<String>)
    ensures
        r is Some <==> valid_utf8(bytes@),
        r matches Some(s) ==> s@ == decode_utf8(bytes@),
{
    String::from_utf8(bytes.clone()).ok()
}

/// What `String::from_utf8_lossy` makes of a byte string.
pub uninterp spec fn lossy_text(bytes: Seq<u8>) -> Seq<char>;

/// `String::from_utf8_lossy`: the bytes decoded as UTF-8, with each invalid
/// sequence replaced by U+FFFD. The contract names the result and states the
/// documented fact that valid UTF-8 is decoded unchanged; which sequences get
/// a replacement character is left to std.
#[verifier::external_body]
pub(crate) fn lossy_string(bytes: &Vec<u8>) -> (r: String)
    ensures
        r@ == lossy_text(bytes@),
        valid_utf8(bytes@) ==> r@ == decode_utf8(bytes@),
{
    String::from_utf8_lossy(bytes.as_slice()).into_owned()
}

/// The first line of a text (`str::lines().next()`): up to the first line
/// feed, without a carriage return before it; `None` for an empty text.
pub open spec fn first_line(s: Seq<char>) -> Option<Seq<char>> {
    if s.len() == 0 {
        None
    } else {
        let end = if exists|i: int| 0 <= i < s.len() && s[i] == '\n' {
            choose|i: int| 0 <= i < s.len() && s[i] == '\n' && forall|j: int| 0 <= j < i ==> s[j] != '\n'
        } else {
            s.len() as int
        };
        let line = s.subrange(0, end);
        if line.len() > 0 && line.last() == '\r' {
            Some(line.drop_last())
        } else {
            Some(line)
        }
    }
}

/// The first line of a trimmed text.
fn first_line_of(s: &Vec<char>) -> (r: Option<Vec<char>>)
    ensures
        match r {
            Some(v) => first_line(s@) == Some(v@),
            None => first_line(s@) is None,
        },
{
    if s.len() == 0 {
        return None;
    }
    let mut end: usize = 0;
    while end < s.len() && s[end] != '\n'
        invariant
            end <= s@.len(),
            forall|j: int| 0 <= j < end ==> s@[j] != '\n',
        decreases s.len() - end,
    {
        end = end + 1;
    }
    proof {
        if end < s@.len() {
            assert(s@[end as int] == '\n');
            let c = choose|i: int| 0 <= i < s@.len() && s@[i] == '\n' && forall|j: int| 0 <= j < i ==> s@[j] != '\n';
            assert(c == end) by {
                if c < end {
                    assert(s@[c] != '\n');
                }
                if c > end {
                    assert(s@[end as int] != '\n');
                }
            }
        } else {
            assert(!exists|i: int| 0 <= i < s@.len() && s@[i] == '\n');
        }
    }
    let stop: usize = if end > 0 && s[end - 1] == '\r' { end - 1 } else { end };
    let mut line: Vec<char> = Vec::new();
    let mut k: usize = 0;
    while k < stop
        invariant
            stop <= end <= s@.len(),
            k <= stop,
            line@ == s@.subrange(0, k as int),
        decreases stop - k,
    {
        line.push(s[k]);
        assert(line@ =~= s@.subrange(0, k + 1));
        k = k + 1;
    }
    proof {
        let full = s@.subrange(0, end as int);
        if end > 0 && s@[end - 1] == '\r' {
            assert(full.last() == '\r');
            assert(full.drop_last() =~= line@);
        } else {
            assert(full =~= line@);
        }
    }
    Some(line)
}

/// What a probe of an engine found.
pub enum ProbeOutcome {
    /// The engine is not bundled.
    Missing,
    /// The engine could not be started.
    SpawnFailed,
    /// The engine ran and exited.
    Finished { success: bool, stdout: Vec<u8>, stderr: Vec<u8> },
}

/// The state of one engine as the interface shows it.
pub struct EngineInfo {
    pub name: String,
    pub state: String,
    pub version: Option<String>,
    pub detail: Option<String>,
    pub path: Option<String>,
}

/// The first line of the trimmed text, or `default` when there is none.
pub open spec fn headline(text: Seq<char>, default: Seq<char>) -> Seq<char> {
    match first_line(trim_text(text)) {
        Some(l) => l,
        None => default,
    }
}

fn headline_of(bytes: &Vec<u8>, default: &str) -> (r: String)
    ensures
        r@ == headline(lossy_text(bytes@), default@),
{
    let text = lossy_string(bytes);
    let chars = chars_of(text.as_str());
    let trimmed = trim_chars(&chars);
    match first_line_of(&trimmed) {
        Some(line) => string_from_chars(&line),
        None => owned(default),
    }
}

/// Describes an engine from the outcome of running it with its version
/// flag: available with the first line of its output as the version when it
/// succeeded with some output; unavailable otherwise, with the reason.
pub fn probe_report(name: &str, path: Option<String>, outcome: ProbeOutcome) -> (r: EngineInfo)
    ensures
        r.name@ == name@,
        match outcome {
            ProbeOutcome::Missing => {
                &&& r.state@ == "unavailable"@
                &&& r.version is None
                &&& r.detail matches Some(d) && d@ == "No se encontró el sidecar incluido en la aplicación."@
                &&& r.path is None
            },
            ProbeOutcome::SpawnFailed => {
                &&& r.state@ == "unavailable"@
                &&& r.version is None
                &&& r.detail matches Some(d) && d@ == "No se pudo iniciar el sidecar local."@
                &&& r.path == path
            },
            ProbeOutcome::Finished { success, stdout, stderr } => if success && stdout@.len() > 0 {
                &&& r.state@ == "available"@
                &&& r.version matches Some(v) && v@ == headline(lossy_text(stdout@), "Disponible"@)
                &&& r.detail is None
                &&& r.path == path
            } else {
                &&& r.state@ == "unavailable"@
                &&& r.version is None
                &&& r.detail matches Some(d) && d@ == headline(lossy_text(stderr@), "El motor no respondió correctamente."@)
                &&& r.path == path
            },
        },
{
    match outcome {
        ProbeOutcome::Missing => EngineInfo {
            name: owned(name),
            state: owned("unavailable"),
            version: None,
            detail: Some(owned("No se encontró el sidecar incluido en la aplicación.")),
            path: None,
        },
        ProbeOutcome::SpawnFailed => EngineInfo {
            name: owned(name),
            state: owned("unavailable"),
            version: None,
            detail: Some(owned("No se pudo iniciar el sidecar local.")),
            path,
        },
        ProbeOutcome::Finished { success, stdout, stderr } => {
            if success && stdout.len() > 0 {
                EngineInfo {
                    name: owned(name),
                    state: owned("available"),
                    version: Some(headline_of(&stdout, "Disponible")),
                    detail: None,
                    path,
                }
            } else {
                EngineInfo {
                    name: owned(name),
                    state: owned("unavailable"),
                    version: None,
                    detail: Some(headline_of(&stderr, "El motor no respondió correctamente.")),
                    path,
                }
            }
        },
    }
}

/// The engine version recorded in diagnostics: the first 32 characters of
/// the trimmed output of a successful `--version` run, or `unknown`.
pub open spec fn version_text(success: bool, stdout: Seq<u8>) -> Seq<char> {
    if success && valid_utf8(stdout) {
        let t = trim_text(decode_utf8(stdout));
        let cut = if t.len() > 32 { t.subrange(0, 32) } else { t };
        if cut.len() > 0 {
            cut
        } else {
            "unknown"@
        }
    } else {
        "unknown"@
    }
}

/// The engine version recorded in diagnostics.
pub fn yt_dlp_version(success: bool, stdout: &Vec<u8>) -> (r: String)
    ensures
        r@ == version_text(success, stdout@),
{
    if !success {
        return owned("unknown");
    }
    match utf8_text(stdout) {
        None => owned("unknown"),
        Some(text) => {
            let chars = chars_of(text.as_str());
            let t = trim_chars(&chars);
            let limit: usize = if t.len() > 32 { 32 } else { t.len() };
            let mut cut: Vec<char> = Vec::new();
            let mut i: usize = 0;
            while i < limit
                invariant
                    i <= limit <= t@.len(),
                    cut@ == t@.subrange(0, i as int),
                decreases limit - i,
            {
                cut.push(t[i]);
                assert(cut@ =~= t@.subrange(0, i + 1));
                i = i + 1;
            }
            assert(t@.len() <= 32 ==> t@.subrange(0, t@.len() as int) == t@);
            if cut.len() == 0 {
                owned("unknown")
            } else {
                string_from_chars(&cut)
            }
        },
    }
}

/// The file name of a bundled engine as Tauri keeps it in the source tree
/// (with the target triple) and as it ships next to the application.
pub open spec fn sidecar_names_text(name: Seq<char>, triple: Seq<char>, windows: bool) -> (Seq<char>, Seq<char>) {
    let extension = if windows { ".exe"@ } else { ""@ };
    (name + "-"@ + triple + extension, name + extension)
}

/// The two file names under which a bundled engine is looked for.
pub fn sidecar_names(name: &str, triple: &str, windows: bool) -> (r: (String, String))
    ensures
        (r.0@, r.1@) == sidecar_names_text(name@, triple@, windows),
{
    let mut with_triple = owned(name);
    with_triple.append("-");
    with_triple.append(triple);
    let mut bundled = owned(name);
    if windows {
        with_triple.append(".exe");
        bundled.append(".exe");
    } else {
        proof {
            reveal_strlit("");
        }
        assert(with_triple@ =~= name@ + "-"@ + triple@ + ""@);
        assert(bundled@ =~= name@ + ""@);
    }
    (with_triple, bundled)
}

/// Whether a private engine alias can be kept as it is: it is a file and has
/// the size of the engine it stands for.
pub fn alias_up_to_date(destination_is_file: bool, destination_len: Option<u64>, source_len: Option<u64>) -> (r: bool)
    ensures
        r == (destination_is_file && destination_len == source_len),
{
    destination_is_file && destination_len == source_len
}

} // verus!
