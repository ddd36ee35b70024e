use vstd::prelude::*;

use crate::text::{
    chars_of, ends_with_chars, ends_with_text, eq_lit, is_ascii_alnum, lower_chars, lower_text,
    string_from_chars, trim_chars, trim_text,
};

verus! {

/// The parts of an absolute URL that this library reads: the scheme, the host,
/// the path segments (absent for a URL that cannot be a base) and the decoded
/// query pairs.
pub struct UrlParts {
    pub scheme: String,
    pub host: Option<String>,
    pub segments: Option<Vec<String>>,
    pub query: Vec<(String, String)>,
}

/// The plain content of `UrlParts`.
pub type UrlPartsView = (Seq<char>, Option<Seq<char>>, Option<Seq<Seq<char>>>, Seq<(Seq<char>, Seq<char>)>);

impl View for UrlParts {
    type V = UrlPartsView;

    open spec fn view(&self) -> UrlPartsView {
        (
            self.scheme@,
            match self.host {
                Some(h) => Some(h@),
                None => None,
            },
            match self.segments {
                Some(v) => Some(v@.map_values(|s: String| s@)),
                None => None,
            },
            self.query@.map_values(|p: (String, String)| (p.0@, p.1@)),
        )
    }
}

/// What the `url` crate makes of a text: `None` where it parses no absolute
/// URL, else the URL's scheme, host, path segments and query pairs.
pub uninterp spec fn url_parse(input: Seq<char>) -> Option<UrlPartsView>;

/// Parses `input` with `url::Url::parse` and reads the parsed URL's
/// `scheme`, `host_str`, `path_segments` and `query_pairs`. The contract
/// claims only that the result is a function of the text (named
/// `url_parse`); what the parser accepts and how it normalises is left to the
/// `url` crate.
#[verifier::external_body]
fn parse_url(input: &Vec<char>) -> (r: Option<UrlParts>)
    ensures
        r matches Some(p) ==> url_parse(input@) == Some(p@),
        r is None ==> url_parse(input@) is None,
{
    let text: String = input.iter().collect();
    let url = url::Url::parse(&text).ok()?;
    Some(UrlParts {
        scheme: url.scheme().to_owned(),
        host: url.host_str().map(str::to_owned),
        segments: url.path_segments().map(|parts| parts.map(str::to_owned).collect()),
        query: url.query_pairs().map(|(k, v)| (k.into_owned(), v.into_owned())).collect(),
    })
}

/// A web scheme.
pub open spec fn is_web_scheme(scheme: Seq<char>) -> bool {
    scheme == "https"@ || scheme == "http"@
}

/// A YouTube host, given in lower case.
pub open spec fn is_youtube_host(host: Seq<char>) -> bool {
    host == "youtu.be"@ || host == "www.youtu.be"@ || host == "youtube.com"@
        || ends_with_text(host, ".youtube.com"@)
}

/// A short-link host, given in lower case.
pub open spec fn is_short_host(host: Seq<char>) -> bool {
    host == "youtu.be"@ || host == "www.youtu.be"@
}

/// A main YouTube host, given in lower case.
pub open spec fn is_main_host(host: Seq<char>) -> bool {
    host == "youtube.com"@ || ends_with_text(host, ".youtube.com"@)
}

/// A parsed URL is a web URL on a YouTube host.
pub open spec fn parts_supported(p: UrlPartsView) -> bool {
    is_web_scheme(p.0) && match p.1 {
        Some(h) => is_youtube_host(lower_text(h)),
        None => false,
    }
}

/// The text names a web URL on a YouTube host (surrounding white space
/// aside).
pub open spec fn supported_youtube_url(value: Seq<char>) -> bool {
    match url_parse(trim_text(value)) {
        Some(p) => parts_supported(p),
        None => false,
    }
}

/// Whether a character may appear in a video identifier.
pub open spec fn is_id_char(c: char) -> bool {
    is_ascii_alnum(c) || c == '_' || c == '-'
}

/// A well-formed video identifier: 6 to 32 letters, digits, `_` or `-`.
pub open spec fn valid_video_id(id: Seq<char>) -> bool {
    6 <= id.len() <= 32 && forall|i: int| 0 <= i < id.len() ==> #[trigger] is_id_char(id[i])
}

/// The first non-empty path segment.
pub open spec fn first_nonempty(segs: Seq<Seq<char>>) -> Option<Seq<char>>
    decreases segs.len(),
{
    if segs.len() == 0 {
        None
    } else if segs[0].len() > 0 {
        Some(segs[0])
    } else {
        first_nonempty(segs.drop_first())
    }
}

/// The value of the first query pair whose key is `key`.
pub open spec fn query_value(pairs: Seq<(Seq<char>, Seq<char>)>, key: Seq<char>) -> Option<Seq<char>>
    decreases pairs.len(),
{
    if pairs.len() == 0 {
        None
    } else if pairs[0].0 == key {
        Some(pairs[0].1)
    } else {
        query_value(pairs.drop_first(), key)
    }
}

/// The path prefixes after which the identifier is the next segment.
pub open spec fn is_id_prefix(segment: Seq<char>) -> bool {
    segment == "shorts"@ || segment == "embed"@ || segment == "live"@ || segment == "v"@
}

/// Where a parsed YouTube URL keeps the video identifier (before trimming and
/// validation).
pub open spec fn id_candidate(p: UrlPartsView) -> Option<Seq<char>> {
    match p.1 {
        None => None,
        Some(h) => {
            let host = lower_text(h);
            if is_short_host(host) {
                match p.2 {
                    Some(segs) => first_nonempty(segs),
                    None => None,
                }
            } else if is_main_host(host) {
                match p.2 {
                    None => None,
                    Some(segs) => if segs.len() == 0 || segs[0].len() == 0 || segs[0] == "watch"@ {
                        query_value(p.3, "v"@)
                    } else if is_id_prefix(segs[0]) {
                        if segs.len() >= 2 {
                            Some(segs[1])
                        } else {
                            None
                        }
                    } else {
                        None
                    },
                }
            } else {
                None
            }
        },
    }
}

/// The video identifier of a parsed YouTube URL: its candidate, trimmed,
/// when that is a well-formed identifier.
pub open spec fn parts_video_id(p: UrlPartsView) -> Option<Seq<char>> {
    match id_candidate(p) {
        None => None,
        Some(c) => if valid_video_id(trim_text(c)) {
            Some(trim_text(c))
        } else {
            None
        },
    }
}

/// On youtube.com or one of its subdomains, a link whose path starts with
/// `shorts`, `embed`, `live` or `v` names the video by its second path
/// segment: when that segment (trimmed) is a well-formed identifier, it is
/// the video's identifier, for the parsed URL and for any text that parses
/// to it.
pub proof fn lemma_id_after_path_prefix(value: Seq<char>, p: UrlPartsView)
    requires
        url_parse(trim_text(value)) == Some(p),
        p.1 is Some,
        lower_text(p.1.unwrap()) == "youtube.com"@ || ends_with_text(lower_text(p.1.unwrap()), ".youtube.com"@),
        p.2 is Some,
        p.2.unwrap().len() >= 2,
        p.2.unwrap()[0] == "shorts"@ || p.2.unwrap()[0] == "embed"@ || p.2.unwrap()[0] == "live"@
            || p.2.unwrap()[0] == "v"@,
        valid_video_id(trim_text(p.2.unwrap()[1])),
    ensures
        parts_video_id(p) == Some(trim_text(p.2.unwrap()[1])),
        video_id_of(value) == Some(trim_text(p.2.unwrap()[1])),
{
    reveal_strlit("youtube.com");
    reveal_strlit(".youtube.com");
    reveal_strlit("youtu.be");
    reveal_strlit("www.youtu.be");
    reveal_strlit("shorts");
    reveal_strlit("embed");
    reveal_strlit("live");
    reveal_strlit("v");
    reveal_strlit("watch");
    let host = lower_text(p.1.unwrap());
    if ends_with_text(host, ".youtube.com"@) {
        assert(host.subrange(host.len() - 12, host.len() as int)[0] == ".youtube.com"@[0]);
        assert(host[host.len() - 12] == '.');
        if host == "www.youtu.be"@ {
            assert(host[0] == 'w');
        }
    }
    assert(host != "youtu.be"@ && host != "www.youtu.be"@);
    let first = p.2.unwrap()[0];
    assert(first.len() > 0);
    if first == "watch"@ {
        assert(first.len() == 5);
        assert(first[0] == 'w');
    }
}

/// The video identifier of a YouTube URL, worked out without any network
/// access.
pub open spec fn video_id_of(value: Seq<char>) -> Option<Seq<char>> {
    match url_parse(trim_text(value)) {
        None => None,
        Some(p) => parts_video_id(p),
    }
}

/// Whether a scheme is `https` or `http`.
fn web_scheme(scheme: &String) -> (r: bool)
    ensures
        r == is_web_scheme(scheme@),
{
    let s = chars_of(scheme.as_str());
    eq_lit(&s, "https") || eq_lit(&s, "http")
}

/// The host in ASCII lower case.
fn lower_host(host: &String) -> (r: Vec<char>)
    ensures
        r@ == lower_text(host@),
{
    let h = chars_of(host.as_str());
    lower_chars(&h)
}

/// Whether a lower-case host is a YouTube host.
fn youtube_host(host: &Vec<char>) -> (r: bool)
    ensures
        r == is_youtube_host(host@),
{
    let suffix = chars_of(".youtube.com");
    eq_lit(host, "youtu.be") || eq_lit(host, "www.youtu.be") || eq_lit(host, "youtube.com")
        || ends_with_chars(host, &suffix)
}

/// Whether the text is an `http(s)` link to YouTube or its short-link host.
pub fn is_supported_youtube_url(value: &str) -> (r: bool)
    ensures
        r == supported_youtube_url(value@),
{
    let raw = chars_of(value);
    let trimmed = trim_chars(&raw);
    match parse_url(&trimmed) {
        None => false,
        Some(parts) => supported_parts(&parts),
    }
}

/// Whether a parsed URL is an `http(s)` link to YouTube or its short-link
/// host.
pub fn supported_parts(parts: &UrlParts) -> (r: bool)
    ensures
        r == parts_supported(parts@),
{
    if !web_scheme(&parts.scheme) {
        return false;
    }
    match &parts.host {
        None => false,
        Some(h) => {
            let host = lower_host(h);
            youtube_host(&host)
        },
    }
}

/// Whether a download request's URL is a YouTube link; the same test as
/// `is_supported_youtube_url`.
pub fn valid_youtube_url(value: &str) -> (r: bool)
    ensures
        r == supported_youtube_url(value@),
{
    is_supported_youtube_url(value)
}

/// The first non-empty segment.
fn first_nonempty_segment(segs: &Vec<String>) -> (r: Option<Vec<char>>)
    ensures
        match r {
            Some(v) => first_nonempty(segs@.map_values(|s: String| s@)) == Some(v@),
            None => first_nonempty(segs@.map_values(|s: String| s@)) is None,
        },
{
    let ghost all = segs@.map_values(|s: String| s@);
    assert(all.subrange(0, all.len() as int) == all);
    let mut i: usize = 0;
    while i < segs.len()
        invariant
            i <= segs@.len(),
            all == segs@.map_values(|s: String| s@),
            first_nonempty(all) == first_nonempty(all.subrange(i as int, all.len() as int)),
        decreases segs.len() - i,
    {
        let ghost rest = all.subrange(i as int, all.len() as int);
        assert(rest[0] == segs@[i as int]@);
        let seg = chars_of(segs[i].as_str());
        if seg.len() > 0 {
            return Some(seg);
        }
        assert(rest.drop_first() == all.subrange(i + 1, all.len() as int));
        i = i + 1;
    }
    None
}

/// The value of the first query pair whose key is `v`.
fn query_v(pairs: &Vec<(String, String)>) -> (r: Option<Vec<char>>)
    ensures
        match r {
            Some(v) => query_value(pairs@.map_values(|p: (String, String)| (p.0@, p.1@)), "v"@) == Some(v@),
            None => query_value(pairs@.map_values(|p: (String, String)| (p.0@, p.1@)), "v"@) is None,
        },
{
    let ghost all = pairs@.map_values(|p: (String, String)| (p.0@, p.1@));
    assert(all.subrange(0, all.len() as int) == all);
    let mut i: usize = 0;
    while i < pairs.len()
        invariant
            i <= pairs@.len(),
            all == pairs@.map_values(|p: (String, String)| (p.0@, p.1@)),
            query_value(all, "v"@) == query_value(all.subrange(i as int, all.len() as int), "v"@),
        decreases pairs.len() - i,
    {
        let ghost rest = all.subrange(i as int, all.len() as int);
        assert(rest[0] == (pairs@[i as int].0@, pairs@[i as int].1@));
        let key = chars_of(pairs[i].0.as_str());
        if eq_lit(&key, "v") {
            return Some(chars_of(pairs[i].1.as_str()));
        }
        assert(rest.drop_first() == all.subrange(i + 1, all.len() as int));
        i = i + 1;
    }
    None
}

/// Where a parsed URL keeps the video identifier.
fn candidate_of(parts: &UrlParts) -> (r: Option<Vec<char>>)
    ensures
        match r {
            Some(v) => id_candidate(parts@) == Some(v@),
            None => id_candidate(parts@) is None,
        },
{
    let host = match &parts.host {
        None => {
            return None;
        },
        Some(h) => lower_host(h),
    };
    let suffix = chars_of(".youtube.com");
    if eq_lit(&host, "youtu.be") || eq_lit(&host, "www.youtu.be") {
        match &parts.segments {
            Some(segs) => first_nonempty_segment(segs),
            None => None,
        }
    } else if eq_lit(&host, "youtube.com") || ends_with_chars(&host, &suffix) {
        match &parts.segments {
            None => None,
            Some(segs) => {
                let ghost all = segs@.map_values(|s: String| s@);
                let first: Vec<char> = if segs.len() == 0 {
                    Vec::new()
                } else {
                    assert(all[0] == segs@[0]@);
                    chars_of(segs[0].as_str())
                };
                if first.len() == 0 || eq_lit(&first, "watch") {
                    query_v(&parts.query)
                } else if eq_lit(&first, "shorts") || eq_lit(&first, "embed") || eq_lit(&first, "live") || eq_lit(
                    &first,
                    "v",
                ) {
                    if segs.len() >= 2 {
                        assert(all[1] == segs@[1]@);
                        Some(chars_of(segs[1].as_str()))
                    } else {
                        None
                    }
                } else {
                    None
                }
            },
        }
    } else {
        None
    }
}

/// Whether a character may appear in a video identifier.
fn id_char(c: char) -> (r: bool)
    ensures
        r == is_id_char(c),
{
    ('a' <= c && c <= 'z') || ('A' <= c && c <= 'Z') || ('0' <= c && c <= '9') || c == '_' || c
        == '-'
}

/// Whether a candidate is a well-formed video identifier.
fn well_formed_id(id: &Vec<char>) -> (r: bool)
    ensures
        r == valid_video_id(id@),
{
    if id.len() < 6 || id.len() > 32 {
        return false;
    }
    let mut i: usize = 0;
    while i < id.len()
        invariant
            i <= id@.len(),
            forall|j: int| 0 <= j < i ==> #[trigger] is_id_char(id@[j]),
        decreases id.len() - i,
    {
        if !id_char(id[i]) {
            return false;
        }
        i = i + 1;
    }
    true
}

/// The identifier of the video a YouTube link points to (`watch?v=`,
/// `youtu.be/`, `shorts/`, `embed/`, `live/` or `v/` forms), worked out
/// locally before any network access.
pub fn youtube_video_id(value: &str) -> (r: Option<String>)
    ensures
        match r {
            Some(id) => video_id_of(value@) == Some(id@),
            None => video_id_of(value@) is None,
        },
{
    let raw = chars_of(value);
    let trimmed = trim_chars(&raw);
    match parse_url(&trimmed) {
        None => None,
        Some(parts) => video_id_of_parts(&parts),
    }
}

/// The identifier of the video a parsed YouTube URL points to: where the
/// link form keeps it, trimmed, when it is well formed.
pub fn video_id_of_parts(parts: &UrlParts) -> (r: Option<String>)
    ensures
        match r {
            Some(id) => parts_video_id(parts@) == Some(id@),
            None => parts_video_id(parts@) is None,
        },
{
    let candidate = match candidate_of(parts) {
        None => {
            return None;
        },
        Some(c) => c,
    };
    let id = trim_chars(&candidate);
    if well_formed_id(&id) {
        Some(string_from_chars(&id))
    } else {
        None
    }
}

/// A thumbnail address is kept only when it parses as an `http(s)` URL.
pub open spec fn safe_http_url_spec(value: Option<Seq<char>>) -> Option<Seq<char>> {
    match value {
        Some(v) => match url_parse(v) {
            Some(p) => if is_web_scheme(p.0) {
                Some(v)
            } else {
                None
            },
            None => None,
        },
        None => None,
    }
}

/// Keeps an address only when it is an `http` or `https` URL.
pub fn safe_http_url(value: Option<String>) -> (r: Option<String>)
    ensures
        match r {
            Some(s) => safe_http_url_spec(match value {
                Some(v) => Some(v@),
                None => None,
            }) == Some(s@),
            None => safe_http_url_spec(match value {
                Some(v) => Some(v@),
                None => None,
            }) is None,
        },
{
    match value {
        None => None,
        Some(candidate) => {
            let chars = chars_of(candidate.as_str());
            match parse_url(&chars) {
                Some(parts) => if web_scheme(&parts.scheme) {
                    Some(candidate)
                } else {
                    None
                },
                None => None,
            }
        },
    }
}

} // verus!
