use vstd::prelude::*;

use crate::access::{browser_id, strategy_browser, YoutubeAccessStrategy};
use crate::analysis::opt_text;
use crate::download::{format_selector, format_selector_text, DownloadJob};
use crate::text::{decimal, owned, push_decimal, chars_of, string_from_chars};

verus! {

/// The texts of a list of command-line arguments.
pub open spec fn arg_texts(args: Seq<String>) -> Seq<Seq<char>> {
    args.map_values(|s: String| s@)
}

fn push_arg(args: &mut Vec<String>, s: &str)
    ensures
        arg_texts(final(args)@) == arg_texts(old(args)@).push(s@),
{
    args.push(owned(s));
    assert(arg_texts(args@) =~= arg_texts(old(args)@).push(s@));
}

fn push_owned(args: &mut Vec<String>, s: String)
    ensures
        arg_texts(final(args)@) == arg_texts(old(args)@).push(s@),
{
    let ghost t = s@;
    args.push(s);
    assert(arg_texts(args@) =~= arg_texts(old(args)@).push(t));
}

fn joined(a: &str, b: &str) -> (r: String)
    ensures
        r@ == a@ + b@,
{
    let mut s = owned(a);
    s.append(b);
    s
}

/// The arguments that pace yt-dlp's requests to YouTube: a pause between
/// requests, a single extractor retry, and a wait before it.
pub open spec fn pacing_args() -> Seq<Seq<char>> {
    seq!["--sleep-requests"@, "1.5"@, "--extractor-retries"@, "1"@, "--retry-sleep"@, "extractor:8"@]
}

/// Appends the request pacing arguments.
pub fn configure_extraction_pacing(args: &mut Vec<String>)
    ensures
        arg_texts(final(args)@) == arg_texts(old(args)@) + pacing_args(),
{
    push_arg(args, "--sleep-requests");
    push_arg(args, "1.5");
    push_arg(args, "--extractor-retries");
    push_arg(args, "1");
    push_arg(args, "--retry-sleep");
    push_arg(args, "extractor:8");
    assert(arg_texts(args@) =~= arg_texts(old(args)@) + pacing_args());
}

/// The arguments that apply an access strategy: a browser's cookies only when
/// the strategy names a browser.
pub open spec fn access_args(strategy: YoutubeAccessStrategy) -> Seq<Seq<char>> {
    match strategy_browser(strategy) {
        Some(b) => seq!["--cookies-from-browser"@, browser_id(b)],
        None => Seq::empty(),
    }
}

/// Appends the arguments of an already chosen access strategy.
pub fn configure_youtube_access(args: &mut Vec<String>, strategy: &YoutubeAccessStrategy)
    ensures
        arg_texts(final(args)@) == arg_texts(old(args)@) + access_args(*strategy),
{
    match strategy.browser() {
        Some(b) => {
            push_arg(args, "--cookies-from-browser");
            push_arg(args, b.as_str());
        },
        None => {},
    }
    assert(arg_texts(args@) =~= arg_texts(old(args)@) + access_args(*strategy));
}

/// The arguments that route yt-dlp through the bundled token provider.
pub open spec fn pot_provider_args(plugin_directory: Seq<char>, base_url: Seq<char>) -> Seq<Seq<char>> {
    seq![
        "--plugin-dirs"@,
        plugin_directory,
        "--extractor-args"@,
        "youtube:player_client=mweb"@,
        "--extractor-args"@,
        "youtubepot-bgutilhttp:base_url="@ + base_url,
    ]
}

/// Appends the arguments that use only the bundled token-provider plugin.
pub fn configure_pot_provider(args: &mut Vec<String>, plugin_directory: &str, base_url: &str)
    ensures
        arg_texts(final(args)@) == arg_texts(old(args)@) + pot_provider_args(plugin_directory@, base_url@),
{
    push_arg(args, "--plugin-dirs");
    push_arg(args, plugin_directory);
    push_arg(args, "--extractor-args");
    push_arg(args, "youtube:player_client=mweb");
    push_arg(args, "--extractor-args");
    push_owned(args, joined("youtubepot-bgutilhttp:base_url=", base_url));
    assert(arg_texts(args@) =~= arg_texts(old(args)@) + pot_provider_args(plugin_directory@, base_url@));
}

/// The environment of every process of the token provider: its caches in the
/// application's data, no prompts and no update checks.
pub open spec fn provider_env(deno_directory: Seq<char>, cache_home: Seq<char>) -> Seq<(Seq<char>, Seq<char>)> {
    seq![
        ("DENO_DIR"@, deno_directory),
        ("XDG_CACHE_HOME"@, cache_home),
        ("DENO_NO_PROMPT"@, "1"@),
        ("DENO_NO_UPDATE_CHECK"@, "1"@),
    ]
}

/// The environment variables of the token provider.
pub fn provider_environment(deno_directory: &str, cache_home: &str) -> (r: Vec<(String, String)>)
    ensures
        r@.map_values(|p: (String, String)| (p.0@, p.1@)) == provider_env(deno_directory@, cache_home@),
{
    let mut r: Vec<(String, String)> = Vec::new();
    r.push((owned("DENO_DIR"), owned(deno_directory)));
    r.push((owned("XDG_CACHE_HOME"), owned(cache_home)));
    r.push((owned("DENO_NO_PROMPT"), owned("1")));
    r.push((owned("DENO_NO_UPDATE_CHECK"), owned("1")));
    assert(r@.map_values(|p: (String, String)| (p.0@, p.1@)) =~= provider_env(deno_directory@, cache_home@));
    r
}

/// The arguments of a metadata extraction: no user configuration or
/// plugins, metadata only, one video, IPv4, a socket timeout, the bundled
/// engines, the pacing, the strategy, the token provider when it is used,
/// and the URL last.
pub open spec fn analysis_args(
    ffmpeg_directory: Seq<char>,
    deno: Seq<char>,
    strategy: YoutubeAccessStrategy,
    provider: Option<(Seq<char>, Seq<char>)>,
    url: Seq<char>,
) -> Seq<Seq<char>> {
    seq![
        "--ignore-config"@,
        "--no-plugin-dirs"@,
        "--dump-single-json"@,
        "--skip-download"@,
        "--no-playlist"@,
        "--force-ipv4"@,
        "--socket-timeout"@,
        "20"@,
        "--ffmpeg-location"@,
        ffmpeg_directory,
        "--js-runtimes"@,
        "deno:"@ + deno,
    ] + pacing_args() + access_args(strategy) + (match provider {
        Some(p) => pot_provider_args(p.0, p.1),
        None => Seq::empty(),
    }) + seq![url]
}

/// The arguments of a metadata extraction for `url`.
pub fn analysis_command(
    ffmpeg_directory: &str,
    deno: &str,
    strategy: &YoutubeAccessStrategy,
    provider: Option<(&str, &str)>,
    url: &str,
) -> (r: Vec<String>)
    ensures
        arg_texts(r@) == analysis_args(
            ffmpeg_directory@,
            deno@,
            *strategy,
            match provider {
                Some(p) => Some((p.0@, p.1@)),
                None => None,
            },
            url@,
        ),
{
    let mut args: Vec<String> = Vec::new();
    push_arg(&mut args, "--ignore-config");
    push_arg(&mut args, "--no-plugin-dirs");
    push_arg(&mut args, "--dump-single-json");
    push_arg(&mut args, "--skip-download");
    push_arg(&mut args, "--no-playlist");
    push_arg(&mut args, "--force-ipv4");
    push_arg(&mut args, "--socket-timeout");
    push_arg(&mut args, "20");
    push_arg(&mut args, "--ffmpeg-location");
    push_arg(&mut args, ffmpeg_directory);
    push_arg(&mut args, "--js-runtimes");
    push_owned(&mut args, joined("deno:", deno));
    let ghost head = arg_texts(args@);
    configure_extraction_pacing(&mut args);
    configure_youtube_access(&mut args, strategy);
    let ghost mid = arg_texts(args@);
    match provider {
        Some((plugins, base_url)) => configure_pot_provider(&mut args, plugins, base_url),
        None => {},
    }
    let ghost tail = arg_texts(args@);
    push_arg(&mut args, url);
    proof {
        let p = match provider {
            Some(p) => Some((p.0@, p.1@)),
            None => None,
        };
        assert(tail =~= mid + (match p {
            Some(q) => pot_provider_args(q.0, q.1),
            None => Seq::empty(),
        }));
        assert(arg_texts(args@) =~= analysis_args(ffmpeg_directory@, deno@, *strategy, p, url@));
    }
    args
}

/// The marker that starts a structured progress line.
pub open spec fn progress_prefix() -> Seq<char> {
    "__YTDM_PROGRESS__"@
}

/// The marker that starts a post-processing line.
pub open spec fn processing_prefix() -> Seq<char> {
    "__YTDM_POSTPROCESS__"@
}

/// The marker that starts the line naming the final file.
pub open spec fn file_prefix() -> Seq<char> {
    "__YTDM_FILE__"@
}

/// The arguments of a download: no user configuration or plugins, IPv4 only,
/// progress lines in the library's own structured form, safe file names, no
/// overwrites, the chosen destination, the bundled engines, a browser's
/// cookies only when the request names one, the format selector, and the
/// container when one was chosen.
pub open spec fn download_args(destination: Seq<char>, ffmpeg_directory: Seq<char>, deno: Seq<char>, job: DownloadJob) -> Seq<Seq<char>> {
    let r = job.request;
    seq![
        "--ignore-config"@,
        "--no-plugin-dirs"@,
        "--no-playlist"@,
        "--force-ipv4"@,
        "--newline"@,
        "--progress"@,
        "--windows-filenames"@,
        "--trim-filenames"@,
        "180"@,
        "--no-overwrites"@,
        "--paths"@,
        destination,
        "--output"@,
        "%(title)s [%(height)sp].%(ext)s"@,
        "--ffmpeg-location"@,
        ffmpeg_directory,
        "--js-runtimes"@,
        "deno:"@ + deno,
    ] + (match r.browser_session {
        Some(b) => seq!["--cookies-from-browser"@, b@, "--extractor-args"@, "youtube:player_client=web_safari"@],
        None => seq!["--extractor-args"@, "youtube:player_client=android_vr"@],
    }) + seq![
        "--format"@,
        format_selector_text(opt_text(r.selected_format_id), r.selected_format_has_audio, r.quality_height, r.compatibility_mode),
        "--progress-template"@,
        "download:"@ + progress_prefix() + "%(progress.status)s\t%(progress._percent_str)s\t%(progress.downloaded_bytes)s\t%(progress.total_bytes)s\t%(progress.total_bytes_estimate)s\t%(progress.speed)s\t%(progress.eta)s"@,
        "--progress-template"@,
        "postprocess:"@ + processing_prefix() + "%(progress.status)s"@,
        "--print"@,
        "after_move:"@ + file_prefix() + "%(filepath)j"@,
        r.url@,
    ] + (if r.container@ != "auto"@ {
        seq!["--merge-output-format"@, r.container@]
    } else {
        Seq::empty()
    })
}

/// The arguments of the download of a queued job.
pub fn download_command(destination: &str, ffmpeg_directory: &str, deno: &str, job: &DownloadJob) -> (r: Vec<String>)
    ensures
        arg_texts(r@) == download_args(destination@, ffmpeg_directory@, deno@, *job),
{
    let mut args: Vec<String> = Vec::new();
    push_arg(&mut args, "--ignore-config");
    push_arg(&mut args, "--no-plugin-dirs");
    push_arg(&mut args, "--no-playlist");
    push_arg(&mut args, "--force-ipv4");
    push_arg(&mut args, "--newline");
    push_arg(&mut args, "--progress");
    push_arg(&mut args, "--windows-filenames");
    push_arg(&mut args, "--trim-filenames");
    push_arg(&mut args, "180");
    push_arg(&mut args, "--no-overwrites");
    push_arg(&mut args, "--paths");
    push_arg(&mut args, destination);
    push_arg(&mut args, "--output");
    push_arg(&mut args, "%(title)s [%(height)sp].%(ext)s");
    push_arg(&mut args, "--ffmpeg-location");
    push_arg(&mut args, ffmpeg_directory);
    push_arg(&mut args, "--js-runtimes");
    push_owned(&mut args, joined("deno:", deno));
    let ghost head = arg_texts(args@);
    match &job.request.browser_session {
        Some(b) => {
            push_arg(&mut args, "--cookies-from-browser");
            push_arg(&mut args, b.as_str());
            push_arg(&mut args, "--extractor-args");
            push_arg(&mut args, "youtube:player_client=web_safari");
        },
        None => {
            push_arg(&mut args, "--extractor-args");
            push_arg(&mut args, "youtube:player_client=android_vr");
        },
    }
    let ghost with_access = arg_texts(args@);
    push_arg(&mut args, "--format");
    push_owned(&mut args, format_selector(job));
    push_arg(&mut args, "--progress-template");
    push_owned(&mut args, joined("download:__YTDM_PROGRESS__", "%(progress.status)s\t%(progress._percent_str)s\t%(progress.downloaded_bytes)s\t%(progress.total_bytes)s\t%(progress.total_bytes_estimate)s\t%(progress.speed)s\t%(progress.eta)s"));
    push_arg(&mut args, "--progress-template");
    push_owned(&mut args, joined("postprocess:__YTDM_POSTPROCESS__", "%(progress.status)s"));
    push_arg(&mut args, "--print");
    push_owned(&mut args, joined("after_move:__YTDM_FILE__", "%(filepath)j"));
    push_arg(&mut args, job.request.url.as_str());
    let ghost before_container = arg_texts(args@);
    let container = chars_of(job.request.container.as_str());
    if !crate::text::eq_lit(&container, "auto") {
        push_arg(&mut args, "--merge-output-format");
        push_arg(&mut args, job.request.container.as_str());
    }
    proof {
        reveal_strlit("download:");
        reveal_strlit("download:__YTDM_PROGRESS__");
        reveal_strlit("__YTDM_PROGRESS__");
        reveal_strlit("postprocess:");
        reveal_strlit("postprocess:__YTDM_POSTPROCESS__");
        reveal_strlit("__YTDM_POSTPROCESS__");
        reveal_strlit("after_move:");
        reveal_strlit("after_move:__YTDM_FILE__");
        reveal_strlit("__YTDM_FILE__");
        assert("download:__YTDM_PROGRESS__"@ =~= "download:"@ + progress_prefix());
        assert("postprocess:__YTDM_POSTPROCESS__"@ =~= "postprocess:"@ + processing_prefix());
        assert("after_move:__YTDM_FILE__"@ =~= "after_move:"@ + file_prefix());
        assert(arg_texts(args@) =~= download_args(destination@, ffmpeg_directory@, deno@, *job));
    }
    args
}

/// The arguments that end a download process and its children.
pub fn terminate_arguments(process_id: u32) -> (r: Vec<String>)
    ensures
        arg_texts(r@) == seq!["/PID"@, decimal(process_id as nat), "/T"@, "/F"@],
{
    let mut args: Vec<String> = Vec::new();
    push_arg(&mut args, "/PID");
    let mut digits: Vec<char> = Vec::new();
    push_decimal(&mut digits, process_id as u64);
    assert(digits@ =~= decimal(process_id as nat));
    push_owned(&mut args, string_from_chars(&digits));
    push_arg(&mut args, "/T");
    push_arg(&mut args, "/F");
    assert(arg_texts(args@) =~= seq!["/PID"@, decimal(process_id as nat), "/T"@, "/F"@]);
    args
}

/// The arguments that start the token provider's HTTP server under Deno:
/// network and environment access, native code only from its own modules,
/// writes only to its token cache, reads only from its home and that cache,
/// listening on the loopback interface at `port`.
pub open spec fn provider_server_args(
    node_modules: Seq<char>,
    token_cache: Seq<char>,
    server_home: Seq<char>,
    entry: Seq<char>,
    port: u16,
) -> Seq<Seq<char>> {
    seq![
        "run"@,
        "--allow-env"@,
        "--allow-net"@,
        "--allow-ffi="@ + node_modules,
        "--allow-write="@ + token_cache,
        "--allow-read="@ + server_home + ","@ + token_cache,
        entry,
        "--host"@,
        "127.0.0.1"@,
        "--port"@,
        decimal(port as nat),
    ]
}

/// The arguments that start the token provider's server.
pub fn provider_server_arguments(
    node_modules: &str,
    token_cache: &str,
    server_home: &str,
    entry: &str,
    port: u16,
) -> (r: Vec<String>)
    ensures
        arg_texts(r@) == provider_server_args(node_modules@, token_cache@, server_home@, entry@, port),
{
    let mut args: Vec<String> = Vec::new();
    push_arg(&mut args, "run");
    push_arg(&mut args, "--allow-env");
    push_arg(&mut args, "--allow-net");
    push_owned(&mut args, joined("--allow-ffi=", node_modules));
    push_owned(&mut args, joined("--allow-write=", token_cache));
    let mut read = joined("--allow-read=", server_home);
    read.append(",");
    read.append(token_cache);
    push_owned(&mut args, read);
    push_arg(&mut args, entry);
    push_arg(&mut args, "--host");
    push_arg(&mut args, "127.0.0.1");
    push_arg(&mut args, "--port");
    let mut digits: Vec<char> = Vec::new();
    push_decimal(&mut digits, port as u64);
    push_owned(&mut args, string_from_chars(&digits));
    assert(arg_texts(args@) =~= provider_server_args(node_modules@, token_cache@, server_home@, entry@, port));
    args
}

/// The arguments that install the token provider's pinned dependencies once.
pub open spec fn provider_install_args() -> Seq<Seq<char>> {
    seq!["install"@, "--allow-scripts=npm:canvas"@, "--frozen"@]
}

/// The arguments of the one-time installation of the token provider.
pub fn provider_install_arguments() -> (r: Vec<String>)
    ensures
        arg_texts(r@) == provider_install_args(),
{
    let mut args: Vec<String> = Vec::new();
    push_arg(&mut args, "install");
    push_arg(&mut args, "--allow-scripts=npm:canvas");
    push_arg(&mut args, "--frozen");
    args
}

} // verus!
