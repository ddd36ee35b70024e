use yt_download::access::{BrowserSession, YoutubeAccessStrategy, YoutubeFailureClass};
use yt_download::analysis::{automatic_failure, AnalysisAttemptFailure};
use yt_download::commands::configure_extraction_pacing;
use yt_download::download::{requested_format_selector, valid_browser_session};
use yt_download::failure::{
    classify_youtube_failure, youtube_failure_message, youtube_requires_browser_session,
};
use yt_download::formats::{analyzed_video, RawFormat, VideoMetadata};
use yt_download::output::parse_progress_fields;
use yt_download::youtube_url::{valid_youtube_url, youtube_video_id};

fn raw_format(
    id: &str,
    ext: &str,
    width: u32,
    height: u32,
    fps: Option<f64>,
    vcodec: &str,
    tbr: Option<f64>,
    note: Option<&str>,
    url: Option<&str>,
    has_drm: Option<bool>,
) -> RawFormat {
    RawFormat {
        format_id: Some(id.to_owned()),
        ext: Some(ext.to_owned()),
        format_note: note.map(str::to_owned),
        width: Some(width),
        height: Some(height),
        fps_bits: fps.map(f64::to_bits),
        vcodec: Some(vcodec.to_owned()),
        acodec: Some("none".to_owned()),
        tbr_bits: tbr.map(f64::to_bits),
        filesize: None,
        filesize_approx: None,
        url: url.map(str::to_owned),
        has_drm,
    }
}

#[test]
fn parses_only_structured_progress_fields() {
    let line = format!("{}downloading\t12.5%\t123\t456\tNA\t789.25\t10", "__YTDM_PROGRESS__");
    let progress = parse_progress_fields(&line).expect("structured yt-dlp progress should parse");
    assert_eq!(progress.percent_text.parse::<f64>().ok(), Some(12.5));
    assert_eq!(progress.downloaded_bytes, 123);
    assert_eq!(progress.total_bytes, Some(456));
    assert_eq!(progress.speed_text.parse::<f64>().ok(), Some(789.25));
    assert_eq!(progress.eta_text.parse::<f64>().ok(), Some(10.0));
    assert!(parse_progress_fields("[download] 12.5% of 1MiB").is_none());
}

#[test]
fn accepts_only_youtube_hosts() {
    assert!(valid_youtube_url("https://www.youtube.com/watch?v=abc"));
    assert!(valid_youtube_url("https://youtu.be/abc"));
    assert!(!valid_youtube_url("https://youtube.com.evil.example/watch?v=abc"));
    assert!(!valid_youtube_url("file:///C:/video.mp4"));
}

#[test]
fn selected_format_never_falls_back_to_a_lower_resolution() {
    assert_eq!(requested_format_selector(Some("401"), Some(false), Some(2160), false), "401+ba");
    assert_eq!(requested_format_selector(Some("22"), Some(true), Some(720), false), "22");
}

#[test]
fn compatibility_mode_is_explicit_and_never_used_for_a_source_selection() {
    assert_eq!(requested_format_selector(None, None, None, true), "bv*+ba/b");
    assert_eq!(requested_format_selector(Some("401"), Some(false), Some(2160), true), "401+ba");
}

#[test]
fn accepts_only_supported_local_browser_sessions() {
    assert!(valid_browser_session(None));
    assert!(valid_browser_session(Some("chrome")));
    assert!(valid_browser_session(Some("edge")));
    assert!(!valid_browser_session(Some("firefox")));
}

#[test]
fn exposes_downloadable_resolutions_and_excludes_super_resolution() {
    let metadata = VideoMetadata {
        id: Some("example".to_owned()),
        title: Some("Example".to_owned()),
        channel: None,
        uploader: None,
        duration_bits: None,
        thumbnail: None,
        formats: vec![
            raw_format("401", "webm", 3840, 2160, Some(30.0), "av01", Some(12000.0), Some("2160p"), Some("https://example.test/2160"), None),
            raw_format("399", "mp4", 1920, 1080, Some(60.0), "avc1", Some(7000.0), None, Some("https://example.test/1080"), None),
            raw_format("247-sr", "webm", 1280, 720, Some(30.0), "vp9", Some(2500.0), Some("720p"), Some("https://example.test/720-sr"), None),
            raw_format("sb0", "mhtml", 1920, 1080, None, "avc1", None, Some("storyboard"), Some("https://example.test/storyboard"), None),
            raw_format("drm", "mp4", 1280, 720, None, "avc1", None, None, Some("https://example.test/drm"), Some(true)),
            raw_format("missing", "mp4", 854, 480, None, "avc1", None, None, None, None),
        ],
    };
    let video = analyzed_video("https://www.youtube.com/watch?v=example".to_owned(), metadata)
        .expect("metadata should parse");
    let heights: Vec<u32> = video.qualities.iter().map(|quality| quality.height).collect();
    assert_eq!(heights, vec![2160, 1080]);
    assert_eq!(video.qualities[0].format_id, "401");
    assert!(video.formats.iter().all(|format| !format.id.ends_with("-sr")));
}

#[test]
fn normalizes_common_video_urls_before_any_network_access() {
    let id = "eUV9noIBD8I";
    assert_eq!(
        youtube_video_id(&format!("https://www.youtube.com/watch?v={id}&t=1324s")),
        Some(id.to_owned())
    );
    assert_eq!(
        youtube_video_id(&format!("https://youtu.be/{id}?si=example")),
        Some(id.to_owned())
    );
    assert_eq!(
        youtube_video_id(&format!("https://www.youtube.com/shorts/{id}")),
        Some(id.to_owned())
    );
}

#[test]
fn keeps_the_source_quality_name_for_nonstandard_frame_sizes() {
    let metadata = VideoMetadata {
        id: Some("cinema".to_owned()),
        title: Some("Cinema".to_owned()),
        channel: None,
        uploader: None,
        duration_bits: None,
        thumbnail: None,
        formats: vec![raw_format("398", "mp4", 1280, 640, None, "avc1", None, Some("720p"), Some("https://example.test/720"), None)],
    };
    let video = analyzed_video("https://www.youtube.com/watch?v=cinema".to_owned(), metadata)
        .expect("metadata should parse");
    assert_eq!(video.qualities[0].label, "720p (1280 × 640 px)");
}

#[test]
fn explains_when_a_chromium_cookie_database_is_locked_without_exposing_it() {
    let message = youtube_failure_message(
        "ERROR: Could not copy Chrome cookie database. Permission denied: C:\\Users\\person\\AppData\\Local\\Microsoft\\Edge\\User Data\\Default\\Network\\Cookies",
        &YoutubeAccessStrategy::Browser { browser: BrowserSession::Edge, use_pot_provider: false },
    )
    .expect("known browser lock should have a safe message");
    assert!(message.contains("Edge"));
    assert!(message.contains("continuó"));
    assert!(!message.contains("C:\\Users"));
    assert!(!message.contains("Network\\Cookies"));
}

#[test]
fn explains_dpapi_protection_without_disabling_encryption() {
    let message = youtube_failure_message(
        "ERROR: Failed to decrypt with DPAPI",
        &YoutubeAccessStrategy::Browser { browser: BrowserSession::Chrome, use_pot_provider: false },
    )
    .expect("DPAPI failure should have a safe message");
    assert!(message.contains("Chrome"));
    assert!(message.contains("no desactivó el cifrado"));
}

#[test]
fn browser_recovery_flag_means_account_not_antibot() {
    assert!(!youtube_requires_browser_session("ERROR: Sign in to confirm you’re not a bot"));
    assert!(youtube_requires_browser_session(
        "ERROR: This is members-only content. Join this channel"
    ));
    assert!(!youtube_requires_browser_session("ERROR: Could not copy Chrome cookie database"));
}

#[test]
fn account_required_stops_without_reading_browser_sessions() {
    let failure = automatic_failure(
        "https://www.youtube.com/watch?v=example".to_owned(),
        &[AnalysisAttemptFailure { class: YoutubeFailureClass::AccountRequired, message: None }],
    );
    assert!(failure.requires_browser_session);
    assert!(failure.message.contains("no lee ni usa sesiones"));
}

#[test]
fn classifies_retryable_and_terminal_failures_structurally() {
    assert_eq!(
        classify_youtube_failure("ERROR: Sign in to confirm you're not a bot"),
        YoutubeFailureClass::AntiBotChallenge
    );
    assert_eq!(
        classify_youtube_failure("ERROR: HTTP Error 429: Too Many Requests"),
        YoutubeFailureClass::RateLimited
    );
    assert_eq!(
        classify_youtube_failure("ERROR: This video is not available in your country"),
        YoutubeFailureClass::GeoRestricted
    );
    assert_eq!(
        classify_youtube_failure("ERROR: Failed to decrypt with DPAPI"),
        YoutubeFailureClass::CookieDecryptUnsupported
    );
}

#[test]
fn access_order_uses_pot_for_antibot_without_browser_cookies() {
    assert!(YoutubeFailureClass::AntiBotChallenge.warrants_pot());
    assert!(!YoutubeFailureClass::AccountRequired.warrants_pot());
}

#[test]
fn applies_conservative_extraction_delays_and_bounded_retries() {
    let mut args: Vec<String> = vec!["yt-dlp".to_owned()];
    configure_extraction_pacing(&mut args);
    let args = &args[1..];
    assert!(args.windows(2).any(|pair| pair == ["--sleep-requests", "1.5"]));
    assert!(args.windows(2).any(|pair| pair == ["--extractor-retries", "1"]));
    assert!(args.windows(2).any(|pair| pair == ["--retry-sleep", "extractor:8"]));
}
