use std::path::PathBuf;

use yt_download::access::{BrowserSession, YoutubeAccessStrategy, YoutubeFailureClass};
use yt_download::analysis::{
    automatic_failure, failed_attempt, AnalysisAttemptFailure, AnalysisFailure, AutomaticAnalysis,
};
use yt_download::batch::{
    already_downloaded, cooling_down, next_url_action, triage_url, with_cooldown, SeenVideos, UrlAction, UrlChecks,
    UrlTriage,
};
use yt_download::commands::{
    analysis_command, configure_pot_provider, configure_youtube_access, download_command,
    provider_environment, provider_install_arguments, provider_server_arguments, terminate_arguments,
};
use yt_download::download::{
    format_selector, requested_format_selector, valid_container, valid_format_id, DownloadJob,
    DownloadProgress, DownloadQueue, DownloadRequest, DownloadStatus, DownloadVerification,
    HUNDRED_PERCENT_BITS,
};
use yt_download::engine::{
    alias_up_to_date, analysis_event, cooldown_event, diagnostic_line, needs_rotation,
    ping_request, probe_report, provider_base_url, provider_response_ok, sanitize_event, sidecar_names,
    yt_dlp_version, EnginePaths, ProbeOutcome,
};
use yt_download::failure::{class_failure_message, classify_youtube_failure, youtube_failure_message};
use yt_download::formats::{
    analyzed_video, best_format, choose_download_source, compare_floats, quality_label,
    source_quality_label, AnalyzedVideo, Preference, RawFormat, VideoFormat, VideoMetadata,
};
use yt_download::output::{
    check_verification, classify_output_line, contained_in, download_failure_message, history_entry,
    history_not_saved_message, is_diagnostic_line, job_id, parse_bytes, verification_from_streams,
    OutputLine, ProbeStream,
};
use yt_download::text::{chars_of, decimal_string, parse_u64_chars, trim_chars};
use yt_download::youtube_access::{
    activate_cooldown, begin_network_operation, cooldown_message, cooldown_until, finish_network_operation,
    restore_cooldown, wait_for_cooldown, AnalysisCache, TrafficState, TrafficStep, BLOCK_COOLDOWN_SECONDS,
    MIN_OPERATION_GAP_MS,
};
use yt_download::youtube_url::{
    is_supported_youtube_url, safe_http_url, supported_parts, video_id_of_parts, youtube_video_id, UrlParts,
};
use yt_download::worker::{after_download_attempt, download_turn, AfterAttempt, TurnDecision};

fn request(video_id: &str, url: &str) -> DownloadRequest {
    DownloadRequest {
        video_id: video_id.to_owned(),
        url: url.to_owned(),
        title: "Un video".to_owned(),
        thumbnail: None,
        channel: Some("Canal".to_owned()),
        quality_height: Some(1080),
        selected_format_id: Some("137".to_owned()),
        selected_format_has_audio: Some(false),
        compatibility_mode: false,
        browser_session: None,
        container: "mp4".to_owned(),
        destination: "/tmp/videos".to_owned(),
    }
}

fn job_of(request: DownloadRequest) -> DownloadJob {
    DownloadJob {
        request,
        job_id: "job-1".to_owned(),
        status: DownloadStatus::Queued,
        progress: DownloadProgress::none(),
        message: None,
        error: None,
        file_path: None,
        created_at: None,
        completed_at: None,
        verification: None,
    }
}

fn format(id: &str, height: u32, fps: f64, has_audio: bool) -> VideoFormat {
    VideoFormat {
        id: id.to_owned(),
        extension: "mp4".to_owned(),
        format_note: None,
        height: Some(height),
        width: Some(height * 16 / 9),
        fps_bits: Some(fps.to_bits()),
        video_codec: Some("avc1".to_owned()),
        audio_codec: Some(if has_audio { "mp4a".to_owned() } else { "none".to_owned() }),
        bitrate_bits: None,
        filesize: None,
        filesize_approx: None,
        has_video: true,
        has_audio,
    }
}

fn raw(id: &str, height: u32, fps: f64, note: Option<&str>) -> RawFormat {
    RawFormat {
        format_id: Some(id.to_owned()),
        ext: Some("mp4".to_owned()),
        format_note: note.map(str::to_owned),
        width: Some(height * 16 / 9),
        height: Some(height),
        fps_bits: Some(fps.to_bits()),
        vcodec: Some("avc1".to_owned()),
        acodec: Some("none".to_owned()),
        tbr_bits: None,
        filesize: None,
        filesize_approx: None,
        url: Some("https://example.invalid/stream".to_owned()),
        has_drm: None,
    }
}

fn metadata(formats: Vec<RawFormat>) -> VideoMetadata {
    VideoMetadata {
        id: Some("abcdefghijk".to_owned()),
        title: None,
        channel: None,
        uploader: Some("Subidor".to_owned()),
        duration_bits: Some(61.5f64.to_bits()),
        thumbnail: Some("javascript:alert(1)".to_owned()),
        formats,
    }
}

fn video_with(formats: Vec<RawFormat>) -> AnalyzedVideo {
    match analyzed_video("https://youtu.be/abcdefghijk".to_owned(), metadata(formats)) {
        Ok(video) => video,
        Err(error) => panic!("metadata with an identifier should be analysed: {error}"),
    }
}

fn attempt(class: YoutubeFailureClass, message: Option<&str>) -> AnalysisAttemptFailure {
    AnalysisAttemptFailure { class, message: message.map(str::to_owned) }
}

fn texts(args: &[String]) -> Vec<&str> {
    args.iter().map(String::as_str).collect()
}

fn rejection(triage: UrlTriage) -> AnalysisFailure {
    match triage {
        UrlTriage::Reject(failure) => failure,
        UrlTriage::Skip => panic!("expected a rejection, got a skip"),
        UrlTriage::Analyze { url, .. } => panic!("expected a rejection, got an analysis of {url}"),
    }
}

// ---------------------------------------------------------------------------
// Network turn and cooldown
// ---------------------------------------------------------------------------

#[test]
fn operations_wait_the_minimum_gap_after_the_previous_one() {
    let mut state = TrafficState::new();
    assert_eq!(begin_network_operation(&mut state, 100, 1_000), TrafficStep::Proceed);
    assert_eq!(begin_network_operation(&mut state, 100, 1_500), TrafficStep::WaitForRelease);
    finish_network_operation(&mut state, 2_000);
    assert!(!state.active);
    assert_eq!(state.not_before, Some(2_000 + MIN_OPERATION_GAP_MS));
    assert_eq!(begin_network_operation(&mut state, 101, 5_000), TrafficStep::WaitFor(5_000));
    assert_eq!(begin_network_operation(&mut state, 108, 10_000), TrafficStep::Proceed);
    assert!(state.active);
}

#[test]
fn a_running_cooldown_refuses_and_an_expired_one_is_cleared() {
    let mut state = TrafficState::new();
    let until = activate_cooldown(&mut state, 1_000);
    assert_eq!(until, 1_000 + BLOCK_COOLDOWN_SECONDS);
    assert_eq!(begin_network_operation(&mut state, 1_500, 0), TrafficStep::Refuse(2_800));
    assert!(!state.active);
    assert_eq!(cooldown_until(&state, 1_500), Some(2_800));
    assert_eq!(begin_network_operation(&mut state, 2_800, 0), TrafficStep::Proceed);
    assert_eq!(state.cooldown_until_epoch, None);
}

#[test]
fn the_cooldown_is_never_shortened() {
    let mut state = TrafficState::new();
    assert_eq!(activate_cooldown(&mut state, 5_000), 6_800);
    assert_eq!(activate_cooldown(&mut state, 4_000), 5_800);
    assert_eq!(state.cooldown_until_epoch, Some(6_800));
    assert_eq!(activate_cooldown(&mut state, 6_000), 7_800);
    assert_eq!(state.cooldown_until_epoch, Some(7_800));
}

#[test]
fn a_persisted_cooldown_is_restored_only_while_it_runs() {
    let mut state = TrafficState::new();
    restore_cooldown(&mut state, Some(50), 100);
    assert_eq!(state.cooldown_until_epoch, None);
    restore_cooldown(&mut state, Some(100), 100);
    assert_eq!(state.cooldown_until_epoch, None);
    restore_cooldown(&mut state, Some(200), 100);
    assert_eq!(state.cooldown_until_epoch, Some(200));
    restore_cooldown(&mut state, None, 100);
    assert_eq!(state.cooldown_until_epoch, None);
}

#[test]
fn waiting_out_the_cooldown_counts_down_then_clears_it() {
    let mut state = TrafficState::new();
    state.cooldown_until_epoch = Some(500);
    assert_eq!(wait_for_cooldown(&mut state, 200), Some(300));
    assert_eq!(state.cooldown_until_epoch, Some(500));
    assert_eq!(wait_for_cooldown(&mut state, 500), None);
    assert_eq!(state.cooldown_until_epoch, None);
    assert_eq!(wait_for_cooldown(&mut state, 600), None);
}

#[test]
fn cooldown_message_rounds_minutes_up_with_plural() {
    let prefix = "YouTube aplicó una verificación temporal. Para no agravarla, la aplicación detuvo las solicitudes durante ";
    assert_eq!(cooldown_message(1_060, 1_000), format!("{prefix}1 minuto."));
    assert_eq!(cooldown_message(1_061, 1_000), format!("{prefix}2 minutos."));
    assert_eq!(cooldown_message(2_800, 1_000), format!("{prefix}30 minutos."));
    assert_eq!(cooldown_message(900, 1_000), format!("{prefix}1 minuto."));
}

// ---------------------------------------------------------------------------
// Analysis cache
// ---------------------------------------------------------------------------

#[test]
fn a_cached_video_is_found_again_under_the_new_url_until_it_expires() {
    let mut cache = AnalysisCache::new();
    let video = video_with(vec![raw("137", 1080, 30.0, None)]);
    cache.cache_analysis(video, 1_000);
    let hit = cache
        .cached_analysis("abcdefghijk", "https://www.youtube.com/watch?v=abcdefghijk", 1_000 + 1_799_999)
        .expect("a fresh entry should be found");
    assert_eq!(hit.id, "abcdefghijk");
    assert_eq!(hit.url, "https://www.youtube.com/watch?v=abcdefghijk");
    assert_eq!(hit.qualities.len(), 1);
    assert!(cache.cached_analysis("zzzzzzzzzzz", "https://youtu.be/zzzzzzzzzzz", 2_000).is_none());
    assert!(cache.cached_analysis("abcdefghijk", "https://youtu.be/abcdefghijk", 1_000 + 1_800_000).is_none());
    assert!(cache.cached_analysis("abcdefghijk", "https://youtu.be/abcdefghijk", 1_000).is_none());
}

#[test]
fn caching_a_video_again_replaces_the_older_entry() {
    let mut cache = AnalysisCache::new();
    let mut first = video_with(vec![raw("137", 1080, 30.0, None)]);
    first.title = "Primero".to_owned();
    let mut second = video_with(vec![raw("137", 1080, 30.0, None)]);
    second.title = "Segundo".to_owned();
    cache.cache_analysis(first, 0);
    cache.cache_analysis(second, 10);
    let hit = cache.cached_analysis("abcdefghijk", "u", 20).expect("entry");
    assert_eq!(hit.title, "Segundo");
}

// ---------------------------------------------------------------------------
// Batch triage
// ---------------------------------------------------------------------------

#[test]
fn a_video_is_analysed_once_per_batch_whatever_its_link() {
    let mut seen = SeenVideos::new();
    match triage_url("  https://www.youtube.com/watch?v=abcdefghijk  ", &mut seen) {
        UrlTriage::Analyze { url, video_id } => {
            assert_eq!(url, "https://www.youtube.com/watch?v=abcdefghijk");
            assert_eq!(video_id, "abcdefghijk");
        },
        _ => panic!("the first entry should be analysed"),
    }
    let repeated = rejection(triage_url("https://youtu.be/abcdefghijk", &mut seen));
    assert_eq!(repeated.url, "https://youtu.be/abcdefghijk");
    assert_eq!(repeated.message, "El video está repetido en la lista; se omitió sin consultar YouTube.");
    assert!(!repeated.requires_browser_session);
    assert!(matches!(
        triage_url("https://www.youtube.com/shorts/zyxwvutsrqp", &mut seen),
        UrlTriage::Analyze { .. }
    ));
}

#[test]
fn triage_skips_blanks_and_rejects_foreign_or_idless_links() {
    let mut seen = SeenVideos::new();
    assert!(matches!(triage_url(" \t ", &mut seen), UrlTriage::Skip));
    let foreign = rejection(triage_url("https://example.com/watch?v=abcdefghijk", &mut seen));
    assert_eq!(foreign.message, "URL inválida o no compatible. Usá un enlace de YouTube.");
    let idless = rejection(triage_url("https://www.youtube.com/channel/UCabcdef", &mut seen));
    assert_eq!(idless.message, "No se pudo obtener localmente el ID del video. Usá un enlace directo de YouTube.");
    assert_eq!(idless.url, "https://www.youtube.com/channel/UCabcdef");
}

#[test]
fn answers_without_network_access_carry_their_context() {
    let done = already_downloaded("https://youtu.be/abcdefghijk".to_owned(), "job-7".to_owned());
    assert_eq!(done.existing_download_id.as_deref(), Some("job-7"));
    assert_eq!(
        done.message,
        "Este video ya está descargado y el archivo sigue disponible. No se volvió a consultar YouTube."
    );
    let cooling = cooling_down("u".to_owned(), 1_120, 1_000);
    assert_eq!(cooling.retry_after_epoch, Some(1_120));
    assert!(cooling.message.ends_with("durante 2 minutos."));
    let plain = AnalysisFailure {
        url: "u".to_owned(),
        message: "primer mensaje".to_owned(),
        requires_browser_session: true,
        existing_download_id: None,
        retry_after_epoch: None,
    };
    let unchanged = with_cooldown(plain, None, 0);
    assert_eq!(unchanged.message, "primer mensaje");
    assert!(unchanged.requires_browser_session);
}

// ---------------------------------------------------------------------------
// Automatic analysis
// ---------------------------------------------------------------------------

#[test]
fn automatic_analysis_starts_public_and_retries_once_with_the_token_provider() {
    let mut analysis = AutomaticAnalysis::new();
    assert_eq!(analysis.next_strategy(), Some(YoutubeAccessStrategy::Public));
    assert_eq!(analysis.record_failure(attempt(YoutubeFailureClass::AntiBotChallenge, None)), None);
    assert_eq!(analysis.next_strategy(), Some(YoutubeAccessStrategy::Pot));
    assert_eq!(
        analysis.record_failure(attempt(YoutubeFailureClass::AntiBotChallenge, None)),
        Some(YoutubeFailureClass::AntiBotChallenge)
    );
    assert_eq!(analysis.next_strategy(), None);
    assert_eq!(analysis.attempt_count(), 2);
    let failure = analysis.into_failure("https://youtu.be/abcdefghijk".to_owned());
    assert_eq!(
        failure.message,
        "No se pudo completar la verificación automática de YouTube mediante el acceso público y el verificador local."
    );
    assert!(!failure.requires_browser_session);
}

#[test]
fn content_that_needs_an_account_is_not_retried() {
    let mut analysis = AutomaticAnalysis::new();
    assert_eq!(analysis.record_failure(attempt(YoutubeFailureClass::AccountRequired, Some("x"))), None);
    assert_eq!(analysis.next_strategy(), None);
    let failure = analysis.into_failure("u".to_owned());
    assert!(failure.requires_browser_session);
    assert!(failure.message.starts_with("Este contenido exige una cuenta."));
}

#[test]
fn a_rate_limit_starts_the_cooldown_at_once() {
    let mut analysis = AutomaticAnalysis::new();
    assert_eq!(
        analysis.record_failure(attempt(YoutubeFailureClass::RateLimited, Some("limitado"))),
        Some(YoutubeFailureClass::RateLimited)
    );
    assert_eq!(analysis.next_strategy(), None);
}

#[test]
fn automatic_failure_prefers_terminal_failures_then_the_latest_message() {
    let terminal = automatic_failure(
        "u".to_owned(),
        &[
            attempt(YoutubeFailureClass::AntiBotChallenge, Some("reto")),
            attempt(YoutubeFailureClass::Unavailable, Some("El video no está disponible.")),
        ],
    );
    assert_eq!(terminal.message, "El video no está disponible.");
    let latest = automatic_failure(
        "u".to_owned(),
        &[attempt(YoutubeFailureClass::Other, Some("primero")), attempt(YoutubeFailureClass::Other, None)],
    );
    assert_eq!(latest.message, "primero");
    let provider = automatic_failure("u".to_owned(), &[attempt(YoutubeFailureClass::PotUnavailable, None)]);
    assert_eq!(
        provider.message,
        "El verificador local de YouTube no estuvo disponible. Comprobá la conexión y reintentá."
    );
    let nothing = automatic_failure("u".to_owned(), &[]);
    assert_eq!(nothing.message, "No se pudo obtener la información del video.");
}

// ---------------------------------------------------------------------------
// Failure classification and messages
// ---------------------------------------------------------------------------

#[test]
fn classifies_yt_dlp_errors_case_insensitively() {
    assert_eq!(classify_youtube_failure("ERROR: HTTP Error 429: Too Many Requests"), YoutubeFailureClass::RateLimited);
    assert_eq!(
        classify_youtube_failure("Sign in to confirm you're not a bot"),
        YoutubeFailureClass::AntiBotChallenge
    );
    assert_eq!(
        classify_youtube_failure("Private video. Sign in if you've been granted access"),
        YoutubeFailureClass::AccountRequired
    );
    assert_eq!(classify_youtube_failure("This is a private video"), YoutubeFailureClass::Private);
    assert_eq!(classify_youtube_failure("Video unavailable"), YoutubeFailureClass::Unavailable);
    assert_eq!(classify_youtube_failure("Read timed out"), YoutubeFailureClass::Network);
    assert_eq!(classify_youtube_failure("HTTP Error 403: Forbidden"), YoutubeFailureClass::SessionRejected);
    assert_eq!(classify_youtube_failure("something else"), YoutubeFailureClass::Other);
}

#[test]
fn failure_messages_name_the_browser_and_hide_the_raw_text() {
    let chrome = YoutubeAccessStrategy::Browser { browser: BrowserSession::Chrome, use_pot_provider: false };
    assert_eq!(
        class_failure_message(YoutubeFailureClass::BrowserMissing, &chrome).as_deref(),
        Some("No se encontró una sesión utilizable de Chrome.")
    );
    assert_eq!(
        class_failure_message(YoutubeFailureClass::BrowserMissing, &YoutubeAccessStrategy::Public).as_deref(),
        Some("No se encontró una sesión utilizable de el navegador local.")
    );
    let message = youtube_failure_message(
        "ERROR: could not copy Chrome cookie database C:\\Users\\ana\\AppData",
        &chrome,
    )
    .expect("a locked database has advice");
    assert!(message.starts_with("No se pudo usar la sesión de Chrome"));
    assert!(!message.contains("AppData"));
    assert_eq!(youtube_failure_message("unexpected", &chrome), None);
}

#[test]
fn browsers_and_strategies_have_stable_names() {
    assert_eq!(BrowserSession::parse("brave"), Some(BrowserSession::Brave));
    assert_eq!(BrowserSession::parse("Brave"), None);
    assert_eq!(BrowserSession::Edge.as_str(), "edge");
    assert_eq!(BrowserSession::Firefox.label(), "Firefox");
    let strategy = YoutubeAccessStrategy::Browser { browser: BrowserSession::Firefox, use_pot_provider: true };
    assert_eq!(strategy.diagnostic_name(), "browser_firefox_pot_http");
    assert_eq!(strategy.legacy_fields(), (Some("firefox".to_owned()), true));
    assert_eq!(YoutubeAccessStrategy::Pot.diagnostic_name(), "pot_http");
    assert_eq!(YoutubeAccessStrategy::default(), YoutubeAccessStrategy::Public);
    assert_eq!(YoutubeFailureClass::TimedOut.code(), "timeout");
    assert!(YoutubeFailureClass::PotRequired.warrants_pot());
    assert!(!YoutubeFailureClass::RateLimited.warrants_pot());
}

// ---------------------------------------------------------------------------
// Download queue
// ---------------------------------------------------------------------------

#[test]
fn add_checks_the_request_in_order() {
    let mut queue = DownloadQueue::new();
    let mut bad = request("abcdefghijk", "https://youtu.be/abcdefghijk");
    bad.container = "avi".to_owned();
    assert_eq!(queue.add(bad, "j".to_owned(), "0".to_owned()).err().as_deref(), Some("Contenedor no válido."));
    let mut bad = request("abcdefghijk", "https://youtu.be/abcdefghijk");
    bad.selected_format_id = Some("137 OR 1=1".to_owned());
    assert_eq!(
        queue.add(bad, "j".to_owned(), "0".to_owned()).err().as_deref(),
        Some("El formato seleccionado no es válido.")
    );
    let mut bad = request("abcdefghijk", "https://youtu.be/abcdefghijk");
    bad.browser_session = Some("firefox".to_owned());
    assert_eq!(
        queue.add(bad, "j".to_owned(), "0".to_owned()).err().as_deref(),
        Some("El navegador seleccionado no es compatible.")
    );
    let mut bad = request("abcdefghijk", "https://youtu.be/abcdefghijk");
    bad.destination = "   ".to_owned();
    assert_eq!(
        queue.add(bad, "j".to_owned(), "0".to_owned()).err().as_deref(),
        Some("Faltan datos para agregar la descarga a la cola.")
    );
    let bad = request("abcdefghijk", "https://vimeo.com/12345678");
    assert_eq!(
        queue.add(bad, "j".to_owned(), "0".to_owned()).err().as_deref(),
        Some("La URL no es un enlace de YouTube válido.")
    );
    assert!(queue.jobs().is_empty());
}

#[test]
fn a_video_is_queued_once_while_its_job_is_not_over() {
    let mut queue = DownloadQueue::new();
    let job = queue
        .add(request("abcdefghijk", "https://youtu.be/abcdefghijk"), "job-1".to_owned(), "10".to_owned())
        .expect("a valid request is queued");
    assert_eq!(job.status, DownloadStatus::Queued);
    assert_eq!(job.message.as_deref(), Some("En espera"));
    assert_eq!(job.created_at.as_deref(), Some("10"));
    assert_eq!(
        queue
            .add(request("abcdefghijk", "https://www.youtube.com/watch?v=abcdefghijk"), "job-2".to_owned(), "11".to_owned())
            .err()
            .as_deref(),
        Some("Ese video ya está en la cola.")
    );
    queue.cancel("job-1").expect("the job exists");
    assert!(queue
        .add(request("abcdefghijk", "https://youtu.be/abcdefghijk"), "job-3".to_owned(), "12".to_owned())
        .is_ok());
    assert_eq!(queue.jobs().len(), 2);
}

#[test]
fn the_worker_takes_waiting_jobs_in_order() {
    let mut queue = DownloadQueue::new();
    queue.add(request("aaaaaaaaaaa", "https://youtu.be/aaaaaaaaaaa"), "job-1".to_owned(), "1".to_owned()).unwrap();
    queue.add(request("bbbbbbbbbbb", "https://youtu.be/bbbbbbbbbbb"), "job-2".to_owned(), "2".to_owned()).unwrap();
    assert!(queue.start());
    assert!(!queue.start());
    let first = queue.next_job().expect("a waiting job");
    assert_eq!(first.job_id, "job-1");
    assert_eq!(first.status, DownloadStatus::Downloading);
    assert_eq!(first.message.as_deref(), Some("Iniciando yt-dlp…"));
    let progress = DownloadProgress {
        percent_bits: Some(12.5f64.to_bits()),
        speed_bits: None,
        eta_bits: None,
        downloaded_bytes: 10,
        total_bytes: Some(80),
    };
    queue.record_progress("job-1", progress);
    assert_eq!(queue.find_job("job-1").unwrap().message.as_deref(), Some("Descargando…"));
    queue.mark_processing("job-1");
    assert_eq!(queue.find_job("job-1").unwrap().status, DownloadStatus::Processing);
    let verification = DownloadVerification {
        width: Some(1920),
        height: Some(1080),
        duration_bits: None,
        video_codec: Some("avc1".to_owned()),
        audio_codec: Some("mp4a".to_owned()),
    };
    queue.mark_completed("job-1", "/tmp/videos/a.mp4".to_owned(), verification, "99".to_owned());
    let done = queue.find_job("job-1").unwrap();
    assert_eq!(done.status, DownloadStatus::Completed);
    assert_eq!(done.progress.percent_bits, Some(HUNDRED_PERCENT_BITS));
    assert_eq!(f64::from_bits(HUNDRED_PERCENT_BITS), 100.0);
    let second = queue.next_job().expect("the second job");
    assert_eq!(second.job_id, "job-2");
    assert!(queue.record_failure("job-2", "boom".to_owned()));
    assert_eq!(queue.find_job("job-2").unwrap().error.as_deref(), Some("boom"));
    assert!(queue.next_job().is_none());
    assert!(!queue.worker_running());
}

#[test]
fn a_paused_queue_starts_nothing() {
    let mut queue = DownloadQueue::new();
    queue.add(request("aaaaaaaaaaa", "https://youtu.be/aaaaaaaaaaa"), "job-1".to_owned(), "1".to_owned()).unwrap();
    queue.pause();
    assert!(queue.paused());
    assert!(queue.next_job().is_none());
    assert_eq!(queue.find_job("job-1").unwrap().status, DownloadStatus::Queued);
    queue.resume();
    assert!(!queue.paused());
}

#[test]
fn start_one_runs_a_single_waiting_job() {
    let mut queue = DownloadQueue::new();
    queue.add(request("aaaaaaaaaaa", "https://youtu.be/aaaaaaaaaaa"), "job-1".to_owned(), "1".to_owned()).unwrap();
    queue.add(request("bbbbbbbbbbb", "https://youtu.be/bbbbbbbbbbb"), "job-2".to_owned(), "2".to_owned()).unwrap();
    assert_eq!(queue.start_one("job-9").err().as_deref(), Some("No se encontró la descarga."));
    let started = queue.start_one("job-2").expect("a waiting job starts");
    assert_eq!(started.status, DownloadStatus::Downloading);
    assert_eq!(queue.find_job("job-1").unwrap().status, DownloadStatus::Queued);
    assert_eq!(queue.start_one("job-1").err().as_deref(), Some("Ya hay una descarga en curso."));
    queue.release_worker();
    assert_eq!(
        queue.start_one("job-2").err().as_deref(),
        Some("Solo se puede iniciar una descarga que está en espera.")
    );
}

#[test]
fn a_cancelled_job_is_not_reported_as_failed() {
    let mut queue = DownloadQueue::new();
    queue.add(request("aaaaaaaaaaa", "https://youtu.be/aaaaaaaaaaa"), "job-1".to_owned(), "1".to_owned()).unwrap();
    let cancelled = queue.cancel("job-1").unwrap();
    assert_eq!(cancelled.status, DownloadStatus::Cancelled);
    assert_eq!(cancelled.message.as_deref(), Some("Cancelado"));
    assert!(queue.is_cancelled("job-1"));
    assert!(!queue.record_failure("job-1", "killed".to_owned()));
    assert_eq!(queue.find_job("job-1").unwrap().status, DownloadStatus::Cancelled);
    assert_eq!(queue.cancel("nope").err().as_deref(), Some("No se encontró la descarga."));
}

#[test]
fn cancel_all_leaves_nothing_waiting_or_running_and_pauses() {
    let mut queue = DownloadQueue::new();
    queue.add(request("aaaaaaaaaaa", "https://youtu.be/aaaaaaaaaaa"), "job-1".to_owned(), "1".to_owned()).unwrap();
    queue.add(request("bbbbbbbbbbb", "https://youtu.be/bbbbbbbbbbb"), "job-2".to_owned(), "2".to_owned()).unwrap();
    queue.add(request("ccccccccccc", "https://youtu.be/ccccccccccc"), "job-3".to_owned(), "3".to_owned()).unwrap();
    queue.start();
    queue.next_job().unwrap();
    queue.record_failure("job-1", "x".to_owned());
    assert_eq!(queue.cancellable_ids(), vec!["job-2".to_owned(), "job-3".to_owned()]);
    let ids = queue.cancel_all();
    assert_eq!(ids, vec!["job-2".to_owned(), "job-3".to_owned()]);
    assert!(queue.paused());
    assert_eq!(queue.find_job("job-1").unwrap().status, DownloadStatus::Failed);
    assert_eq!(queue.find_job("job-2").unwrap().status, DownloadStatus::Cancelled);
    assert_eq!(queue.find_job("job-3").unwrap().status, DownloadStatus::Cancelled);
    assert!(queue.jobs().iter().all(|job| !job.status.active()));
}

#[test]
fn clear_finished_waits_for_the_queue_to_drain() {
    let mut queue = DownloadQueue::new();
    queue.add(request("aaaaaaaaaaa", "https://youtu.be/aaaaaaaaaaa"), "job-1".to_owned(), "1".to_owned()).unwrap();
    let refusal = "Esperá a que terminen o cancelá las descargas pendientes antes de limpiar la sesión.";
    assert_eq!(queue.clear_finished().err().as_deref(), Some(refusal));
    queue.cancel("job-1").unwrap();
    assert!(queue.start());
    assert_eq!(queue.clear_finished().err().as_deref(), Some(refusal));
    queue.release_worker();
    assert!(queue.clear_finished().is_ok());
    assert!(queue.jobs().is_empty());
}

#[test]
fn retry_requeues_only_failed_or_cancelled_jobs() {
    let mut queue = DownloadQueue::new();
    queue.add(request("aaaaaaaaaaa", "https://youtu.be/aaaaaaaaaaa"), "job-1".to_owned(), "1".to_owned()).unwrap();
    assert_eq!(
        queue.retry("job-1").err().as_deref(),
        Some("Solo se pueden reintentar descargas canceladas o fallidas.")
    );
    assert_eq!(queue.retry("job-9").err().as_deref(), Some("No se encontró la descarga."));
    queue.record_failure("job-1", "boom".to_owned());
    assert_eq!(queue.retry("job-1"), Ok(true));
    let job = queue.find_job("job-1").unwrap();
    assert_eq!(job.status, DownloadStatus::Queued);
    assert_eq!(job.error, None);
    assert_eq!(job.message.as_deref(), Some("En espera"));
    queue.cancel("job-1").unwrap();
    queue.pause();
    assert_eq!(queue.retry("job-1"), Ok(false));
}

#[test]
fn format_selectors_never_fall_back_to_another_height() {
    assert_eq!(requested_format_selector(None, None, Some(1440), false), "bv*[height=1440]+ba");
    assert_eq!(requested_format_selector(None, None, None, false), "bv*+ba/b");
    assert_eq!(requested_format_selector(Some("22"), Some(true), Some(720), false), "22");
    assert_eq!(requested_format_selector(Some("137"), None, Some(1080), true), "137+ba");
    let job = job_of(request("abcdefghijk", "https://youtu.be/abcdefghijk"));
    assert_eq!(format_selector(&job), "137+ba");
    assert!(valid_container("webm"));
    assert!(!valid_container("MP4"));
    assert!(valid_format_id("hls-1080p_a.b"));
    assert!(!valid_format_id(""));
    assert!(!valid_format_id(&"a".repeat(97)));
}

// ---------------------------------------------------------------------------
// Formats and resolutions
// ---------------------------------------------------------------------------

#[test]
fn quality_labels_carry_the_usual_badges() {
    assert_eq!(quality_label(4320), "4320p · 8K");
    assert_eq!(quality_label(2160), "2160p · 4K");
    assert_eq!(quality_label(1080), "1080p · Full HD");
    assert_eq!(quality_label(480), "480p");
    let mut f = format("299", 1088, 60.0, false);
    f.width = Some(1920);
    f.format_note = Some(" 1080p ".to_owned());
    assert_eq!(source_quality_label(&f, 1088), "1080p (1920 × 1088 px)");
    f.format_note = Some("720p".to_owned());
    assert_eq!(source_quality_label(&f, 720), "720p · HD");
    f.format_note = Some("1080p60".to_owned());
    assert_eq!(source_quality_label(&f, 1080), "1080p · Full HD");
    let mut sized = format("1", 360, 30.0, false);
    sized.width = None;
    assert_eq!(sized.resolution_label(), "tamaño informado por la fuente");
}

#[test]
fn the_best_format_prefers_frame_rate_then_audio_then_identifier() {
    let formats = vec![format("a", 1080, 30.0, true), format("b", 1080, 60.0, false), format("c", 1080, 60.0, true)];
    assert_eq!(best_format(&formats), 2);
    let ties = vec![format("b", 720, 30.0, false), format("a", 720, 30.0, false)];
    assert_eq!(best_format(&ties), 0);
    assert_eq!(compare_floats(Some(f64::NAN.to_bits()), Some(1.0f64.to_bits())), Preference::Equal);
    assert_eq!(compare_floats(None, Some((-1.0f64).to_bits())), Preference::Less);
    assert_eq!(compare_floats(Some((-0.0f64).to_bits()), Some(0.0f64.to_bits())), Preference::Equal);
    assert_eq!(compare_floats(Some((-2.0f64).to_bits()), Some((-1.0f64).to_bits())), Preference::Less);
}

#[test]
fn analysis_lists_usable_formats_by_height_from_the_highest_down() {
    let mut storyboard = raw("sb0", 90, 1.0, Some("Storyboard"));
    storyboard.vcodec = Some("images".to_owned());
    let mut drm = raw("drm", 2160, 30.0, None);
    drm.has_drm = Some(true);
    let mut no_url = raw("nourl", 1440, 30.0, None);
    no_url.url = Some("  ".to_owned());
    let mut audio_only = raw("140", 0, 0.0, None);
    audio_only.vcodec = Some("none".to_owned());
    let video = video_with(vec![
        raw("136", 720, 30.0, None),
        raw("299", 1080, 60.0, None),
        raw("299-sr", 1080, 60.0, None),
        raw("137", 1080, 30.0, None),
        storyboard,
        drm,
        no_url,
        audio_only,
    ]);
    assert_eq!(video.title, "Video sin título");
    assert_eq!(video.channel.as_deref(), Some("Subidor"));
    assert_eq!(video.thumbnail, None);
    assert_eq!(video.access_strategy, YoutubeAccessStrategy::Public);
    let ids: Vec<&str> = video.formats.iter().map(|f| f.id.as_str()).collect();
    assert_eq!(ids, vec!["136", "299", "137"]);
    let heights: Vec<u32> = video.qualities.iter().map(|q| q.height).collect();
    assert_eq!(heights, vec![1080, 720]);
    assert_eq!(video.qualities[0].format_id, "299");
    assert_eq!(video.qualities[0].label, "1080p · Full HD");
    assert_eq!(video.qualities[0].video_formats.len(), 2);
}

#[test]
fn metadata_without_an_identifier_is_refused() {
    let mut meta = metadata(vec![]);
    meta.id = None;
    assert_eq!(
        analyzed_video("u".to_owned(), meta).err().as_deref(),
        Some("No se pudo determinar el ID del video.")
    );
}

#[test]
fn the_download_source_keeps_the_required_height_exactly() {
    let video = video_with(vec![raw("136", 720, 30.0, None), raw("299", 1080, 60.0, None), raw("137", 1080, 30.0, None)]);
    let best = choose_download_source(&video, Some(1080), None).expect("1080p is offered");
    assert_eq!(best.format_id.as_deref(), Some("299"));
    assert_eq!(best.format_has_audio, Some(false));
    let other = choose_download_source(&video, Some(1080), Some("299")).expect("another 1080p source");
    assert_eq!(other.format_id.as_deref(), Some("137"));
    assert_eq!(
        choose_download_source(&video, Some(1440), None).err().as_deref(),
        Some("La fuente ya no ofrece la calidad exacta de 1440p; no se descargó una resolución inferior.")
    );
    assert_eq!(
        choose_download_source(&video, Some(720), Some("136")).err().as_deref(),
        Some("No queda otra fuente utilizable para 720p; no se descargó una resolución inferior. Elegí otra resolución y volvé a intentarlo.")
    );
    let top = choose_download_source(&video, None, None).unwrap();
    assert_eq!(top.format_id.as_deref(), Some("299"));
    let empty = video_with(vec![]);
    let any = choose_download_source(&empty, None, None).unwrap();
    assert_eq!(any.format_id, None);
}

// ---------------------------------------------------------------------------
// Engines and diagnostics
// ---------------------------------------------------------------------------

#[test]
fn missing_engines_are_named_in_order() {
    let none = EnginePaths { yt_dlp: None, ffmpeg: None, ffprobe: None, deno: None };
    assert_eq!(
        none.required_for_youtube().err().as_deref(),
        Some("Motor incompleto: falta yt-dlp, ffmpeg, ffprobe, deno.")
    );
    let only_deno = EnginePaths {
        yt_dlp: Some(PathBuf::from("yt-dlp")),
        ffmpeg: Some(PathBuf::from("ffmpeg")),
        ffprobe: Some(PathBuf::from("ffprobe")),
        deno: None,
    };
    assert_eq!(only_deno.required_for_youtube().err().as_deref(), Some("Motor incompleto: falta deno."));
    let all = EnginePaths {
        yt_dlp: Some(PathBuf::from("a")),
        ffmpeg: Some(PathBuf::from("b")),
        ffprobe: Some(PathBuf::from("c")),
        deno: Some(PathBuf::from("d")),
    };
    assert!(all.required_for_youtube().is_ok());
}

#[test]
fn the_token_provider_is_reached_on_the_loopback_interface() {
    assert_eq!(provider_base_url(4416), "http://127.0.0.1:4416");
    assert_eq!(ping_request(80), "GET /ping HTTP/1.1\r\nHost: 127.0.0.1:80\r\nConnection: close\r\n\r\n");
    assert!(provider_response_ok("HTTP/1.1 200 OK\r\n\r\n{\"version\":\"1.3.1\"}"));
    assert!(!provider_response_ok("HTTP/1.1 200 OK\r\n\r\n{\"version\":\"1.2.0\"}"));
    assert!(!provider_response_ok("HTTP/1.1 500 Error\r\n\r\n1.3.1"));
}

#[test]
fn diagnostic_lines_stay_on_one_line_and_are_bounded() {
    assert!(!needs_rotation(None));
    assert!(!needs_rotation(Some(524_287)));
    assert!(needs_rotation(Some(524_288)));
    assert_eq!(sanitize_event("a\r\nb\tc"), "a  b c");
    assert_eq!(sanitize_event(&"x".repeat(700)).chars().count(), 600);
    assert_eq!(diagnostic_line(12, "uno\ndos"), "12 uno dos");
    assert_eq!(
        analysis_event(&YoutubeAccessStrategy::Public, 1500, "ok", "2024.12.13"),
        "component=analysis strategy=public duration_ms=1500 outcome=ok engine=2024.12.13"
    );
    assert_eq!(
        cooldown_event("anti_bot"),
        "component=traffic action=cooldown reason=anti_bot duration_seconds=1800"
    );
}

#[test]
fn engine_probes_report_the_first_line_of_their_output() {
    let ok = probe_report(
        "yt-dlp",
        Some("/opt/yt-dlp".to_owned()),
        ProbeOutcome::Finished { success: true, stdout: b"  2024.12.13\r\nextra\n".to_vec(), stderr: vec![] },
    );
    assert_eq!(ok.state, "available");
    assert_eq!(ok.version.as_deref(), Some("2024.12.13"));
    assert_eq!(ok.path.as_deref(), Some("/opt/yt-dlp"));
    let failed = probe_report(
        "ffmpeg",
        None,
        ProbeOutcome::Finished { success: false, stdout: vec![], stderr: b"\xffbad\nmore".to_vec() },
    );
    assert_eq!(failed.state, "unavailable");
    assert_eq!(failed.detail.as_deref(), Some("\u{FFFD}bad"));
    let silent = probe_report("deno", None, ProbeOutcome::Finished { success: false, stdout: vec![], stderr: vec![] });
    assert_eq!(silent.detail.as_deref(), Some("El motor no respondió correctamente."));
    let missing = probe_report("ffprobe", None, ProbeOutcome::Missing);
    assert_eq!(missing.detail.as_deref(), Some("No se encontró el sidecar incluido en la aplicación."));
    let spawn = probe_report("ffprobe", None, ProbeOutcome::SpawnFailed);
    assert_eq!(spawn.detail.as_deref(), Some("No se pudo iniciar el sidecar local."));
}

#[test]
fn the_engine_version_is_trimmed_and_bounded() {
    assert_eq!(yt_dlp_version(true, &b" 2024.12.13 \n".to_vec()), "2024.12.13");
    assert_eq!(yt_dlp_version(true, &vec![b'7'; 40]), "7".repeat(32));
    assert_eq!(yt_dlp_version(true, &b"\xff\xfe".to_vec()), "unknown");
    assert_eq!(yt_dlp_version(true, &b"   ".to_vec()), "unknown");
    assert_eq!(yt_dlp_version(false, &b"2024.12.13".to_vec()), "unknown");
}

#[test]
fn sidecars_are_looked_for_under_two_names() {
    assert_eq!(
        sidecar_names("yt-dlp", "x86_64-pc-windows-msvc", true),
        ("yt-dlp-x86_64-pc-windows-msvc.exe".to_owned(), "yt-dlp.exe".to_owned())
    );
    assert_eq!(
        sidecar_names("deno", "x86_64-unknown-linux-gnu", false),
        ("deno-x86_64-unknown-linux-gnu".to_owned(), "deno".to_owned())
    );
    assert!(alias_up_to_date(true, Some(10), Some(10)));
    assert!(!alias_up_to_date(true, Some(10), Some(11)));
    assert!(!alias_up_to_date(false, Some(10), Some(10)));
}

// ---------------------------------------------------------------------------
// Command lines
// ---------------------------------------------------------------------------

#[test]
fn access_arguments_read_a_browser_only_when_the_strategy_names_one() {
    let mut args = vec!["x".to_owned()];
    configure_youtube_access(&mut args, &YoutubeAccessStrategy::Public);
    configure_youtube_access(&mut args, &YoutubeAccessStrategy::Pot);
    assert_eq!(texts(&args), vec!["x"]);
    configure_youtube_access(
        &mut args,
        &YoutubeAccessStrategy::Browser { browser: BrowserSession::Edge, use_pot_provider: false },
    );
    assert_eq!(texts(&args), vec!["x", "--cookies-from-browser", "edge"]);
    let mut pot = Vec::new();
    configure_pot_provider(&mut pot, "/plugins", "http://127.0.0.1:4416");
    assert_eq!(
        texts(&pot),
        vec![
            "--plugin-dirs",
            "/plugins",
            "--extractor-args",
            "youtube:player_client=mweb",
            "--extractor-args",
            "youtubepot-bgutilhttp:base_url=http://127.0.0.1:4416",
        ]
    );
    let env = provider_environment("/deno", "/cache");
    assert_eq!(env[0], ("DENO_DIR".to_owned(), "/deno".to_owned()));
    assert_eq!(env[3], ("DENO_NO_UPDATE_CHECK".to_owned(), "1".to_owned()));
}

#[test]
fn analysis_commands_end_with_the_url() {
    let args = analysis_command(
        "/ffmpeg",
        "/deno/deno",
        &YoutubeAccessStrategy::Pot,
        Some(("/plugins", "http://127.0.0.1:4416")),
        "https://youtu.be/abcdefghijk",
    );
    let args = texts(&args);
    assert_eq!(args[0], "--ignore-config");
    assert_eq!(args[11], "deno:/deno/deno");
    assert_eq!(&args[12..18], &["--sleep-requests", "1.5", "--extractor-retries", "1", "--retry-sleep", "extractor:8"]);
    assert_eq!(args[18], "--plugin-dirs");
    assert_eq!(args.last().copied(), Some("https://youtu.be/abcdefghijk"));
    assert_eq!(args.len(), 25);
    let public = analysis_command("/f", "/d", &YoutubeAccessStrategy::Public, None, "u");
    assert_eq!(public.len(), 19);
    assert!(!public.iter().any(|a| a == "--cookies-from-browser"));
}

#[test]
fn download_commands_carry_the_exact_selector_and_container() {
    let job = job_of(request("abcdefghijk", "https://youtu.be/abcdefghijk"));
    let args = download_command("/tmp/videos", "/ffmpeg", "/deno", &job);
    let args = texts(&args);
    assert_eq!(&args[2..4], &["--no-playlist", "--force-ipv4"]);
    assert_eq!(args[11], "/tmp/videos");
    assert_eq!(args[18], "--extractor-args");
    assert_eq!(args[19], "youtube:player_client=android_vr");
    assert_eq!(args[20], "--format");
    assert_eq!(args[21], "137+ba");
    assert_eq!(args[26], "--print");
    assert_eq!(args[27], "after_move:__YTDM_FILE__%(filepath)j");
    assert_eq!(args[28], "https://youtu.be/abcdefghijk");
    assert_eq!(&args[29..], &["--merge-output-format", "mp4"]);
    let mut auto = request("abcdefghijk", "https://youtu.be/abcdefghijk");
    auto.container = "auto".to_owned();
    auto.browser_session = Some("chrome".to_owned());
    let args = download_command("/d", "/f", "/x", &job_of(auto));
    let args = texts(&args);
    assert_eq!(&args[18..22], &["--cookies-from-browser", "chrome", "--extractor-args", "youtube:player_client=web_safari"]);
    assert_eq!(args.last().copied(), Some("https://youtu.be/abcdefghijk"));
    assert_eq!(texts(&terminate_arguments(4321)), vec!["/PID", "4321", "/T", "/F"]);
}

// ---------------------------------------------------------------------------
// Output of yt-dlp and ffprobe
// ---------------------------------------------------------------------------

#[test]
fn output_lines_are_read_by_their_markers() {
    match classify_output_line("__YTDM_FILE__ \"C:\\\\videos\\\\a \\u00e9.mp4\" ") {
        OutputLine::FinalPath(path) => assert_eq!(path, "C:\\videos\\a é.mp4"),
        _ => panic!("the final path should be decoded"),
    }
    assert!(matches!(classify_output_line("__YTDM_FILE__not json"), OutputLine::Other));
    assert!(matches!(classify_output_line("__YTDM_POSTPROCESS__started"), OutputLine::Processing));
    match classify_output_line("__YTDM_PROGRESS__downloading\t 50.0%\tNA\tNA\t2048\t1024.5\t3") {
        OutputLine::Progress(fields) => {
            assert_eq!(fields.percent_text, "50.0");
            assert_eq!(fields.downloaded_bytes, 0);
            assert_eq!(fields.total_bytes, Some(2048));
            assert_eq!(fields.speed_text, "1024.5");
        },
        _ => panic!("a progress line should be read"),
    }
    assert!(matches!(classify_output_line("__YTDM_PROGRESS__short\t1"), OutputLine::Other));
    assert!(matches!(classify_output_line("[youtube] abc: Downloading"), OutputLine::Other));
    assert!(is_diagnostic_line("ERROR: boom"));
    assert!(!is_diagnostic_line("__YTDM_POSTPROCESS__x"));
}

#[test]
fn failed_downloads_report_their_diagnostics_or_a_generic_error() {
    assert_eq!(download_failure_message("  ERROR: boom \n"), "ERROR: boom");
    assert_eq!(download_failure_message(" \n "), "yt-dlp no pudo completar la descarga.");
    assert_eq!(parse_bytes(Some(" 12 ")), Some(12));
    assert_eq!(parse_bytes(Some("1.5")), None);
    assert_eq!(parse_bytes(Some("18446744073709551616")), None);
    assert_eq!(parse_bytes(None), None);
}

#[test]
fn the_final_file_must_have_video_and_audio_at_the_requested_height() {
    let streams = vec![
        ProbeStream { codec_type: Some("audio".to_owned()), codec_name: Some("opus".to_owned()), width: None, height: None },
        ProbeStream { codec_type: Some("video".to_owned()), codec_name: Some("vp9".to_owned()), width: Some(1920), height: Some(1080) },
        ProbeStream { codec_type: Some("video".to_owned()), codec_name: Some("mjpeg".to_owned()), width: Some(10), height: Some(10) },
    ];
    let v = verification_from_streams(&streams, Some(3.5f64.to_bits()));
    assert_eq!(v.video_codec.as_deref(), Some("vp9"));
    assert_eq!(v.audio_codec.as_deref(), Some("opus"));
    assert_eq!((v.width, v.height), (Some(1920), Some(1080)));
    assert!(check_verification(&v, Some(1080)).is_ok());
    assert!(check_verification(&v, None).is_ok());
    assert_eq!(
        check_verification(&v, Some(2160)).err().as_deref(),
        Some("La verificación final informó 1080p, no la calidad solicitada de 2160p.")
    );
    let video_only = vec![ProbeStream {
        codec_type: Some("video".to_owned()),
        codec_name: Some("vp9".to_owned()),
        width: Some(1920),
        height: Some(1080),
    }];
    let silent = verification_from_streams(&video_only, None);
    assert_eq!(
        check_verification(&silent, Some(1080)).err().as_deref(),
        Some("El archivo final no contiene video y audio válidos.")
    );
}

#[test]
fn history_entries_describe_the_completed_job() {
    let mut req = request("abcdefghijk", "https://youtu.be/abcdefghijk");
    let entry = history_entry(&job_of(req.clone()), "/tmp/videos/a.mp4".to_owned(), 1_700_000_000);
    assert_eq!(entry.id, "job-1");
    assert_eq!(entry.resolution, "1080p");
    assert_eq!(entry.container, "mp4");
    assert_eq!(entry.downloaded_at, 1_700_000_000);
    req.quality_height = None;
    assert_eq!(history_entry(&job_of(req), "f".to_owned(), 0).resolution, "Mejor calidad");
    assert_eq!(history_not_saved_message("disco lleno"), "Completado; historial no guardado: disco lleno");
    assert_eq!(job_id(0), "job-0");
    assert_eq!(job_id(1_700_000_000_123_456_789), "job-1700000000123456789");
}

// ---------------------------------------------------------------------------
// URLs and text
// ---------------------------------------------------------------------------

#[test]
fn video_identifiers_come_from_the_known_link_shapes() {
    assert_eq!(youtube_video_id("https://youtu.be/abcdefghijk?t=3").as_deref(), Some("abcdefghijk"));
    assert_eq!(youtube_video_id("https://www.youtube.com/shorts/abcdefghijk").as_deref(), Some("abcdefghijk"));
    assert_eq!(youtube_video_id("https://m.youtube.com/embed/abcdefghijk").as_deref(), Some("abcdefghijk"));
    assert_eq!(youtube_video_id("https://youtube.com/?v=abcdefghijk").as_deref(), Some("abcdefghijk"));
    assert_eq!(youtube_video_id("https://www.youtube.com/watch?v=abc"), None);
    assert_eq!(youtube_video_id("https://www.youtube.com/playlist?list=abcdefghijk"), None);
    assert_eq!(youtube_video_id("not a url"), None);
    assert!(is_supported_youtube_url(" https://music.youtube.com/watch?v=abcdefghijk "));
    assert!(!is_supported_youtube_url("ftp://youtube.com/watch?v=abcdefghijk"));
    assert_eq!(safe_http_url(Some("https://i.ytimg.com/vi/a/hq.jpg".to_owned())).as_deref(), Some("https://i.ytimg.com/vi/a/hq.jpg"));
    assert_eq!(safe_http_url(Some("javascript:alert(1)".to_owned())), None);
    assert_eq!(safe_http_url(None), None);
}

#[test]
fn text_helpers_trim_and_read_numbers_exactly() {
    let trimmed: String = trim_chars(&chars_of("\u{3000} hola \n")).into_iter().collect();
    assert_eq!(trimmed, "hola");
    assert_eq!(parse_u64_chars(&chars_of("18446744073709551615")), Some(u64::MAX));
    assert_eq!(parse_u64_chars(&chars_of("18446744073709551616")), None);
    assert_eq!(parse_u64_chars(&chars_of("")), None);
    assert_eq!(parse_u64_chars(&chars_of("+1")), Some(1));
    assert_eq!(parse_u64_chars(&chars_of("+")), None);
    assert_eq!(parse_u64_chars(&chars_of("-1")), None);
    assert_eq!(decimal_string(0), "0");
    assert_eq!(decimal_string(907), "907");
}

#[test]
fn the_token_provider_server_is_confined_to_its_own_directories() {
    let args = provider_server_arguments("/p/server/node_modules", "/p/cache/tok", "/p/server", "/p/server/src/main.ts", 4416);
    assert_eq!(
        texts(&args),
        vec![
            "run",
            "--allow-env",
            "--allow-net",
            "--allow-ffi=/p/server/node_modules",
            "--allow-write=/p/cache/tok",
            "--allow-read=/p/server,/p/cache/tok",
            "/p/server/src/main.ts",
            "--host",
            "127.0.0.1",
            "--port",
            "4416",
        ]
    );
    assert_eq!(texts(&provider_install_arguments()), vec!["install", "--allow-scripts=npm:canvas", "--frozen"]);
}

#[test]
fn a_final_file_must_lie_inside_the_destination() {
    let parts = |items: &[&str]| items.iter().map(|s| s.to_string()).collect::<Vec<String>>();
    assert!(contained_in(&parts(&["/", "home", "ana", "Videos", "a.mp4"]), &parts(&["/", "home", "ana", "Videos"])));
    assert!(contained_in(&parts(&["/", "home"]), &parts(&["/", "home"])));
    assert!(!contained_in(&parts(&["/", "home", "ana", "Videos2", "a.mp4"]), &parts(&["/", "home", "ana", "Videos"])));
    assert!(!contained_in(&parts(&["/", "home"]), &parts(&["/", "home", "ana"])));
}

#[test]
fn switching_the_source_keeps_the_rest_of_the_job() {
    let mut queue = DownloadQueue::new();
    queue.add(request("aaaaaaaaaaa", "https://youtu.be/aaaaaaaaaaa"), "job-1".to_owned(), "1".to_owned()).unwrap();
    let job = queue.switch_source("job-1", Some("299".to_owned()), Some(false)).expect("the job exists");
    assert_eq!(job.request.selected_format_id.as_deref(), Some("299"));
    assert_eq!(job.request.quality_height, Some(1080));
    assert_eq!(job.status, DownloadStatus::Queued);
    assert_eq!(format_selector(&job), "299+ba");
    assert!(queue.switch_source("job-2", None, None).is_none());
}

#[test]
fn a_failed_attempt_keeps_only_the_class_and_its_safe_message() {
    let edge = YoutubeAccessStrategy::Browser { browser: BrowserSession::Edge, use_pot_provider: false };
    let failure = failed_attempt(
        &b"ERROR: Could not copy Chrome cookie database \xff C:\\Users\\ana\\Cookies".to_vec(),
        &edge,
    );
    assert_eq!(failure.class, YoutubeFailureClass::CookieDatabaseLocked);
    let message = failure.message.expect("a locked database has advice");
    assert!(message.starts_with("No se pudo usar la sesión de Edge"));
    assert!(!message.contains("Users"));
    let other = failed_attempt(&b"\xfe\xff something".to_vec(), &YoutubeAccessStrategy::Public);
    assert_eq!(other.class, YoutubeFailureClass::Other);
    assert_eq!(other.message, None);
}

#[test]
fn a_failed_source_is_retried_once_at_the_same_height() {
    let job = job_of(request("abcdefghijk", "https://youtu.be/abcdefghijk"));
    assert!(matches!(after_download_attempt(&job, false, Ok(()), false), AfterAttempt::Done));
    match after_download_attempt(&job, false, Err("boom".to_owned()), false) {
        AfterAttempt::RetryOtherSource { required_height, excluded_format_id } => {
            assert_eq!(required_height, Some(1080));
            assert_eq!(excluded_format_id, "137");
        },
        _ => panic!("the first failure of a chosen source is retried"),
    }
    assert!(matches!(
        after_download_attempt(&job, true, Err("again".to_owned()), false),
        AfterAttempt::Fail(e) if e == "again"
    ));
    assert!(matches!(
        after_download_attempt(&job, false, Err("Descarga cancelada.".to_owned()), true),
        AfterAttempt::Fail(_)
    ));
    let mut plain = request("abcdefghijk", "https://youtu.be/abcdefghijk");
    plain.selected_format_id = None;
    assert!(matches!(
        after_download_attempt(&job_of(plain), false, Err("x".to_owned()), false),
        AfterAttempt::Fail(_)
    ));
}

#[test]
fn a_refused_download_waits_out_the_cooldown_once() {
    assert!(matches!(download_turn(None, false), TurnDecision::Proceed));
    assert!(matches!(download_turn(None, true), TurnDecision::Proceed));
    assert!(matches!(download_turn(Some("espera".to_owned()), false), TurnDecision::WaitOutCooldown));
    assert!(matches!(download_turn(Some("espera".to_owned()), true), TurnDecision::Refused(m) if m == "espera"));
}

#[test]
fn local_answers_come_before_the_network() {
    let mut checks = UrlChecks::new(false);
    assert!(matches!(next_url_action(&checks), UrlAction::LookUpHistory));
    checks.history = Some(Some("job-3".to_owned()));
    assert!(matches!(next_url_action(&checks), UrlAction::AnswerDownloaded(id) if id == "job-3"));
    checks.history = Some(None);
    assert!(matches!(next_url_action(&checks), UrlAction::LookUpCache));
    checks.cached = Some(true);
    assert!(matches!(next_url_action(&checks), UrlAction::UseCached));
    checks.cached = Some(false);
    assert!(matches!(next_url_action(&checks), UrlAction::CheckCooldown));
    checks.cooldown = Some(Some(99));
    assert!(matches!(next_url_action(&checks), UrlAction::AnswerCoolingDown(99)));
    checks.cooldown = Some(None);
    assert!(matches!(next_url_action(&checks), UrlAction::Analyze));
    let ignoring = UrlChecks::new(true);
    assert!(matches!(next_url_action(&ignoring), UrlAction::LookUpCache));
}

#[test]
fn parsed_urls_give_the_video_and_the_host_test() {
    let parts = |scheme: &str, host: &str, segments: &[&str], query: &[(&str, &str)]| UrlParts {
        scheme: scheme.to_owned(),
        host: Some(host.to_owned()),
        segments: Some(segments.iter().map(|s| s.to_string()).collect()),
        query: query.iter().map(|(k, v)| (k.to_string(), v.to_string())).collect(),
    };
    let watch = parts("https", "WWW.YouTube.com", &["watch"], &[("t", "3"), ("v", " abcdefghijk ")]);
    assert!(supported_parts(&watch));
    assert_eq!(video_id_of_parts(&watch).as_deref(), Some("abcdefghijk"));
    let short = parts("http", "youtu.be", &["", "zyxwvutsrqp"], &[]);
    assert!(supported_parts(&short));
    assert_eq!(video_id_of_parts(&short).as_deref(), Some("zyxwvutsrqp"));
    let live = parts("https", "m.youtube.com", &["live", "abc"], &[]);
    assert_eq!(video_id_of_parts(&live), None);
    let foreign = parts("https", "youtube.com.evil.example", &["watch"], &[("v", "abcdefghijk")]);
    assert!(!supported_parts(&foreign));
    assert_eq!(video_id_of_parts(&foreign), None);
    assert!(!supported_parts(&parts("ftp", "youtube.com", &[], &[])));
}

#[test]
fn a_stored_video_survives_other_uses_until_it_expires() {
    let mut cache = AnalysisCache::new();
    let mut v = video_with(vec![raw("137", 1080, 30.0, None)]);
    v.title = "Guardado".to_owned();
    let mut other = video_with(vec![raw("136", 720, 30.0, None)]);
    other.id = "zzzzzzzzzzz".to_owned();
    cache.cache_analysis(v, 5_000);
    cache.cache_analysis(other, 6_000);
    assert!(cache.cached_analysis("zzzzzzzzzzz", "u", 7_000).is_some());
    assert!(cache.cached_analysis("nothing-here", "u", 8_000).is_none());
    let hit = cache.cached_analysis("abcdefghijk", "https://youtu.be/abcdefghijk", 5_000 + 1_799_999).expect("fresh");
    assert_eq!(hit.title, "Guardado");
    assert_eq!(hit.url, "https://youtu.be/abcdefghijk");
    assert!(cache.cached_analysis("abcdefghijk", "u", 5_000 + 1_800_000).is_none());
}
