use vstd::prelude::*;

use crate::analysis::{copy_opt, opt_text};
use crate::text::{
    chars_of, decimal, eq_lit, is_ascii_alnum, owned, push_decimal, string_from_chars, trim_chars,
    trim_text,
};
use crate::youtube_url::{supported_youtube_url, valid_youtube_url};

verus! {

/// The life cycle of a queued download.
#[derive(Debug, Clone, Copy, PartialEq, Eq, Structural)]
pub enum DownloadStatus {
    Pending,
    Analyzing,
    Ready,
    Queued,
    Downloading,
    Processing,
    Completed,
    Failed,
    Cancelled,
}

/// Waiting to be downloaded.
pub open spec fn is_waiting(s: DownloadStatus) -> bool {
    s == DownloadStatus::Queued || s == DownloadStatus::Pending
}

/// Waiting or under way.
pub open spec fn is_active(s: DownloadStatus) -> bool {
    s == DownloadStatus::Queued || s == DownloadStatus::Pending || s == DownloadStatus::Downloading
        || s == DownloadStatus::Processing
}

/// Over, one way or the other.
pub open spec fn is_finished(s: DownloadStatus) -> bool {
    s == DownloadStatus::Completed || s == DownloadStatus::Failed || s == DownloadStatus::Cancelled
}

impl DownloadStatus {
    /// Waiting to be downloaded.
    pub fn waiting(self) -> (r: bool)
        ensures
            r == is_waiting(self),
    {
        match self {
            DownloadStatus::Queued | DownloadStatus::Pending => true,
            _ => false,
        }
    }

    /// Waiting or under way.
    pub fn active(self) -> (r: bool)
        ensures
            r == is_active(self),
    {
        match self {
            DownloadStatus::Queued | DownloadStatus::Pending | DownloadStatus::Downloading
            | DownloadStatus::Processing => true,
            _ => false,
        }
    }

    /// Over, one way or the other.
    pub fn finished(self) -> (r: bool)
        ensures
            r == is_finished(self),
    {
        match self {
            DownloadStatus::Completed | DownloadStatus::Failed | DownloadStatus::Cancelled => true,
            _ => false,
        }
    }
}

/// What the user asked to download.
#[derive(Debug, Clone)]
pub struct DownloadRequest {
    pub video_id: String,
    pub url: String,
    pub title: String,
    pub thumbnail: Option<String>,
    pub channel: Option<String>,
    pub quality_height: Option<u32>,
    pub selected_format_id: Option<String>,
    pub selected_format_has_audio: Option<bool>,
    pub compatibility_mode: bool,
    pub browser_session: Option<String>,
    pub container: String,
    pub destination: String,
}

/// Progress of a download. The rate, the completed fraction and the time
/// left are decimal measurements that this library only carries; they are
/// held as the IEEE-754 binary64 encoding of the number (`f64::to_bits`).
#[derive(Debug, Clone)]
pub struct DownloadProgress {
    pub percent_bits: Option<u64>,
    pub speed_bits: Option<u64>,
    pub eta_bits: Option<u64>,
    pub downloaded_bytes: u64,
    pub total_bytes: Option<u64>,
}

/// The binary64 encoding of one hundred (per cent).
pub const HUNDRED_PERCENT_BITS: u64 = 0x4059_0000_0000_0000;

impl DownloadProgress {
    /// No progress known.
    pub fn none() -> (r: DownloadProgress)
        ensures
            r.percent_bits is None,
            r.speed_bits is None,
            r.eta_bits is None,
            r.downloaded_bytes == 0,
            r.total_bytes is None,
    {
        DownloadProgress {
            percent_bits: None,
            speed_bits: None,
            eta_bits: None,
            downloaded_bytes: 0,
            total_bytes: None,
        }
    }

    /// A copy of this progress.
    pub fn copy(&self) -> (r: DownloadProgress)
        ensures
            r == *self,
    {
        DownloadProgress {
            percent_bits: self.percent_bits,
            speed_bits: self.speed_bits,
            eta_bits: self.eta_bits,
            downloaded_bytes: self.downloaded_bytes,
            total_bytes: self.total_bytes,
        }
    }
}

impl Default for DownloadProgress {
    fn default() -> (r: DownloadProgress)
        ensures
            r.percent_bits is None,
            r.speed_bits is None,
            r.eta_bits is None,
            r.downloaded_bytes == 0,
            r.total_bytes is None,
    {
        DownloadProgress::none()
    }
}

/// What the final check of a downloaded file found. The duration is carried
/// as its binary64 encoding.
#[derive(Debug, Clone)]
pub struct DownloadVerification {
    pub width: Option<u32>,
    pub height: Option<u32>,
    pub duration_bits: Option<u64>,
    pub video_codec: Option<String>,
    pub audio_codec: Option<String>,
}

impl DownloadVerification {
    /// A copy of this verification.
    pub fn copy(&self) -> (r: DownloadVerification)
        ensures
            r == *self,
    {
        DownloadVerification {
            width: self.width,
            height: self.height,
            duration_bits: self.duration_bits,
            video_codec: copy_string(&self.video_codec),
            audio_codec: copy_string(&self.audio_codec),
        }
    }
}

/// A copy of an optional string, equal to it.
pub fn copy_string(s: &Option<String>) -> (r: Option<String>)
    ensures
        r == *s,
{
    match s {
        Some(t) => Some(t.clone()),
        None => None,
    }
}

impl DownloadRequest {
    /// A copy of this request.
    pub fn copy(&self) -> (r: DownloadRequest)
        ensures
            r == *self,
    {
        DownloadRequest {
            video_id: self.video_id.clone(),
            url: self.url.clone(),
            title: self.title.clone(),
            thumbnail: copy_string(&self.thumbnail),
            channel: copy_string(&self.channel),
            quality_height: self.quality_height,
            selected_format_id: copy_string(&self.selected_format_id),
            selected_format_has_audio: self.selected_format_has_audio,
            compatibility_mode: self.compatibility_mode,
            browser_session: copy_string(&self.browser_session),
            container: self.container.clone(),
            destination: self.destination.clone(),
        }
    }
}

/// A download in the queue.
#[derive(Debug, Clone)]
pub struct DownloadJob {
    pub request: DownloadRequest,
    pub job_id: String,
    pub status: DownloadStatus,
    pub progress: DownloadProgress,
    pub message: Option<String>,
    pub error: Option<String>,
    pub file_path: Option<String>,
    pub created_at: Option<String>,
    pub completed_at: Option<String>,
    pub verification: Option<DownloadVerification>,
}

impl DownloadJob {
    /// A copy of this job.
    pub fn copy(&self) -> (r: DownloadJob)
        ensures
            r == *self,
    {
        DownloadJob {
            request: self.request.copy(),
            job_id: self.job_id.clone(),
            status: self.status,
            progress: self.progress.copy(),
            message: copy_string(&self.message),
            error: copy_string(&self.error),
            file_path: copy_string(&self.file_path),
            created_at: copy_string(&self.created_at),
            completed_at: copy_string(&self.completed_at),
            verification: match &self.verification {
                Some(v) => Some(v.copy()),
                None => None,
            },
        }
    }
}

// ---------------------------------------------------------------------------
// Request validation
// ---------------------------------------------------------------------------

/// A container that the downloader can produce.
pub open spec fn container_ok(value: Seq<char>) -> bool {
    value == "auto"@ || value == "mp4"@ || value == "mkv"@ || value == "webm"@
}

/// Whether a container name is accepted.
pub fn valid_container(value: &str) -> (r: bool)
    ensures
        r == container_ok(value@),
{
    let v = chars_of(value);
    eq_lit(&v, "auto") || eq_lit(&v, "mp4") || eq_lit(&v, "mkv") || eq_lit(&v, "webm")
}

/// A character allowed in a format identifier.
pub open spec fn is_format_char(c: char) -> bool {
    is_ascii_alnum(c) || c == '_' || c == '-' || c == '.'
}

/// A well-formed format identifier: 1 to 96 letters, digits, `_`, `-` or `.`.
pub open spec fn format_id_ok(value: Seq<char>) -> bool {
    1 <= value.len() <= 96 && forall|i: int| 0 <= i < value.len() ==> #[trigger] is_format_char(value[i])
}

/// Whether a format identifier is well formed.
pub fn valid_format_id(value: &str) -> (r: bool)
    ensures
        r == format_id_ok(value@),
{
    let v = chars_of(value);
    if v.len() == 0 || v.len() > 96 {
        return false;
    }
    let mut i: usize = 0;
    while i < v.len()
        invariant
            i <= v@.len(),
            v@ == value@,
            forall|j: int| 0 <= j < i ==> #[trigger] is_format_char(v@[j]),
        decreases v.len() - i,
    {
        let c = v[i];
        if !(('a' <= c && c <= 'z') || ('A' <= c && c <= 'Z') || ('0' <= c && c <= '9') || c == '_'
            || c == '-' || c == '.') {
            assert(!is_format_char(v@[i as int]));
            return false;
        }
        i = i + 1;
    }
    true
}

/// The browsers whose session a download may use: none, Chrome or Edge.
pub open spec fn browser_session_ok(value: Option<Seq<char>>) -> bool {
    match value {
        None => true,
        Some(v) => v == "chrome"@ || v == "edge"@,
    }
}

/// Whether a download may use the given browser session.
pub fn valid_browser_session(value: Option<&str>) -> (r: bool)
    ensures
        r == browser_session_ok(match value {
            Some(v) => Some(v@),
            None => None,
        }),
{
    match value {
        None => true,
        Some(v) => {
            let c = chars_of(v);
            eq_lit(&c, "chrome") || eq_lit(&c, "edge")
        },
    }
}

/// Blank once surrounding white space is removed.
pub open spec fn is_blank(s: Seq<char>) -> bool {
    trim_text(s).len() == 0
}

fn blank(s: &String) -> (r: bool)
    ensures
        r == is_blank(s@),
{
    let c = chars_of(s.as_str());
    let t = trim_chars(&c);
    t.len() == 0
}

/// Why a request cannot be queued, checked in this order; `None` when it can
/// (apart from a duplicate in the queue).
pub open spec fn request_problem(r: DownloadRequest) -> Option<Seq<char>> {
    if !container_ok(r.container@) {
        Some("Contenedor no válido."@)
    } else if (r.selected_format_id matches Some(f) && !format_id_ok(f@)) {
        Some("El formato seleccionado no es válido."@)
    } else if !browser_session_ok(opt_text(r.browser_session)) {
        Some("El navegador seleccionado no es compatible."@)
    } else if is_blank(r.video_id@) || is_blank(r.url@) || is_blank(r.destination@) {
        Some("Faltan datos para agregar la descarga a la cola."@)
    } else if !supported_youtube_url(r.url@) {
        Some("La URL no es un enlace de YouTube válido."@)
    } else {
        None
    }
}

/// The problem with a request, if any.
pub fn check_request(request: &DownloadRequest) -> (r: Option<String>)
    ensures
        opt_text(r) == request_problem(*request),
{
    if !valid_container(request.container.as_str()) {
        return Some(owned("Contenedor no válido."));
    }
    match &request.selected_format_id {
        Some(f) => {
            if !valid_format_id(f.as_str()) {
                return Some(owned("El formato seleccionado no es válido."));
            }
        },
        None => {},
    }
    let browser: Option<&str> = match &request.browser_session {
        Some(b) => Some(b.as_str()),
        None => None,
    };
    if !valid_browser_session(browser) {
        return Some(owned("El navegador seleccionado no es compatible."));
    }
    if blank(&request.video_id) || blank(&request.url) || blank(&request.destination) {
        return Some(owned("Faltan datos para agregar la descarga a la cola."));
    }
    if !valid_youtube_url(request.url.as_str()) {
        return Some(owned("La URL no es un enlace de YouTube válido."));
    }
    None
}

// ---------------------------------------------------------------------------
// Format selection
// ---------------------------------------------------------------------------

/// The yt-dlp format selector for a request. A chosen source format is asked
/// for exactly (with the best audio added when it has none), so a selected
/// resolution never falls back to a lower one; the compatibility selector is
/// used only when no source was chosen.
pub open spec fn format_selector_text(
    selected_format_id: Option<Seq<char>>,
    selected_format_has_audio: Option<bool>,
    quality_height: Option<u32>,
    compatibility_mode: bool,
) -> Seq<char> {
    match selected_format_id {
        Some(id) => if selected_format_has_audio == Some(true) {
            id
        } else {
            id + "+ba"@
        },
        None => if compatibility_mode {
            "bv*+ba/b"@
        } else {
            match quality_height {
                Some(h) => "bv*[height="@ + decimal(h as nat) + "]+ba"@,
                None => "bv*+ba/b"@,
            }
        },
    }
}

/// The yt-dlp format selector for a request.
pub fn requested_format_selector(
    selected_format_id: Option<&str>,
    selected_format_has_audio: Option<bool>,
    quality_height: Option<u32>,
    compatibility_mode: bool,
) -> (r: String)
    ensures
        r@ == format_selector_text(
            match selected_format_id {
                Some(f) => Some(f@),
                None => None,
            },
            selected_format_has_audio,
            quality_height,
            compatibility_mode,
        ),
{
    match selected_format_id {
        Some(format_id) => {
            if selected_format_has_audio == Some(true) {
                owned(format_id)
            } else {
                let mut s = owned(format_id);
                s.append("+ba");
                s
            }
        },
        None => {
            if compatibility_mode {
                return owned("bv*+ba/b");
            }
            match quality_height {
                Some(height) => {
                    let mut v = chars_of("bv*[height=");
                    push_decimal(&mut v, height as u64);
                    let mut tail = chars_of("]+ba");
                    v.append(&mut tail);
                    string_from_chars(&v)
                },
                None => owned("bv*+ba/b"),
            }
        },
    }
}

/// The format selector of a queued job.
pub fn format_selector(job: &DownloadJob) -> (r: String)
    ensures
        r@ == format_selector_text(
            opt_text(job.request.selected_format_id),
            job.request.selected_format_has_audio,
            job.request.quality_height,
            job.request.compatibility_mode,
        ),
{
    let selected: Option<&str> = match &job.request.selected_format_id {
        Some(f) => Some(f.as_str()),
        None => None,
    };
    requested_format_selector(
        selected,
        job.request.selected_format_has_audio,
        job.request.quality_height,
        job.request.compatibility_mode,
    )
}


// ---------------------------------------------------------------------------
// The download queue
// ---------------------------------------------------------------------------

/// `i` is the position of the first job with identifier `id`.
pub open spec fn first_job(jobs: Seq<DownloadJob>, id: Seq<char>, i: int) -> bool {
    &&& 0 <= i < jobs.len()
    &&& jobs[i].job_id@ == id
    &&& forall|j: int| 0 <= j < i ==> (#[trigger] jobs[j]).job_id@ != id
}

/// No job has identifier `id`.
pub open spec fn no_job(jobs: Seq<DownloadJob>, id: Seq<char>) -> bool {
    forall|j: int| 0 <= j < jobs.len() ==> (#[trigger] jobs[j]).job_id@ != id
}

/// `i` is the position of the first job that waits.
pub open spec fn first_waiting(jobs: Seq<DownloadJob>, i: int) -> bool {
    &&& 0 <= i < jobs.len()
    &&& is_waiting(jobs[i].status)
    &&& forall|j: int| 0 <= j < i ==> !is_waiting((#[trigger] jobs[j]).status)
}

/// Some job that is not over is for the video `video_id`.
pub open spec fn has_unfinished_video(jobs: Seq<DownloadJob>, video_id: Seq<char>) -> bool {
    exists|i: int| 0 <= i < jobs.len() && (#[trigger] jobs[i]).request.video_id@ == video_id
        && !is_finished(jobs[i].status)
}

/// A video may be queued again once every job for it is over, whether it
/// completed, failed or was cancelled; a job for it that is waiting, under
/// way, being analysed or ready blocks a new one.
pub proof fn lemma_only_unfinished_jobs_block(jobs: Seq<DownloadJob>, video_id: Seq<char>)
    ensures
        (forall|i: int| 0 <= i < jobs.len() && (#[trigger] jobs[i]).request.video_id@ == video_id ==> (
        jobs[i].status == DownloadStatus::Completed || jobs[i].status == DownloadStatus::Failed
            || jobs[i].status == DownloadStatus::Cancelled)) <==> !has_unfinished_video(jobs, video_id),
{
}

/// Some job is waiting or under way.
pub open spec fn has_active(jobs: Seq<DownloadJob>) -> bool {
    exists|i: int| 0 <= i < jobs.len() && is_active((#[trigger] jobs[i]).status)
}

/// Progress with nothing known.
pub open spec fn no_progress(p: DownloadProgress) -> bool {
    p.percent_bits is None && p.speed_bits is None && p.eta_bits is None && p.downloaded_bytes == 0
        && p.total_bytes is None
}

/// `m` is the message `text`.
pub open spec fn says(m: Option<String>, text: Seq<char>) -> bool {
    m matches Some(s) && s@ == text
}

/// A job as `add` creates it.
pub open spec fn is_new_job(job: DownloadJob, request: DownloadRequest, job_id: String, created_at: String) -> bool {
    &&& job.request == request
    &&& job.job_id == job_id
    &&& job.status == DownloadStatus::Queued
    &&& no_progress(job.progress)
    &&& says(job.message, "En espera"@)
    &&& job.error is None
    &&& job.file_path is None
    &&& job.created_at == Some(created_at)
    &&& job.completed_at is None
    &&& job.verification is None
}

/// `new` is `old` with its status set to `status` and its message set to
/// `message`, everything else kept.
pub open spec fn restatused(new: DownloadJob, old: DownloadJob, status: DownloadStatus, message: Seq<char>) -> bool {
    &&& new.request == old.request
    &&& new.job_id == old.job_id
    &&& new.status == status
    &&& new.progress == old.progress
    &&& says(new.message, message)
    &&& new.error == old.error
    &&& new.file_path == old.file_path
    &&& new.created_at == old.created_at
    &&& new.completed_at == old.completed_at
    &&& new.verification == old.verification
}

/// `new` is `old` started: downloading, with the start message and no error.
pub open spec fn started(new: DownloadJob, old: DownloadJob) -> bool {
    &&& new.request == old.request
    &&& new.job_id == old.job_id
    &&& new.status == DownloadStatus::Downloading
    &&& new.progress == old.progress
    &&& says(new.message, "Iniciando yt-dlp…"@)
    &&& new.error is None
    &&& new.file_path == old.file_path
    &&& new.created_at == old.created_at
    &&& new.completed_at == old.completed_at
    &&& new.verification == old.verification
}

/// `new` is `old` put back in the queue for another try.
pub open spec fn requeued(new: DownloadJob, old: DownloadJob) -> bool {
    &&& new.request == old.request
    &&& new.job_id == old.job_id
    &&& new.status == DownloadStatus::Queued
    &&& no_progress(new.progress)
    &&& says(new.message, "En espera"@)
    &&& new.error is None
    &&& new.file_path is None
    &&& new.created_at == old.created_at
    &&& new.completed_at == old.completed_at
    &&& new.verification is None
}

/// `new` is `old` pointed at another source format, everything else kept.
pub open spec fn resourced(new: DownloadJob, old: DownloadJob, format_id: Option<String>, has_audio: Option<bool>) -> bool {
    &&& new.request.selected_format_id == format_id
    &&& new.request.selected_format_has_audio == has_audio
    &&& new.request.video_id == old.request.video_id
    &&& new.request.url == old.request.url
    &&& new.request.title == old.request.title
    &&& new.request.thumbnail == old.request.thumbnail
    &&& new.request.channel == old.request.channel
    &&& new.request.quality_height == old.request.quality_height
    &&& new.request.compatibility_mode == old.request.compatibility_mode
    &&& new.request.browser_session == old.request.browser_session
    &&& new.request.container == old.request.container
    &&& new.request.destination == old.request.destination
    &&& new.job_id == old.job_id
    &&& new.status == old.status
    &&& new.progress == old.progress
    &&& new.message == old.message
    &&& new.error == old.error
    &&& new.file_path == old.file_path
    &&& new.created_at == old.created_at
    &&& new.completed_at == old.completed_at
    &&& new.verification == old.verification
}

/// No two jobs share an identifier.
pub open spec fn distinct_ids(jobs: Seq<DownloadJob>) -> bool {
    forall|i: int, j: int|
        0 <= i < jobs.len() && 0 <= j < jobs.len() && i != j ==> (#[trigger] jobs[i]).job_id@
            != (#[trigger] jobs[j]).job_id@
}

/// `new` is `old`, or `old` cancelled where it was not completed.
pub open spec fn kept_or_cancelled(new: DownloadJob, old: DownloadJob) -> bool {
    new == old || (old.status != DownloadStatus::Completed && restatused(
        new,
        old,
        DownloadStatus::Cancelled,
        "Cancelado"@,
    ))
}

/// Some job before position `i` has identifier `id`, so a first one exists.
proof fn lemma_first_job_exists(jobs: Seq<DownloadJob>, id: Seq<char>, i: int)
    requires
        0 <= i < jobs.len(),
        jobs[i].job_id@ == id,
    ensures
        exists|p: int| 0 <= p <= i && first_job(jobs, id, p),
    decreases i,
{
    if forall|j: int| 0 <= j < i ==> (#[trigger] jobs[j]).job_id@ != id {
        assert(first_job(jobs, id, i));
    } else {
        let j = choose|j: int| 0 <= j < i && (#[trigger] jobs[j]).job_id@ == id;
        lemma_first_job_exists(jobs, id, j);
    }
}

/// The queue of downloads, whether it is paused, and whether a worker is
/// draining it.
pub struct DownloadQueue {
    jobs: Vec<DownloadJob>,
    paused: bool,
    worker_running: bool,
}

impl DownloadQueue {
    /// The jobs, in the order they were added.
    pub closed spec fn job_list(&self) -> Seq<DownloadJob> {
        self.jobs@
    }

    /// Whether the queue is paused.
    pub closed spec fn is_paused(&self) -> bool {
        self.paused
    }

    /// Whether a worker is running.
    pub closed spec fn has_worker(&self) -> bool {
        self.worker_running
    }

    /// An empty, running queue with no worker.
    pub fn new() -> (r: DownloadQueue)
        ensures
            r.job_list().len() == 0,
            !r.is_paused(),
            !r.has_worker(),
    {
        DownloadQueue { jobs: Vec::new(), paused: false, worker_running: false }
    }

    /// The jobs.
    pub fn jobs(&self) -> (r: &Vec<DownloadJob>)
        ensures
            r@ == self.job_list(),
    {
        &self.jobs
    }

    /// Whether the queue is paused.
    pub fn paused(&self) -> (r: bool)
        ensures
            r == self.is_paused(),
    {
        self.paused
    }

    /// Whether a worker is running.
    pub fn worker_running(&self) -> (r: bool)
        ensures
            r == self.has_worker(),
    {
        self.worker_running
    }

    /// The position of the first job with this identifier.
    pub fn position(&self, job_id: &str) -> (r: Option<usize>)
        ensures
            r matches Some(i) ==> first_job(self.job_list(), job_id@, i as int),
            r is None ==> no_job(self.job_list(), job_id@),
    {
        let id = chars_of(job_id);
        let mut i: usize = 0;
        while i < self.jobs.len()
            invariant
                i <= self.jobs@.len(),
                id@ == job_id@,
                forall|j: int| 0 <= j < i ==> (#[trigger] self.jobs@[j]).job_id@ != job_id@,
            decreases self.jobs.len() - i,
        {
            let current = chars_of(self.jobs[i].job_id.as_str());
            if crate::text::same_chars(&current, &id) {
                return Some(i);
            }
            i = i + 1;
        }
        None
    }

    /// A copy of the first job with this identifier.
    pub fn find_job(&self, job_id: &str) -> (r: Option<DownloadJob>)
        ensures
            r matches Some(job) ==> exists|i: int| first_job(self.job_list(), job_id@, i) && job == self.job_list()[i],
            r is None ==> no_job(self.job_list(), job_id@),
    {
        match self.position(job_id) {
            Some(i) => Some(self.jobs[i].copy()),
            None => None,
        }
    }

    /// Whether a job is for a video that already has a job that is not over.
    fn has_unfinished(&self, video_id: &String) -> (r: bool)
        ensures
            r == has_unfinished_video(self.job_list(), video_id@),
    {
        let wanted = chars_of(video_id.as_str());
        let mut i: usize = 0;
        while i < self.jobs.len()
            invariant
                i <= self.jobs@.len(),
                wanted@ == video_id@,
                forall|j: int| 0 <= j < i ==> !((#[trigger] self.jobs@[j]).request.video_id@ == video_id@ && !is_finished(self.jobs@[j].status)),
            decreases self.jobs.len() - i,
        {
            let current = chars_of(self.jobs[i].request.video_id.as_str());
            if crate::text::same_chars(&current, &wanted) && !self.jobs[i].status.finished() {
                return true;
            }
            i = i + 1;
        }
        false
    }

    /// Queues a request under a fresh job identifier. The request is checked
    /// first (see `request_problem`); a video that already has a job that is
    /// not over is refused.
    pub fn add(&mut self, request: DownloadRequest, job_id: String, created_at: String) -> (r: Result<DownloadJob, String>)
        ensures
            final(self).is_paused() == old(self).is_paused(),
            final(self).has_worker() == old(self).has_worker(),
            request_problem(request) matches Some(p) ==> (r matches Err(e) && e@ == p && final(self).job_list() == old(self).job_list()),
            request_problem(request) is None && has_unfinished_video(old(self).job_list(), request.video_id@) ==> (r matches Err(e) && e@ == "Ese video ya está en la cola."@ && final(self).job_list() == old(self).job_list()),
            request_problem(request) is None && !has_unfinished_video(old(self).job_list(), request.video_id@) ==> (r matches Ok(job) && is_new_job(job, request, job_id, created_at) && final(self).job_list() == old(self).job_list().push(job)),
    {
        match check_request(&request) {
            Some(problem) => {
                return Err(problem);
            },
            None => {},
        }
        if self.has_unfinished(&request.video_id) {
            return Err(owned("Ese video ya está en la cola."));
        }
        let job = DownloadJob {
            request,
            job_id,
            status: DownloadStatus::Queued,
            progress: DownloadProgress::none(),
            message: Some(owned("En espera")),
            error: None,
            file_path: None,
            created_at: Some(created_at),
            completed_at: None,
            verification: None,
        };
        let copy = job.copy();
        self.jobs.push(job);
        Ok(copy)
    }

    /// Pauses the queue: no further job is started.
    pub fn pause(&mut self)
        ensures
            final(self).is_paused(),
            final(self).has_worker() == old(self).has_worker(),
            final(self).job_list() == old(self).job_list(),
    {
        self.paused = true;
    }

    /// Lifts the pause.
    pub fn resume(&mut self)
        ensures
            !final(self).is_paused(),
            final(self).has_worker() == old(self).has_worker(),
            final(self).job_list() == old(self).job_list(),
    {
        self.paused = false;
    }

    /// Lifts the pause and claims the worker. Returns whether the caller must
    /// start the worker that drains the queue (false when one already runs).
    pub fn start(&mut self) -> (r: bool)
        ensures
            !final(self).is_paused(),
            final(self).has_worker(),
            r == !old(self).has_worker(),
            final(self).job_list() == old(self).job_list(),
    {
        self.paused = false;
        if self.worker_running {
            false
        } else {
            self.worker_running = true;
            true
        }
    }

    /// Starts exactly one waiting job and leaves every other job as it is.
    pub fn start_one(&mut self, job_id: &str) -> (r: Result<DownloadJob, String>)
        ensures
            old(self).has_worker() ==> (r matches Err(e) && e@ == "Ya hay una descarga en curso."@ && *final(self) == *old(self)),
            !old(self).has_worker() && no_job(old(self).job_list(), job_id@) ==> (r matches Err(e) && e@ == "No se encontró la descarga."@ && *final(self) == *old(self)),
            !old(self).has_worker() ==> forall|i: int| first_job(old(self).job_list(), job_id@, i) ==> {
                if is_waiting(old(self).job_list()[i].status) {
                    &&& r matches Ok(job) && job == final(self).job_list()[i]
                    &&& started(final(self).job_list()[i], old(self).job_list()[i])
                    &&& final(self).job_list() == old(self).job_list().update(i, final(self).job_list()[i])
                    &&& !final(self).is_paused()
                    &&& final(self).has_worker()
                } else {
                    &&& r matches Err(e) && e@ == "Solo se puede iniciar una descarga que está en espera."@
                    &&& *final(self) == *old(self)
                }
            },
    {
        if self.worker_running {
            return Err(owned("Ya hay una descarga en curso."));
        }
        let position = match self.position(job_id) {
            Some(i) => i,
            None => {
                return Err(owned("No se encontró la descarga."));
            },
        };
        if !self.jobs[position].status.waiting() {
            return Err(owned("Solo se puede iniciar una descarga que está en espera."));
        }
        self.paused = false;
        self.worker_running = true;
        let mut job = self.jobs[position].copy();
        job.status = DownloadStatus::Downloading;
        job.message = Some(owned("Iniciando yt-dlp…"));
        job.error = None;
        let copy = job.copy();
        self.jobs.set(position, job);
        Ok(copy)
    }

    /// The worker is done.
    pub fn release_worker(&mut self)
        ensures
            !final(self).has_worker(),
            final(self).is_paused() == old(self).is_paused(),
            final(self).job_list() == old(self).job_list(),
    {
        self.worker_running = false;
    }

    /// The first waiting job, started; `None` (and the worker released) when
    /// the queue is paused or nothing waits.
    pub fn next_job(&mut self) -> (r: Option<DownloadJob>)
        ensures
            final(self).is_paused() == old(self).is_paused(),
            old(self).is_paused() ==> r is None && !final(self).has_worker() && final(self).job_list() == old(self).job_list(),
            !old(self).is_paused() && (forall|i: int| 0 <= i < old(self).job_list().len() ==> !is_waiting((#[trigger] old(self).job_list()[i]).status))
                ==> r is None && !final(self).has_worker() && final(self).job_list() == old(self).job_list(),
            !old(self).is_paused() ==> forall|i: int| first_waiting(old(self).job_list(), i) ==> {
                &&& r matches Some(job) && job == final(self).job_list()[i]
                &&& started(final(self).job_list()[i], old(self).job_list()[i])
                &&& final(self).job_list() == old(self).job_list().update(i, final(self).job_list()[i])
                &&& final(self).has_worker() == old(self).has_worker()
            },
    {
        if self.paused {
            self.worker_running = false;
            return None;
        }
        let mut i: usize = 0;
        while i < self.jobs.len()
            invariant
                i <= self.jobs@.len(),
                !self.paused,
                self.paused == old(self).paused,
                self.worker_running == old(self).worker_running,
                self.jobs@ == old(self).jobs@,
                forall|j: int| 0 <= j < i ==> !is_waiting((#[trigger] self.jobs@[j]).status),
            decreases self.jobs.len() - i,
        {
            if self.jobs[i].status.waiting() {
                assert(is_waiting(old(self).job_list()[i as int].status));
                let mut job = self.jobs[i].copy();
                job.status = DownloadStatus::Downloading;
                job.message = Some(owned("Iniciando yt-dlp…"));
                job.error = None;
                let copy = job.copy();
                self.jobs.set(i, job);
                return Some(copy);
            }
            i = i + 1;
        }
        self.worker_running = false;
        None
    }

    /// Applies `status` and `message` to the first job with this identifier
    /// (nothing happens when there is none).
    fn restatus(&mut self, job_id: &str, status: DownloadStatus, message: &str)
        ensures
            final(self).is_paused() == old(self).is_paused(),
            final(self).has_worker() == old(self).has_worker(),
            no_job(old(self).job_list(), job_id@) ==> final(self).job_list() == old(self).job_list(),
            forall|i: int| first_job(old(self).job_list(), job_id@, i) ==> {
                &&& restatused(final(self).job_list()[i], old(self).job_list()[i], status, message@)
                &&& final(self).job_list() == old(self).job_list().update(i, final(self).job_list()[i])
            },
    {
        match self.position(job_id) {
            Some(i) => {
                let mut job = self.jobs[i].copy();
                job.status = status;
                job.message = Some(owned(message));
                self.jobs.set(i, job);
            },
            None => {},
        }
    }

    /// Records a progress report of a running job.
    pub fn record_progress(&mut self, job_id: &str, progress: DownloadProgress)
        ensures
            final(self).is_paused() == old(self).is_paused(),
            final(self).has_worker() == old(self).has_worker(),
            no_job(old(self).job_list(), job_id@) ==> final(self).job_list() == old(self).job_list(),
            forall|i: int| first_job(old(self).job_list(), job_id@, i) ==> {
                &&& final(self).job_list() == old(self).job_list().update(i, final(self).job_list()[i])
                &&& final(self).job_list()[i].progress == progress
                &&& says(final(self).job_list()[i].message, "Descargando…"@)
                &&& final(self).job_list()[i].status == old(self).job_list()[i].status
                &&& final(self).job_list()[i].job_id == old(self).job_list()[i].job_id
            },
    {
        match self.position(job_id) {
            Some(i) => {
                let mut job = self.jobs[i].copy();
                job.progress = progress;
                job.message = Some(owned("Descargando…"));
                self.jobs.set(i, job);
            },
            None => {},
        }
    }

    /// Marks a running job as merging its streams.
    pub fn mark_processing(&mut self, job_id: &str)
        ensures
            final(self).is_paused() == old(self).is_paused(),
            final(self).has_worker() == old(self).has_worker(),
            no_job(old(self).job_list(), job_id@) ==> final(self).job_list() == old(self).job_list(),
            forall|i: int| first_job(old(self).job_list(), job_id@, i) ==> {
                &&& restatused(final(self).job_list()[i], old(self).job_list()[i], DownloadStatus::Processing, "Fusionando video + audio…"@)
                &&& final(self).job_list() == old(self).job_list().update(i, final(self).job_list()[i])
            },
    {
        self.restatus(job_id, DownloadStatus::Processing, "Fusionando video + audio…");
    }

    /// Whether the first job with this identifier was cancelled.
    pub fn is_cancelled(&self, job_id: &str) -> (r: bool)
        ensures
            r == exists|i: int| first_job(self.job_list(), job_id@, i) && self.job_list()[i].status == DownloadStatus::Cancelled,
    {
        match self.position(job_id) {
            Some(i) => self.jobs[i].status == DownloadStatus::Cancelled,
            None => false,
        }
    }

    /// Records that a job failed, unless it was cancelled meanwhile. Returns
    /// whether the failure is to be reported.
    pub fn record_failure(&mut self, job_id: &str, error: String) -> (r: bool)
        ensures
            final(self).is_paused() == old(self).is_paused(),
            final(self).has_worker() == old(self).has_worker(),
            no_job(old(self).job_list(), job_id@) ==> r && final(self).job_list() == old(self).job_list(),
            forall|i: int| first_job(old(self).job_list(), job_id@, i) ==> {
                if old(self).job_list()[i].status == DownloadStatus::Cancelled {
                    !r && final(self).job_list() == old(self).job_list()
                } else {
                    &&& r
                    &&& final(self).job_list() == old(self).job_list().update(i, final(self).job_list()[i])
                    &&& final(self).job_list()[i].status == DownloadStatus::Failed
                    &&& final(self).job_list()[i].error == Some(error)
                    &&& says(final(self).job_list()[i].message, "La descarga falló"@)
                    &&& final(self).job_list()[i].job_id == old(self).job_list()[i].job_id
                    &&& final(self).job_list()[i].request == old(self).job_list()[i].request
                }
            },
    {
        match self.position(job_id) {
            Some(i) => {
                if self.jobs[i].status == DownloadStatus::Cancelled {
                    return false;
                }
                let mut job = self.jobs[i].copy();
                job.status = DownloadStatus::Failed;
                job.error = Some(error);
                job.message = Some(owned("La descarga falló"));
                self.jobs.set(i, job);
                true
            },
            None => true,
        }
    }

    /// Records that a job completed: its final file, the check of that file,
    /// and the completion time.
    pub fn mark_completed(
        &mut self,
        job_id: &str,
        file_path: String,
        verification: DownloadVerification,
        completed_at: String,
    )
        ensures
            final(self).is_paused() == old(self).is_paused(),
            final(self).has_worker() == old(self).has_worker(),
            no_job(old(self).job_list(), job_id@) ==> final(self).job_list() == old(self).job_list(),
            forall|i: int| first_job(old(self).job_list(), job_id@, i) ==> {
                &&& final(self).job_list() == old(self).job_list().update(i, final(self).job_list()[i])
                &&& final(self).job_list()[i].status == DownloadStatus::Completed
                &&& says(final(self).job_list()[i].message, "Completado"@)
                &&& final(self).job_list()[i].file_path == Some(file_path)
                &&& final(self).job_list()[i].verification == Some(verification)
                &&& final(self).job_list()[i].completed_at == Some(completed_at)
                &&& final(self).job_list()[i].progress.percent_bits == Some(HUNDRED_PERCENT_BITS)
                &&& final(self).job_list()[i].job_id == old(self).job_list()[i].job_id
                &&& final(self).job_list()[i].request == old(self).job_list()[i].request
            },
    {
        match self.position(job_id) {
            Some(i) => {
                let mut job = self.jobs[i].copy();
                job.status = DownloadStatus::Completed;
                job.message = Some(owned("Completado"));
                job.file_path = Some(file_path);
                job.verification = Some(verification);
                job.completed_at = Some(completed_at);
                job.progress.percent_bits = Some(HUNDRED_PERCENT_BITS);
                self.jobs.set(i, job);
            },
            None => {},
        }
    }

    /// Replaces the message of a job.
    pub fn set_message(&mut self, job_id: &str, message: String)
        ensures
            final(self).is_paused() == old(self).is_paused(),
            final(self).has_worker() == old(self).has_worker(),
            no_job(old(self).job_list(), job_id@) ==> final(self).job_list() == old(self).job_list(),
            forall|i: int| first_job(old(self).job_list(), job_id@, i) ==> {
                &&& final(self).job_list() == old(self).job_list().update(i, final(self).job_list()[i])
                &&& final(self).job_list()[i].message == Some(message)
                &&& final(self).job_list()[i].status == old(self).job_list()[i].status
                &&& final(self).job_list()[i].job_id == old(self).job_list()[i].job_id
            },
    {
        match self.position(job_id) {
            Some(i) => {
                let mut job = self.jobs[i].copy();
                job.message = Some(message);
                self.jobs.set(i, job);
            },
            None => {},
        }
    }

    /// Points a job at another source format, for one more try after its
    /// source failed. Returns the job as it now stands.
    pub fn switch_source(&mut self, job_id: &str, format_id: Option<String>, has_audio: Option<bool>) -> (r: Option<DownloadJob>)
        ensures
            final(self).is_paused() == old(self).is_paused(),
            final(self).has_worker() == old(self).has_worker(),
            no_job(old(self).job_list(), job_id@) ==> r is None && final(self).job_list() == old(self).job_list(),
            forall|i: int| first_job(old(self).job_list(), job_id@, i) ==> {
                &&& r matches Some(job) && job == final(self).job_list()[i]
                &&& resourced(final(self).job_list()[i], old(self).job_list()[i], format_id, has_audio)
                &&& final(self).job_list() == old(self).job_list().update(i, final(self).job_list()[i])
            },
    {
        match self.position(job_id) {
            Some(i) => {
                let mut job = self.jobs[i].copy();
                job.request.selected_format_id = format_id;
                job.request.selected_format_has_audio = has_audio;
                self.jobs.set(i, job);
                Some(self.jobs[i].copy())
            },
            None => None,
        }
    }

    /// Cancels a job; a completed job keeps its state. Returns the job as it
    /// now stands.
    pub fn cancel(&mut self, job_id: &str) -> (r: Result<DownloadJob, String>)
        ensures
            final(self).is_paused() == old(self).is_paused(),
            final(self).has_worker() == old(self).has_worker(),
            no_job(old(self).job_list(), job_id@) ==> (r matches Err(e) && e@ == "No se encontró la descarga."@ && final(self).job_list() == old(self).job_list()),
            forall|i: int| first_job(old(self).job_list(), job_id@, i) ==> {
                &&& r matches Ok(job) && job == final(self).job_list()[i]
                &&& if old(self).job_list()[i].status == DownloadStatus::Completed {
                    final(self).job_list() == old(self).job_list()
                } else {
                    &&& restatused(final(self).job_list()[i], old(self).job_list()[i], DownloadStatus::Cancelled, "Cancelado"@)
                    &&& final(self).job_list() == old(self).job_list().update(i, final(self).job_list()[i])
                }
            },
    {
        match self.position(job_id) {
            Some(i) => {
                if self.jobs[i].status != DownloadStatus::Completed {
                    let mut job = self.jobs[i].copy();
                    job.status = DownloadStatus::Cancelled;
                    job.message = Some(owned("Cancelado"));
                    self.jobs.set(i, job);
                }
                Ok(self.jobs[i].copy())
            },
            None => Err(owned("No se encontró la descarga.")),
        }
    }

    /// The identifiers of the jobs that are waiting or under way, in order.
    pub fn cancellable_ids(&self) -> (r: Vec<String>)
        ensures
            r@.map_values(|s: String| s@) == self.job_list().filter(|j: DownloadJob| is_active(j.status)).map_values(|j: DownloadJob| j.job_id@),
    {
        let mut ids: Vec<String> = Vec::new();
        let mut i: usize = 0;
        while i < self.jobs.len()
            invariant
                i <= self.jobs@.len(),
                ids@.map_values(|s: String| s@) == self.jobs@.subrange(0, i as int).filter(|j: DownloadJob| is_active(j.status)).map_values(|j: DownloadJob| j.job_id@),
            decreases self.jobs.len() - i,
        {
            let ghost before = self.jobs@.subrange(0, i as int).filter(|j: DownloadJob| is_active(j.status));
            let ghost old_ids = ids@;
            proof {
                reveal_with_fuel(Seq::filter, 1);
                assert(self.jobs@.subrange(0, i + 1).drop_last() == self.jobs@.subrange(0, i as int));
            }
            if self.jobs[i].status.active() {
                let id = self.jobs[i].job_id.clone();
                ids.push(id);
                proof {
                    assert(self.jobs@.subrange(0, i + 1).filter(|j: DownloadJob| is_active(j.status)) == before.push(self.jobs@[i as int]));
                    assert(ids@.map_values(|s: String| s@) =~= old_ids.map_values(|s: String| s@).push(self.jobs@[i as int].job_id@));
                    assert(before.push(self.jobs@[i as int]).map_values(|j: DownloadJob| j.job_id@) =~= before.map_values(|j: DownloadJob| j.job_id@).push(self.jobs@[i as int].job_id@));
                }
            } else {
                proof {
                    assert(self.jobs@.subrange(0, i + 1).filter(|j: DownloadJob| is_active(j.status)) == before);
                }
            }
            i = i + 1;
        }
        assert(self.jobs@.subrange(0, self.jobs@.len() as int) == self.jobs@);
        ids
    }

    /// Cancels every job that waits or runs, in queue order, and pauses the
    /// queue. Returns the identifiers it cancelled, so that their processes
    /// can be stopped. Each cancellation goes by identifier, as `cancel` does;
    /// where no two jobs share one, exactly the waiting and running jobs end
    /// cancelled and nothing is left waiting or running.
    pub fn cancel_all(&mut self) -> (r: Vec<String>)
        ensures
            final(self).is_paused(),
            final(self).has_worker() == old(self).has_worker(),
            r@.map_values(|s: String| s@) == old(self).job_list().filter(
                |j: DownloadJob| is_active(j.status),
            ).map_values(|j: DownloadJob| j.job_id@),
            final(self).job_list().len() == old(self).job_list().len(),
            forall|k: int|
                0 <= k < old(self).job_list().len() ==> kept_or_cancelled(
                    #[trigger] final(self).job_list()[k],
                    old(self).job_list()[k],
                ),
            distinct_ids(old(self).job_list()) ==> forall|k: int|
                0 <= k < old(self).job_list().len() ==> if is_active(
                    old(self).job_list()[k].status,
                ) {
                    restatused(
                        #[trigger] final(self).job_list()[k],
                        old(self).job_list()[k],
                        DownloadStatus::Cancelled,
                        "Cancelado"@,
                    )
                } else {
                    final(self).job_list()[k] == old(self).job_list()[k]
                },
            distinct_ids(old(self).job_list()) ==> !has_active(final(self).job_list()),
    {
        let ids = self.cancellable_ids();
        let ghost start = self.jobs@;
        let mut i: usize = 0;
        while i < self.jobs.len()
            invariant
                self.jobs@.len() == start.len(),
                i <= start.len(),
                self.paused == old(self).paused,
                self.worker_running == old(self).worker_running,
                start == old(self).jobs@,
                forall|k: int| i <= k < start.len() ==> (#[trigger] self.jobs@[k]) == start[k],
                forall|k: int|
                    0 <= k < start.len() ==> kept_or_cancelled(#[trigger] self.jobs@[k], start[k]),
                distinct_ids(start) ==> forall|k: int|
                    0 <= k < i ==> if is_active(start[k].status) {
                        restatused(
                            #[trigger] self.jobs@[k],
                            start[k],
                            DownloadStatus::Cancelled,
                            "Cancelado"@,
                        )
                    } else {
                        self.jobs@[k] == start[k]
                    },
            decreases start.len() - i,
        {
            if self.jobs[i].status.active() {
                let id = self.jobs[i].job_id.clone();
                let ghost before = self.jobs@;
                proof {
                    lemma_first_job_exists(before, id@, i as int);
                }
                let ghost p = choose|p: int| 0 <= p <= i && first_job(before, id@, p);
                proof {
                    if distinct_ids(start) {
                        assert(p == i) by {
                            if p != i {
                                assert(kept_or_cancelled(before[p], start[p]));
                                assert(kept_or_cancelled(before[i as int], start[i as int]));
                            }
                        }
                    }
                }
                let _ = self.cancel(id.as_str());
                proof {
                    assert(first_job(before, id@, p));
                    assert forall|k: int| 0 <= k < start.len() implies kept_or_cancelled(
                        #[trigger] self.jobs@[k],
                        start[k],
                    ) by {
                        assert(kept_or_cancelled(before[k], start[k]));
                    }
                }
            }
            i = i + 1;
        }
        self.paused = true;
        proof {
            if distinct_ids(start) {
                assert forall|k: int| 0 <= k < start.len() implies !is_active(
                    (#[trigger] self.jobs@[k]).status,
                ) by {
                    assert(kept_or_cancelled(self.jobs@[k], start[k]));
                }
            }
        }
        ids
    }

    /// Removes the finished jobs, but only when nothing waits or runs.
    pub fn clear_finished(&mut self) -> (r: Result<(), String>)
        ensures
            final(self).is_paused() == old(self).is_paused(),
            final(self).has_worker() == old(self).has_worker(),
            (old(self).has_worker() || has_active(old(self).job_list())) ==> (r matches Err(e) && e@ == "Esperá a que terminen o cancelá las descargas pendientes antes de limpiar la sesión."@ && final(self).job_list() == old(self).job_list()),
            !(old(self).has_worker() || has_active(old(self).job_list())) ==> (r is Ok && final(self).job_list() == old(self).job_list().filter(|j: DownloadJob| !is_finished(j.status))),
    {
        if self.worker_running {
            return Err(owned("Esperá a que terminen o cancelá las descargas pendientes antes de limpiar la sesión."));
        }
        let mut i: usize = 0;
        while i < self.jobs.len()
            invariant
                i <= self.jobs@.len(),
                forall|j: int| 0 <= j < i ==> !is_active((#[trigger] self.jobs@[j]).status),
            decreases self.jobs.len() - i,
        {
            if self.jobs[i].status.active() {
                return Err(owned("Esperá a que terminen o cancelá las descargas pendientes antes de limpiar la sesión."));
            }
            i = i + 1;
        }
        let mut kept: Vec<DownloadJob> = Vec::new();
        let mut k: usize = 0;
        while k < self.jobs.len()
            invariant
                k <= self.jobs@.len(),
                kept@ == self.jobs@.subrange(0, k as int).filter(|j: DownloadJob| !is_finished(j.status)),
            decreases self.jobs.len() - k,
        {
            proof {
                reveal_with_fuel(Seq::filter, 1);
                assert(self.jobs@.subrange(0, k + 1).drop_last() == self.jobs@.subrange(0, k as int));
            }
            if !self.jobs[k].status.finished() {
                kept.push(self.jobs[k].copy());
            }
            k = k + 1;
        }
        assert(self.jobs@.subrange(0, self.jobs@.len() as int) == self.jobs@);
        self.jobs = kept;
        Ok(())
    }

    /// Puts a failed or cancelled job back in the queue. Returns whether the
    /// caller must start the queue (it is neither paused nor drained by a
    /// worker).
    pub fn retry(&mut self, job_id: &str) -> (r: Result<bool, String>)
        ensures
            final(self).is_paused() == old(self).is_paused(),
            final(self).has_worker() == old(self).has_worker(),
            no_job(old(self).job_list(), job_id@) ==> (r matches Err(e) && e@ == "No se encontró la descarga."@ && final(self).job_list() == old(self).job_list()),
            forall|i: int| first_job(old(self).job_list(), job_id@, i) ==> {
                if old(self).job_list()[i].status == DownloadStatus::Failed || old(self).job_list()[i].status == DownloadStatus::Cancelled {
                    &&& r == Ok::<bool, String>(!old(self).is_paused() && !old(self).has_worker())
                    &&& requeued(final(self).job_list()[i], old(self).job_list()[i])
                    &&& final(self).job_list() == old(self).job_list().update(i, final(self).job_list()[i])
                } else {
                    &&& r matches Err(e) && e@ == "Solo se pueden reintentar descargas canceladas o fallidas."@
                    &&& final(self).job_list() == old(self).job_list()
                }
            },
    {
        let i = match self.position(job_id) {
            Some(i) => i,
            None => {
                return Err(owned("No se encontró la descarga."));
            },
        };
        let status = self.jobs[i].status;
        if !(status == DownloadStatus::Failed || status == DownloadStatus::Cancelled) {
            return Err(owned("Solo se pueden reintentar descargas canceladas o fallidas."));
        }
        let mut job = self.jobs[i].copy();
        job.status = DownloadStatus::Queued;
        job.error = None;
        job.message = Some(owned("En espera"));
        job.progress = DownloadProgress::none();
        job.file_path = None;
        job.verification = None;
        self.jobs.set(i, job);
        Ok(!self.paused && !self.worker_running)
    }
}

} // verus!
