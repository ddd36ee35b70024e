use vstd::prelude::*;

use crate::analysis::AnalysisFailure;
use crate::text::{chars_of, owned, same_chars, string_from_chars, trim_chars, trim_text};
use crate::youtube_access::{cooldown_message, cooldown_text};
use crate::youtube_url::{is_supported_youtube_url, supported_youtube_url, video_id_of, youtube_video_id};

verus! {

/// What becomes of one entry of a batch of URLs before any network access.
pub enum UrlTriage {
    /// A blank entry, ignored.
    Skip,
    /// An entry answered at once, without network access.
    Reject(AnalysisFailure),
    /// An entry to analyse: the trimmed URL and its video identifier.
    Analyze { url: String, video_id: String },
}

/// The message for a URL that is not a YouTube link.
pub open spec fn invalid_url_text() -> Seq<char> {
    "URL inválida o no compatible. Usá un enlace de YouTube."@
}

/// The message for a YouTube link without a recognisable video.
pub open spec fn no_id_text() -> Seq<char> {
    "No se pudo obtener localmente el ID del video. Usá un enlace directo de YouTube."@
}

/// The message for a video that appeared earlier in the batch.
pub open spec fn repeated_text() -> Seq<char> {
    "El video está repetido en la lista; se omitió sin consultar YouTube."@
}

/// The message for a video whose download is still on disk.
pub open spec fn already_downloaded_text() -> Seq<char> {
    "Este video ya está descargado y el archivo sigue disponible. No se volvió a consultar YouTube."@
}

/// A plain failure for `url` with `message`.
pub open spec fn plain_failure(f: AnalysisFailure, url: Seq<char>, message: Seq<char>) -> bool {
    &&& f.url@ == url
    &&& f.message@ == message
    &&& !f.requires_browser_session
    &&& f.existing_download_id is None
    &&& f.retry_after_epoch is None
}

fn failure(url: &Vec<char>, message: &str) -> (r: AnalysisFailure)
    ensures
        plain_failure(r, url@, message@),
{
    AnalysisFailure {
        url: string_from_chars(url),
        message: owned(message),
        requires_browser_session: false,
        existing_download_id: None,
        retry_after_epoch: None,
    }
}

/// The video identifiers already met in a batch.
pub struct SeenVideos {
    ids: Vec<String>,
}

impl SeenVideos {
    /// The identifiers met so far.
    pub closed spec fn id_list(&self) -> Seq<Seq<char>> {
        self.ids@.map_values(|s: String| s@)
    }

    /// No identifier is recorded twice.
    #[verifier::type_invariant]
    closed spec fn distinct(&self) -> bool {
        self.id_list().no_duplicates()
    }

    /// No identifier met yet.
    pub fn new() -> (r: SeenVideos)
        ensures
            r.id_list().len() == 0,
    {
        let r = SeenVideos { ids: Vec::new() };
        assert(r.id_list() =~= Seq::<Seq<char>>::empty());
        r
    }

    fn contains(&self, id: &String) -> (r: bool)
        ensures
            r == self.id_list().contains(id@),
    {
        let wanted = chars_of(id.as_str());
        let mut i: usize = 0;
        while i < self.ids.len()
            invariant
                i <= self.ids@.len(),
                wanted@ == id@,
                forall|j: int| 0 <= j < i ==> (#[trigger] self.ids@[j])@ != id@,
            decreases self.ids.len() - i,
        {
            let current = chars_of(self.ids[i].as_str());
            if same_chars(&current, &wanted) {
                assert(self.id_list()[i as int] == id@);
                return true;
            }
            i = i + 1;
        }
        proof {
            if self.id_list().contains(id@) {
                let k = choose|k: int| 0 <= k < self.id_list().len() && self.id_list()[k] == id@;
                assert(self.ids@[k]@ == id@);
            }
        }
        false
    }

    fn insert(&mut self, id: String)
        requires
            !old(self).id_list().contains(id@),
        ensures
            final(self).id_list() == old(self).id_list().push(id@),
    {
        proof {
            use_type_invariant(&*self);
        }
        let mut ids: Vec<String> = Vec::new();
        std::mem::swap(&mut ids, &mut self.ids);
        let ghost before = ids@.map_values(|s: String| s@);
        ids.push(id);
        assert(ids@.map_values(|s: String| s@) =~= before.push(id@));
        self.ids = ids;
    }
}

/// Sorts one entry of a batch before any network access: a blank entry is
/// skipped; an entry that is not a YouTube link, has no recognisable video,
/// or repeats a video met earlier in the batch is answered at once; any other
/// is to be analysed, and its video is marked as met.
pub fn triage_url(url: &str, seen: &mut SeenVideos) -> (r: UrlTriage)
    ensures
        final(seen).id_list().no_duplicates(),
        ({
            let clean = trim_text(url@);
            let kind = triage_kind(url@, old(seen).id_list());
            if kind == TriageKind::Skip {
                r is Skip && final(seen).id_list() == old(seen).id_list()
            } else if kind == TriageKind::Invalid {
                r matches UrlTriage::Reject(f) && plain_failure(f, clean, invalid_url_text())
                    && final(seen).id_list() == old(seen).id_list()
            } else if kind == TriageKind::NoId {
                r matches UrlTriage::Reject(f) && plain_failure(f, clean, no_id_text())
                    && final(seen).id_list() == old(seen).id_list()
            } else if kind == TriageKind::Repeated {
                r matches UrlTriage::Reject(f) && plain_failure(f, clean, repeated_text())
                    && final(seen).id_list() == old(seen).id_list()
            } else {
                &&& r matches UrlTriage::Analyze { url: u, video_id: id } && u@ == clean && id@ == video_id_of(clean).unwrap()
                &&& final(seen).id_list() == old(seen).id_list().push(video_id_of(clean).unwrap())
            }
        }),
{
    proof {
        use_type_invariant(&*seen);
    }
    let raw = chars_of(url);
    let clean = trim_chars(&raw);
    if clean.len() == 0 {
        return UrlTriage::Skip;
    }
    let clean_url = string_from_chars(&clean);
    if !is_supported_youtube_url(clean_url.as_str()) {
        return UrlTriage::Reject(failure(&clean, "URL inválida o no compatible. Usá un enlace de YouTube."));
    }
    let video_id = match youtube_video_id(clean_url.as_str()) {
        Some(id) => id,
        None => {
            return UrlTriage::Reject(failure(
                &clean,
                "No se pudo obtener localmente el ID del video. Usá un enlace directo de YouTube.",
            ));
        },
    };
    if seen.contains(&video_id) {
        return UrlTriage::Reject(failure(
            &clean,
            "El video está repetido en la lista; se omitió sin consultar YouTube.",
        ));
    }
    seen.insert(video_id.clone());
    proof {
        use_type_invariant(&*seen);
    }
    UrlTriage::Analyze { url: clean_url, video_id }
}

/// The answer for a video whose earlier download is still on disk.
pub fn already_downloaded(url: String, existing_id: String) -> (r: AnalysisFailure)
    ensures
        r.url == url,
        r.message@ == already_downloaded_text(),
        !r.requires_browser_session,
        r.existing_download_id == Some(existing_id),
        r.retry_after_epoch is None,
{
    AnalysisFailure {
        url,
        message: owned("Este video ya está descargado y el archivo sigue disponible. No se volvió a consultar YouTube."),
        requires_browser_session: false,
        existing_download_id: Some(existing_id),
        retry_after_epoch: None,
    }
}

/// The answer for a URL met while the cooldown runs: no request is made.
pub fn cooling_down(url: String, until: u64, now_epoch: u64) -> (r: AnalysisFailure)
    ensures
        r.url == url,
        r.message@ == cooldown_text(until, now_epoch),
        !r.requires_browser_session,
        r.existing_download_id is None,
        r.retry_after_epoch == Some(until),
{
    AnalysisFailure {
        url,
        message: cooldown_message(until, now_epoch),
        requires_browser_session: false,
        existing_download_id: None,
        retry_after_epoch: Some(until),
    }
}

/// A failed analysis as reported once it is known whether the cooldown runs:
/// while it does, the failure says so and when it ends.
pub fn with_cooldown(failure: AnalysisFailure, until: Option<u64>, now_epoch: u64) -> (r: AnalysisFailure)
    ensures
        r.url == failure.url,
        r.requires_browser_session == failure.requires_browser_session,
        r.existing_download_id == failure.existing_download_id,
        r.retry_after_epoch == until,
        until matches Some(u) ==> r.message@ == cooldown_text(u, now_epoch),
        until is None ==> r.message == failure.message,
{
    let mut f = failure;
    f.retry_after_epoch = until;
    match until {
        Some(u) => {
            f.message = cooldown_message(u, now_epoch);
        },
        None => {},
    }
    f
}

/// How the triage of one entry ends.
#[derive(Debug, Clone, Copy, PartialEq, Eq, Structural)]
pub enum TriageKind {
    Skip,
    Invalid,
    NoId,
    Repeated,
    Analyze,
}

/// How the triage of the entry `url` ends, given the videos met before.
pub open spec fn triage_kind(url: Seq<char>, seen: Seq<Seq<char>>) -> TriageKind {
    let clean = trim_text(url);
    if clean.len() == 0 {
        TriageKind::Skip
    } else if !supported_youtube_url(clean) {
        TriageKind::Invalid
    } else if video_id_of(clean) is None {
        TriageKind::NoId
    } else if seen.contains(video_id_of(clean).unwrap()) {
        TriageKind::Repeated
    } else {
        TriageKind::Analyze
    }
}

/// Within a batch, a video is analysed at most once: after an entry has been
/// handed out for analysis, a later entry for the same video, in whatever
/// form of link, is answered as a repetition without network access.
pub proof fn lemma_video_analysed_once(seen: Seq<Seq<char>>, first: Seq<char>, later: Seq<char>)
    requires
        triage_kind(first, seen) == TriageKind::Analyze,
        triage_kind(later, seen) != TriageKind::Skip,
        triage_kind(later, seen) != TriageKind::Invalid,
        triage_kind(later, seen) != TriageKind::NoId,
        video_id_of(trim_text(later)) == video_id_of(trim_text(first)),
    ensures
        triage_kind(later, seen.push(video_id_of(trim_text(first)).unwrap())) == TriageKind::Repeated,
{
    let id = video_id_of(trim_text(first)).unwrap();
    assert(seen.push(id)[seen.len() as int] == id);
}

/// What is known so far about an entry handed out for analysis. A field is
/// `None` until its check has been made.
pub struct UrlChecks {
    /// Whether the download history is to be ignored.
    pub ignore_history: bool,
    /// The history lookup: the identifier of an earlier download whose file
    /// is still there, if any.
    pub history: Option<Option<String>>,
    /// The cache lookup: whether the video's analysis was found.
    pub cached: Option<bool>,
    /// The cooldown check: the end of a running cooldown, if any.
    pub cooldown: Option<Option<u64>>,
}

/// The next thing to do for an entry handed out for analysis.
pub enum UrlAction {
    /// Look the video up in the download history.
    LookUpHistory,
    /// Answer that the video is already downloaded, as this earlier job.
    AnswerDownloaded(String),
    /// Look the video up in the analysis cache.
    LookUpCache,
    /// Answer with the cached analysis.
    UseCached,
    /// Check whether the cooldown runs.
    CheckCooldown,
    /// Answer that the cooldown runs until this epoch second.
    AnswerCoolingDown(u64),
    /// Analyse the video over the network.
    Analyze,
}

/// The order of the checks for one entry: the history (unless ignored), then
/// the cache, then the cooldown; the network is used only when all three
/// came back empty.
pub open spec fn url_action(c: UrlChecks) -> UrlAction {
    match (if c.ignore_history { Some(None) } else { c.history }) {
        None => UrlAction::LookUpHistory,
        Some(Some(id)) => UrlAction::AnswerDownloaded(id),
        Some(None) => match c.cached {
            None => UrlAction::LookUpCache,
            Some(true) => UrlAction::UseCached,
            Some(false) => match c.cooldown {
                None => UrlAction::CheckCooldown,
                Some(Some(until)) => UrlAction::AnswerCoolingDown(until),
                Some(None) => UrlAction::Analyze,
            },
        },
    }
}

impl UrlChecks {
    /// No check made yet.
    pub fn new(ignore_history: bool) -> (r: UrlChecks)
        ensures
            r.ignore_history == ignore_history,
            r.history is None,
            r.cached is None,
            r.cooldown is None,
    {
        UrlChecks { ignore_history, history: None, cached: None, cooldown: None }
    }
}

/// The next step for an entry handed out for analysis (see `url_action`).
pub fn next_url_action(checks: &UrlChecks) -> (r: UrlAction)
    ensures
        r == url_action(*checks),
{
    if !checks.ignore_history {
        match &checks.history {
            None => {
                return UrlAction::LookUpHistory;
            },
            Some(Some(id)) => {
                return UrlAction::AnswerDownloaded(id.clone());
            },
            Some(None) => {},
        }
    }
    match checks.cached {
        None => UrlAction::LookUpCache,
        Some(true) => UrlAction::UseCached,
        Some(false) => match checks.cooldown {
            None => UrlAction::CheckCooldown,
            Some(Some(until)) => UrlAction::AnswerCoolingDown(until),
            Some(None) => UrlAction::Analyze,
        },
    }
}

/// YouTube is asked about an entry only after every local answer came back
/// empty: no earlier download on disk (unless the history is ignored), no
/// cached analysis, and no running cooldown. An ignored history is never
/// consulted.
pub proof fn lemma_network_is_last(c: UrlChecks)
    ensures
        url_action(c) is Analyze ==> (c.ignore_history || c.history == Some(None::<String>))
            && c.cached == Some(false) && c.cooldown == Some(None::<u64>),
        c.ignore_history ==> !(url_action(c) is LookUpHistory) && !(url_action(c) is AnswerDownloaded),
{
}

} // verus!
