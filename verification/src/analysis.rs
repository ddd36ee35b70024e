use vstd::prelude::*;

use crate::access::{strategy_browser, warrants_pot_spec, YoutubeAccessStrategy, YoutubeFailureClass};
use crate::engine::{lossy_string, lossy_text};
use crate::failure::{browser_phrase, class_failure_message, class_message, classify_youtube_failure, failure_class_of};
use crate::text::owned;

verus! {

/// One failed attempt to read a video's metadata: its class and, where there
/// is one, the safe message for it.
pub struct AnalysisAttemptFailure {
    pub class: YoutubeFailureClass,
    pub message: Option<String>,
}

/// The plain content of an attempt failure.
pub type AttemptView = (YoutubeFailureClass, Option<Seq<char>>);

/// The failure of an attempt whose yt-dlp process exited with an error: the
/// class of its error output (read as UTF-8, invalid sequences replaced) and
/// the safe message for that class. The raw output is not kept.
pub fn failed_attempt(stderr: &Vec<u8>, strategy: &YoutubeAccessStrategy) -> (r: AnalysisAttemptFailure)
    ensures
        r.class == failure_class_of(lossy_text(stderr@)),
        opt_text(r.message) == class_message(r.class, browser_phrase(*strategy)),
{
    let technical = lossy_string(stderr);
    let class = classify_youtube_failure(technical.as_str());
    let message = class_failure_message(class, strategy);
    AnalysisAttemptFailure { class, message }
}

/// The view of an optional string.
pub open spec fn opt_text(s: Option<String>) -> Option<Seq<char>> {
    match s {
        Some(t) => Some(t@),
        None => None,
    }
}

impl View for AnalysisAttemptFailure {
    type V = AttemptView;

    open spec fn view(&self) -> AttemptView {
        (self.class, opt_text(self.message))
    }
}

/// The views of a list of attempt failures.
pub open spec fn attempts_view(a: Seq<AnalysisAttemptFailure>) -> Seq<AttemptView> {
    a.map_values(|x: AnalysisAttemptFailure| x@)
}

/// A URL that could not be analysed, with the message shown for it.
pub struct AnalysisFailure {
    pub url: String,
    pub message: String,
    pub requires_browser_session: bool,
    pub existing_download_id: Option<String>,
    pub retry_after_epoch: Option<u64>,
}

/// The earliest attempt of class `c`.
pub open spec fn find_class(a: Seq<AttemptView>, c: YoutubeFailureClass) -> Option<AttemptView>
    decreases a.len(),
{
    if a.len() == 0 {
        None
    } else if a[0].0 == c {
        Some(a[0])
    } else {
        find_class(a.drop_first(), c)
    }
}

/// Some attempt has class `c`.
pub open spec fn any_class(a: Seq<AttemptView>, c: YoutubeFailureClass) -> bool {
    exists|i: int| 0 <= i < a.len() && (#[trigger] a[i]).0 == c
}

/// The failure classes that end an analysis, in the order in which they are
/// reported.
pub open spec fn terminal_classes() -> Seq<YoutubeFailureClass> {
    seq![
        YoutubeFailureClass::Private,
        YoutubeFailureClass::GeoRestricted,
        YoutubeFailureClass::RateLimited,
        YoutubeFailureClass::Unavailable,
        YoutubeFailureClass::TimedOut,
        YoutubeFailureClass::Network,
        YoutubeFailureClass::ExtractorOutdated,
    ]
}

/// The earliest attempt of the first class in `classes` that occurs at all.
pub open spec fn first_of_classes(a: Seq<AttemptView>, classes: Seq<YoutubeFailureClass>) -> Option<AttemptView>
    decreases classes.len(),
{
    if classes.len() == 0 {
        None
    } else {
        match find_class(a, classes[0]) {
            Some(x) => Some(x),
            None => first_of_classes(a, classes.drop_first()),
        }
    }
}

/// The message of the latest attempt that has one.
pub open spec fn last_message(a: Seq<AttemptView>) -> Option<Seq<char>>
    decreases a.len(),
{
    if a.len() == 0 {
        None
    } else if a.last().1 is Some {
        a.last().1
    } else {
        last_message(a.drop_last())
    }
}

/// The message shown when a URL needs an account.
pub open spec fn account_message() -> Seq<char> {
    "Este contenido exige una cuenta. Por privacidad, la aplicación no lee ni usa sesiones de tus navegadores y no realizó solicitudes autenticadas."@
}

/// The message shown when nothing more specific is known.
pub open spec fn generic_message() -> Seq<char> {
    "No se pudo obtener la información del video."@
}

/// The message of a failed automatic analysis, given its attempts in order.
pub open spec fn automatic_message(a: Seq<AttemptView>) -> Seq<char> {
    if any_class(a, YoutubeFailureClass::AccountRequired) {
        account_message()
    } else if first_of_classes(a, terminal_classes()) is Some {
        match first_of_classes(a, terminal_classes()).unwrap().1 {
            Some(m) => m,
            None => generic_message(),
        }
    } else if any_class(a, YoutubeFailureClass::AntiBotChallenge) {
        "No se pudo completar la verificación automática de YouTube mediante el acceso público y el verificador local."@
    } else if any_class(a, YoutubeFailureClass::PotUnavailable) {
        "El verificador local de YouTube no estuvo disponible. Comprobá la conexión y reintentá."@
    } else {
        match last_message(a) {
            Some(m) => m,
            None => generic_message(),
        }
    }
}

proof fn lemma_find_class_absent(a: Seq<AttemptView>, c: YoutubeFailureClass)
    ensures
        find_class(a, c) is None <==> !any_class(a, c),
    decreases a.len(),
{
    if a.len() > 0 {
        lemma_find_class_absent(a.drop_first(), c);
        if any_class(a.drop_first(), c) {
            let i = choose|i: int| 0 <= i < a.drop_first().len() && (#[trigger] a.drop_first()[i]).0 == c;
            assert(a[i + 1] == a.drop_first()[i]);
        }
        if any_class(a, c) && a[0].0 != c {
            let i = choose|i: int| 0 <= i < a.len() && (#[trigger] a[i]).0 == c;
            assert(a.drop_first()[i - 1] == a[i]);
        }
    }
}

/// The earliest attempt of class `c`, by position.
fn find_attempt(attempts: &[AnalysisAttemptFailure], c: YoutubeFailureClass) -> (r: Option<usize>)
    ensures
        r matches Some(i) ==> i < attempts@.len() && find_class(attempts_view(attempts@), c) == Some(attempts@[i as int]@),
        r is None ==> find_class(attempts_view(attempts@), c) is None,
{
    let ghost v = attempts_view(attempts@);
    assert(v.subrange(0, v.len() as int) == v);
    let mut i: usize = 0;
    while i < attempts.len()
        invariant
            i <= attempts@.len(),
            v == attempts_view(attempts@),
            find_class(v, c) == find_class(v.subrange(i as int, v.len() as int), c),
        decreases attempts.len() - i,
    {
        let ghost rest = v.subrange(i as int, v.len() as int);
        assert(rest[0] == attempts@[i as int]@);
        if attempts[i].class == c {
            return Some(i);
        }
        assert(rest.drop_first() == v.subrange(i + 1, v.len() as int));
        i = i + 1;
    }
    assert(v.subrange(i as int, v.len() as int).len() == 0);
    None
}

/// Whether some attempt has class `c`.
fn has_class(attempts: &[AnalysisAttemptFailure], c: YoutubeFailureClass) -> (r: bool)
    ensures
        r == any_class(attempts_view(attempts@), c),
{
    proof {
        lemma_find_class_absent(attempts_view(attempts@), c);
    }
    find_attempt(attempts, c).is_some()
}

/// A copy of an optional string.
pub fn copy_opt(s: &Option<String>) -> (r: Option<String>)
    ensures
        opt_text(r) == opt_text(*s),
{
    match s {
        Some(t) => Some(t.clone()),
        None => None,
    }
}

/// The message of the latest attempt that has one.
fn latest_message(attempts: &[AnalysisAttemptFailure]) -> (r: Option<String>)
    ensures
        opt_text(r) == last_message(attempts_view(attempts@)),
{
    let ghost v = attempts_view(attempts@);
    assert(v.subrange(0, v.len() as int) == v);
    let mut i: usize = attempts.len();
    while i > 0
        invariant
            i <= attempts@.len(),
            v == attempts_view(attempts@),
            last_message(v) == last_message(v.subrange(0, i as int)),
            forall|j: int| i <= j < v.len() ==> (#[trigger] v[j]).1 is None,
        decreases i,
    {
        let ghost pre = v.subrange(0, i as int);
        assert(pre.last() == attempts@[i - 1]@);
        if attempts[i - 1].message.is_some() {
            return copy_opt(&attempts[i - 1].message);
        }
        assert(pre.drop_last() == v.subrange(0, i - 1));
        i = i - 1;
    }
    None
}

/// The earliest attempt of the first terminal class that occurs.
fn terminal_attempt(attempts: &[AnalysisAttemptFailure]) -> (r: Option<usize>)
    ensures
        r matches Some(i) ==> i < attempts@.len() && first_of_classes(attempts_view(attempts@), terminal_classes()) == Some(attempts@[i as int]@),
        r is None ==> first_of_classes(attempts_view(attempts@), terminal_classes()) is None,
{
    let classes: Vec<YoutubeFailureClass> = vec![
        YoutubeFailureClass::Private,
        YoutubeFailureClass::GeoRestricted,
        YoutubeFailureClass::RateLimited,
        YoutubeFailureClass::Unavailable,
        YoutubeFailureClass::TimedOut,
        YoutubeFailureClass::Network,
        YoutubeFailureClass::ExtractorOutdated,
    ];
    assert(classes@ == terminal_classes());
    let ghost v = attempts_view(attempts@);
    assert(classes@.subrange(0, classes@.len() as int) == classes@);
    let mut k: usize = 0;
    while k < classes.len()
        invariant
            k <= classes@.len(),
            v == attempts_view(attempts@),
            classes@ == terminal_classes(),
            first_of_classes(v, terminal_classes()) == first_of_classes(v, classes@.subrange(k as int, classes@.len() as int)),
        decreases classes.len() - k,
    {
        let ghost rest = classes@.subrange(k as int, classes@.len() as int);
        assert(rest[0] == classes@[k as int]);
        match find_attempt(attempts, classes[k]) {
            Some(i) => {
                return Some(i);
            },
            None => {},
        }
        assert(rest.drop_first() == classes@.subrange(k + 1, classes@.len() as int));
        k = k + 1;
    }
    None
}

/// The failure reported for a URL whose automatic analysis failed, given its
/// attempts in order. An attempt that showed that the content needs an account
/// wins; then the first terminal failure; then an anti-bot challenge; then an
/// unavailable token provider; then the latest message that any attempt had.
pub fn automatic_failure(url: String, attempts: &[AnalysisAttemptFailure]) -> (r: AnalysisFailure)
    ensures
        r.url == url,
        r.requires_browser_session == any_class(attempts_view(attempts@), YoutubeFailureClass::AccountRequired),
        r.message@ == automatic_message(attempts_view(attempts@)),
        r.existing_download_id is None,
        r.retry_after_epoch is None,
{
    let requires_browser_session = has_class(attempts, YoutubeFailureClass::AccountRequired);
    let message = if requires_browser_session {
        owned("Este contenido exige una cuenta. Por privacidad, la aplicación no lee ni usa sesiones de tus navegadores y no realizó solicitudes autenticadas.")
    } else {
        match terminal_attempt(attempts) {
            Some(i) => match &attempts[i].message {
                Some(m) => m.clone(),
                None => owned("No se pudo obtener la información del video."),
            },
            None => if has_class(attempts, YoutubeFailureClass::AntiBotChallenge) {
                owned("No se pudo completar la verificación automática de YouTube mediante el acceso público y el verificador local.")
            } else if has_class(attempts, YoutubeFailureClass::PotUnavailable) {
                owned("El verificador local de YouTube no estuvo disponible. Comprobá la conexión y reintentá.")
            } else {
                match latest_message(attempts) {
                    Some(m) => m,
                    None => owned("No se pudo obtener la información del video."),
                }
            },
        }
    };
    AnalysisFailure {
        url,
        message,
        requires_browser_session,
        existing_download_id: None,
        retry_after_epoch: None,
    }
}


/// The strategy of the next attempt of an automatic analysis, given the
/// attempts that failed so far: public access first; one retry with the local
/// token provider when the public attempt met a challenge that the provider
/// answers; nothing after that.
pub open spec fn planned_strategy(a: Seq<AttemptView>) -> Option<YoutubeAccessStrategy> {
    if a.len() == 0 {
        Some(YoutubeAccessStrategy::Public)
    } else if a.len() == 1 && warrants_pot_spec(a[0].0) {
        Some(YoutubeAccessStrategy::Pot)
    } else {
        None
    }
}

/// Whether a failure of class `c`, after the failures `a`, starts the local
/// cooldown: an explicit rate limit always does; an anti-bot challenge does
/// when both the public attempt and the token provider met it.
pub open spec fn cooldown_after(a: Seq<AttemptView>, c: YoutubeFailureClass) -> bool {
    c == YoutubeFailureClass::RateLimited
        || (a.len() == 1 && a[0].0 == YoutubeFailureClass::AntiBotChallenge
            && c == YoutubeFailureClass::AntiBotChallenge)
}

/// The attempts made so far in the automatic analysis of one URL. The caller
/// asks for the next strategy, runs the attempt, and records its failure.
pub struct AutomaticAnalysis {
    attempts: Vec<AnalysisAttemptFailure>,
}

impl AutomaticAnalysis {
    /// The failures recorded so far, in order.
    pub closed spec fn history(&self) -> Seq<AttemptView> {
        attempts_view(self.attempts@)
    }

    /// An analysis with no attempt made.
    pub fn new() -> (r: AutomaticAnalysis)
        ensures
            r.history() == Seq::<AttemptView>::empty(),
    {
        let r = AutomaticAnalysis { attempts: Vec::new() };
        assert(r.history() =~= Seq::<AttemptView>::empty());
        r
    }

    /// How many attempts have failed.
    pub fn attempt_count(&self) -> (r: usize)
        ensures
            r == self.history().len(),
    {
        self.attempts.len()
    }

    /// The strategy for the next attempt, or `None` when the analysis is over.
    pub fn next_strategy(&self) -> (r: Option<YoutubeAccessStrategy>)
        ensures
            r == planned_strategy(self.history()),
    {
        if self.attempts.len() == 0 {
            Some(YoutubeAccessStrategy::Public)
        } else if self.attempts.len() == 1 && self.attempts[0].class.warrants_pot() {
            assert(self.history()[0] == self.attempts@[0]@);
            Some(YoutubeAccessStrategy::Pot)
        } else {
            proof {
                if self.attempts.len() == 1 {
                    assert(self.history()[0] == self.attempts@[0]@);
                }
            }
            None
        }
    }

    /// Records the failure of the attempt that `next_strategy` asked for, and
    /// says whether it starts the local cooldown (returning the class that
    /// names the cause).
    pub fn record_failure(&mut self, failure: AnalysisAttemptFailure) -> (r: Option<YoutubeFailureClass>)
        requires
            planned_strategy(old(self).history()) is Some,
        ensures
            final(self).history() == old(self).history().push(failure@),
            r is Some <==> cooldown_after(old(self).history(), failure.class),
            r matches Some(c) ==> c == failure.class,
    {
        let class = failure.class;
        let first_was_anti_bot = self.attempts.len() == 1
            && self.attempts[0].class == YoutubeFailureClass::AntiBotChallenge;
        proof {
            if self.attempts.len() == 1 {
                assert(self.history()[0] == self.attempts@[0]@);
            }
        }
        self.attempts.push(failure);
        assert(self.history() =~= old(self).history().push(failure@));
        if class == YoutubeFailureClass::RateLimited
            || (first_was_anti_bot && class == YoutubeFailureClass::AntiBotChallenge) {
            Some(class)
        } else {
            None
        }
    }

    /// The failure reported for `url` once no strategy is left.
    pub fn into_failure(self, url: String) -> (r: AnalysisFailure)
        ensures
            r.url == url,
            r.requires_browser_session == any_class(self.history(), YoutubeFailureClass::AccountRequired),
            r.message@ == automatic_message(self.history()),
            r.existing_download_id is None,
            r.retry_after_epoch is None,
    {
        automatic_failure(url, self.attempts.as_slice())
    }
}

/// A public attempt that met YouTube's anti-bot challenge or was told that a
/// proof-of-origin token is required is retried once, through the local
/// token provider; a public attempt that failed in any other way is not
/// retried, and nothing follows the token provider's attempt.
pub proof fn lemma_token_provider_retry(a: Seq<AttemptView>)
    ensures
        a.len() == 1 && (a[0].0 == YoutubeFailureClass::AntiBotChallenge || a[0].0
            == YoutubeFailureClass::PotRequired) ==> planned_strategy(a) == Some(YoutubeAccessStrategy::Pot),
        a.len() == 1 && a[0].0 != YoutubeFailureClass::AntiBotChallenge && a[0].0
            != YoutubeFailureClass::PotRequired ==> planned_strategy(a) is None,
        a.len() == 2 ==> planned_strategy(a) is None,
{
}

/// The order in which an automatic analysis accesses YouTube: it starts with
/// public access, never reads a browser session, retries at most once, and
/// retries only with the local token provider after a challenge that the
/// provider answers. A URL whose public attempt showed that it needs an
/// account is not retried.
pub proof fn lemma_access_order(a: Seq<AttemptView>)
    ensures
        a.len() == 0 ==> planned_strategy(a) == Some(YoutubeAccessStrategy::Public),
        planned_strategy(a) matches Some(s) ==> strategy_browser(s) is None,
        a.len() >= 2 ==> planned_strategy(a) is None,
        planned_strategy(a) == Some(YoutubeAccessStrategy::Pot) ==> a.len() == 1 && warrants_pot_spec(a[0].0),
        a.len() == 1 && a[0].0 == YoutubeFailureClass::AccountRequired ==> planned_strategy(a) is None,
{
}

} // verus!
