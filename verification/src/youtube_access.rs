use vstd::prelude::*;

use crate::formats::{same_video_but_url, AnalyzedVideo};
use crate::text::{chars_of, decimal, push_decimal, string_from_chars};

verus! {

/// The least time between the end of one network operation and the start of
/// the next, in milliseconds.
pub const MIN_OPERATION_GAP_MS: u64 = 8000;

/// How long cached metadata stays usable, in milliseconds.
pub const ANALYSIS_CACHE_TTL_MS: u64 = 1_800_000;

/// How long the local cooldown lasts, in seconds.
pub const BLOCK_COOLDOWN_SECONDS: u64 = 1800;

/// The shared traffic state: whether a network operation is under way, the
/// earliest moment (on the caller's monotonic millisecond clock) at which the
/// next may start, and the end of the cooldown (in seconds since the epoch).
pub struct TrafficState {
    pub active: bool,
    pub not_before: Option<u64>,
    pub cooldown_until_epoch: Option<u64>,
}

/// What the caller of `begin_network_operation` does next.
#[derive(Debug, Clone, Copy, PartialEq, Eq, Structural)]
pub enum TrafficStep {
    /// The cooldown is running until this epoch second; no request is made.
    Refuse(u64),
    /// Another operation is under way; wait until it finishes, then ask again.
    WaitForRelease,
    /// Wait this many milliseconds, then ask again.
    WaitFor(u64),
    /// The operation may start; the caller now holds the network turn.
    Proceed,
}

impl TrafficState {
    /// No operation under way, no gap pending, no cooldown.
    pub fn new() -> (r: TrafficState)
        ensures
            !r.active,
            r.not_before is None,
            r.cooldown_until_epoch is None,
    {
        TrafficState { active: false, not_before: None, cooldown_until_epoch: None }
    }
}

/// The cooldown as it is restored at start-up from the persisted end time:
/// kept only while it lies in the future.
pub fn restore_cooldown(state: &mut TrafficState, persisted: Option<u64>, now_epoch: u64)
    ensures
        final(state).active == old(state).active,
        final(state).not_before == old(state).not_before,
        final(state).cooldown_until_epoch == (match persisted {
            Some(until) => if until > now_epoch { Some(until) } else { None },
            None => None,
        }),
{
    state.cooldown_until_epoch = match persisted {
        Some(until) => if until > now_epoch { Some(until) } else { None },
        None => None,
    };
}

/// What one decision of the network-turn loop does to the traffic state.
pub open spec fn begin_outcome(pre: TrafficState, post: TrafficState, r: TrafficStep, now_epoch: u64, now_ms: u64) -> bool {
    match pre.cooldown_until_epoch {
        Some(until) if until > now_epoch => r == TrafficStep::Refuse(until) && post == pre,
        _ => {
            &&& post.cooldown_until_epoch is None
            &&& post.not_before == pre.not_before
            &&& if pre.active {
                r == TrafficStep::WaitForRelease && post.active
            } else {
                match pre.not_before {
                    Some(nb) if nb > now_ms => r == TrafficStep::WaitFor((nb - now_ms) as u64) && !post.active,
                    _ => r == TrafficStep::Proceed && post.active,
                }
            }
        },
    }
}

/// One decision of the loop that waits for the network turn: a running
/// cooldown refuses; an expired one is cleared; an operation under way or a
/// pending gap makes the caller wait; otherwise the caller takes the turn.
pub fn begin_network_operation(state: &mut TrafficState, now_epoch: u64, now_ms: u64) -> (r: TrafficStep)
    ensures
        begin_outcome(*old(state), *final(state), r, now_epoch, now_ms),
{
    match state.cooldown_until_epoch {
        Some(until) => {
            if until > now_epoch {
                return TrafficStep::Refuse(until);
            }
            state.cooldown_until_epoch = None;
        },
        None => {},
    }
    if state.active {
        return TrafficStep::WaitForRelease;
    }
    match state.not_before {
        Some(nb) => {
            if nb > now_ms {
                return TrafficStep::WaitFor(nb - now_ms);
            }
        },
        None => {},
    }
    state.active = true;
    TrafficStep::Proceed
}

/// Releases the network turn and makes the next operation wait the minimum
/// gap.
pub fn finish_network_operation(state: &mut TrafficState, now_ms: u64)
    requires
        now_ms + MIN_OPERATION_GAP_MS <= u64::MAX,
    ensures
        !final(state).active,
        final(state).not_before == Some((now_ms + MIN_OPERATION_GAP_MS) as u64),
        final(state).cooldown_until_epoch == old(state).cooldown_until_epoch,
{
    state.active = false;
    state.not_before = Some(now_ms + MIN_OPERATION_GAP_MS);
}

/// The end of the cooldown, while it is still running.
pub fn cooldown_until(state: &TrafficState, now_epoch: u64) -> (r: Option<u64>)
    ensures
        r == (match state.cooldown_until_epoch {
            Some(until) => if until > now_epoch { Some(until) } else { None },
            None => None,
        }),
{
    match state.cooldown_until_epoch {
        Some(until) => if until > now_epoch { Some(until) } else { None },
        None => None,
    }
}

/// One step of waiting out the cooldown: the seconds still to wait, or
/// `None` once it is over (an expired cooldown is then cleared).
pub fn wait_for_cooldown(state: &mut TrafficState, now_epoch: u64) -> (r: Option<u64>)
    ensures
        final(state).active == old(state).active,
        final(state).not_before == old(state).not_before,
        match old(state).cooldown_until_epoch {
            Some(until) => if until > now_epoch {
                r == Some((until - now_epoch) as u64) && final(state).cooldown_until_epoch == old(state).cooldown_until_epoch
            } else {
                r is None && final(state).cooldown_until_epoch is None
            },
            None => r is None && final(state).cooldown_until_epoch is None,
        },
{
    match state.cooldown_until_epoch {
        None => None,
        Some(until) => {
            if until > now_epoch {
                Some(until - now_epoch)
            } else {
                state.cooldown_until_epoch = None;
                None
            }
        },
    }
}

/// Starts (or extends) the local cooldown and returns the end time that is
/// persisted: the cooldown never ends earlier than it already did.
pub fn activate_cooldown(state: &mut TrafficState, now_epoch: u64) -> (r: u64)
    requires
        now_epoch + BLOCK_COOLDOWN_SECONDS <= u64::MAX,
    ensures
        r == now_epoch + BLOCK_COOLDOWN_SECONDS,
        final(state).active == old(state).active,
        final(state).not_before == old(state).not_before,
        final(state).cooldown_until_epoch == Some(match old(state).cooldown_until_epoch {
            Some(existing) => if existing > r { existing } else { r },
            None => r,
        }),
{
    let until = now_epoch + BLOCK_COOLDOWN_SECONDS;
    state.cooldown_until_epoch = Some(
        match state.cooldown_until_epoch {
            Some(existing) => if existing > until { existing } else { until },
            None => until,
        },
    );
    until
}

/// The whole minutes left of a cooldown (rounded up, at least one).
pub open spec fn cooldown_minutes(until: u64, now_epoch: u64) -> nat {
    let remaining: nat = if until > now_epoch { (until - now_epoch) as nat } else { 0 };
    let minutes: nat = (remaining + 59) / 60;
    if minutes == 0 { 1 } else { minutes }
}

/// The message shown while the cooldown runs.
pub open spec fn cooldown_text(until: u64, now_epoch: u64) -> Seq<char> {
    let minutes = cooldown_minutes(until, now_epoch);
    "YouTube aplicó una verificación temporal. Para no agravarla, la aplicación detuvo las solicitudes durante "@
        + decimal(minutes) + " minuto"@ + (if minutes == 1 { ""@ } else { "s"@ }) + "."@
}

/// The message shown while the cooldown runs until `until`, at time
/// `now_epoch`.
pub fn cooldown_message(until: u64, now_epoch: u64) -> (r: String)
    ensures
        r@ == cooldown_text(until, now_epoch),
{
    let remaining: u64 = if until > now_epoch { until - now_epoch } else { 0 };
    let minutes: u64 = remaining / 60 + if remaining % 60 == 0 { 0 } else { 1 };
    let minutes: u64 = if minutes == 0 { 1 } else { minutes };
    assert(minutes == cooldown_minutes(until, now_epoch));
    let mut text = chars_of(
        "YouTube aplicó una verificación temporal. Para no agravarla, la aplicación detuvo las solicitudes durante ",
    );
    push_decimal(&mut text, minutes);
    let mut tail = chars_of(" minuto");
    text.append(&mut tail);
    if minutes != 1 {
        let mut plural = chars_of("s");
        text.append(&mut plural);
    }
    let mut stop = chars_of(".");
    text.append(&mut stop);
    proof {
        let minutes_nat = cooldown_minutes(until, now_epoch);
        if minutes == 1 {
            reveal_strlit("");
            assert(text@ =~= cooldown_text(until, now_epoch));
        } else {
            assert(text@ =~= cooldown_text(until, now_epoch));
        }
    }
    string_from_chars(&text)
}

/// Consecutive network operations are spaced: once an operation has
/// finished at `t_finish`, a later request for the turn at `t_begin` is
/// granted only when at least the minimum gap has passed, and never while
/// the cooldown runs.
pub proof fn lemma_operations_are_spaced(
    finished: TrafficState,
    begun: TrafficState,
    step: TrafficStep,
    t_finish: u64,
    now_epoch: u64,
    t_begin: u64,
)
    requires
        finished.not_before == Some((t_finish + MIN_OPERATION_GAP_MS) as u64),
        t_finish + MIN_OPERATION_GAP_MS <= u64::MAX,
        step == TrafficStep::Proceed,
        begin_outcome(finished, begun, step, now_epoch, t_begin),
    ensures
        t_begin >= t_finish + MIN_OPERATION_GAP_MS,
        !finished.active,
        !(finished.cooldown_until_epoch matches Some(until) && until > now_epoch),
{
}


/// Metadata kept for reuse, with the moment (on the caller's monotonic
/// millisecond clock) it was stored.
pub struct CachedAnalysis {
    pub stored_at_ms: u64,
    pub video: AnalyzedVideo,
}

/// The entry is still usable at `now_ms`: less than the time-to-live has
/// passed since it was stored.
pub open spec fn fresh_at(e: CachedAnalysis, now_ms: u64) -> bool {
    (if now_ms >= e.stored_at_ms { now_ms - e.stored_at_ms } else { 0 }) < ANALYSIS_CACHE_TTL_MS
}

/// `i` is the position of the first entry for the video `id`.
pub open spec fn first_entry(entries: Seq<CachedAnalysis>, id: Seq<char>, i: int) -> bool {
    &&& 0 <= i < entries.len()
    &&& entries[i].video.id@ == id
    &&& forall|j: int| 0 <= j < i ==> (#[trigger] entries[j]).video.id@ != id
}

/// No two entries are for the same video.
pub open spec fn distinct_videos(entries: Seq<CachedAnalysis>) -> bool {
    forall|i: int, j: int|
        0 <= i < entries.len() && 0 <= j < entries.len() && i != j ==> (#[trigger] entries[i]).video.id@
            != (#[trigger] entries[j]).video.id@
}

/// Appending an entry for a video that has none keeps the entries distinct.
proof fn lemma_push_keeps_distinct(s: Seq<CachedAnalysis>, e: CachedAnalysis)
    requires
        distinct_videos(s),
        forall|k: int| 0 <= k < s.len() ==> (#[trigger] s[k]).video.id@ != e.video.id@,
    ensures
        distinct_videos(s.push(e)),
{
    let t = s.push(e);
    assert forall|i: int, j: int| 0 <= i < t.len() && 0 <= j < t.len() && i != j implies (#[trigger] t[i]).video.id@
        != (#[trigger] t[j]).video.id@ by {
        if i < s.len() && j < s.len() {
            assert(t[i] == s[i] && t[j] == s[j]);
        } else if i < s.len() {
            assert(t[i] == s[i] && t[j] == e);
        } else {
            assert(t[j] == s[j] && t[i] == e);
        }
    }
}

/// Dropping entries keeps them distinct.
proof fn lemma_filter_keeps_distinct(s: Seq<CachedAnalysis>, p: spec_fn(CachedAnalysis) -> bool)
    requires
        distinct_videos(s),
    ensures
        distinct_videos(s.filter(p)),
    decreases s.len(),
{
    reveal_with_fuel(Seq::filter, 1);
    if s.len() > 0 {
        let rest = s.drop_last();
        assert forall|i: int, j: int| 0 <= i < rest.len() && 0 <= j < rest.len() && i != j implies (
        #[trigger] rest[i]).video.id@ != (#[trigger] rest[j]).video.id@ by {
            assert(rest[i] == s[i] && rest[j] == s[j]);
        }
        lemma_filter_keeps_distinct(rest, p);
        let f = rest.filter(p);
        if p(s.last()) {
            assert forall|k: int| 0 <= k < f.len() implies (#[trigger] f[k]).video.id@ != s.last().video.id@ by {
                assert(f.contains(f[k]));
                rest.lemma_filter_contains_rev(p, f[k]);
                let m = choose|m: int| 0 <= m < rest.len() && rest[m] == f[k];
                assert(s[m] == rest[m]);
                assert(s[s.len() - 1] == s.last());
            }
            lemma_push_keeps_distinct(f, s.last());
        }
    }
}

/// Analysed videos kept for reuse, by video identifier.
pub struct AnalysisCache {
    entries: Vec<CachedAnalysis>,
}

impl AnalysisCache {
    /// The entries, oldest first.
    pub closed spec fn entry_list(&self) -> Seq<CachedAnalysis> {
        self.entries@
    }

    /// At most one entry per video.
    #[verifier::type_invariant]
    closed spec fn one_entry_per_video(&self) -> bool {
        distinct_videos(self.entries@)
    }

    /// An empty cache.
    pub fn new() -> (r: AnalysisCache)
        ensures
            r.entry_list().len() == 0,
    {
        AnalysisCache { entries: Vec::new() }
    }

    /// Drops the entries that are no longer fresh, then looks up the video
    /// `video_id`; a hit is returned under the URL that was asked for now.
    pub fn cached_analysis(&mut self, video_id: &str, requested_url: &str, now_ms: u64) -> (r: Option<AnalyzedVideo>)
        ensures
            final(self).entry_list() == old(self).entry_list().filter(|e: CachedAnalysis| fresh_at(e, now_ms)),
            r matches Some(v) ==> exists|i: int| #![trigger final(self).entry_list()[i]] first_entry(final(self).entry_list(), video_id@, i)
                && same_video_but_url(v, final(self).entry_list()[i].video) && v.url@ == requested_url@,
            r is None ==> forall|i: int| 0 <= i < final(self).entry_list().len() ==> (#[trigger] final(self).entry_list()[i]).video.id@ != video_id@,
            distinct_videos(final(self).entry_list()),
            final(self).entry_list() == after_use(old(self).entry_list(), (now_ms, None)),
    {
        proof {
            use_type_invariant(&*self);
        }
        let mut kept: Vec<CachedAnalysis> = Vec::new();
        let mut rest: Vec<CachedAnalysis> = Vec::new();
        std::mem::swap(&mut rest, &mut self.entries);
        let ghost all = rest@;
        let n = rest.len();
        assert(all.subrange(0, all.len() as int) == all);
        let mut taken: usize = 0;
        while rest.len() > 0
            invariant
                all.len() <= usize::MAX,
                taken + rest@.len() == all.len(),
                rest@ == all.subrange(taken as int, all.len() as int),
                kept@ == all.subrange(0, taken as int).filter(|e: CachedAnalysis| fresh_at(e, now_ms)),
            decreases rest.len(),
        {
            let e = rest.remove(0);
            proof {
                assert(e == all[taken as int]);
                reveal_with_fuel(Seq::filter, 1);
                assert(all.subrange(0, taken + 1).drop_last() == all.subrange(0, taken as int));
                assert(rest@ == all.subrange(taken + 1, all.len() as int));
            }
            let age: u64 = if now_ms >= e.stored_at_ms { now_ms - e.stored_at_ms } else { 0 };
            if age < ANALYSIS_CACHE_TTL_MS {
                kept.push(e);
            }
            taken = taken + 1;
        }
        assert(all.subrange(0, all.len() as int) == all);
        proof {
            lemma_filter_keeps_distinct(all, |e: CachedAnalysis| fresh_at(e, now_ms));
        }
        self.entries = kept;
        let wanted = chars_of(video_id);
        let mut i: usize = 0;
        while i < self.entries.len()
            invariant
                i <= self.entries@.len(),
                wanted@ == video_id@,
                all == old(self).entries@,
                self.entries@ == all.filter(|e: CachedAnalysis| fresh_at(e, now_ms)),
                distinct_videos(self.entries@),
                forall|j: int| 0 <= j < i ==> (#[trigger] self.entries@[j]).video.id@ != video_id@,
            decreases self.entries.len() - i,
        {
            let id = chars_of(self.entries[i].video.id.as_str());
            if crate::text::same_chars(&id, &wanted) {
                let hit = self.entries[i].video.copy_with_url(crate::text::owned(requested_url));
                assert(first_entry(self.entries@, video_id@, i as int));
                return Some(hit);
            }
            i = i + 1;
        }
        None
    }

    /// Stores a freshly analysed video, replacing any entry for the same
    /// identifier.
    pub fn cache_analysis(&mut self, video: AnalyzedVideo, now_ms: u64)
        ensures
            final(self).entry_list() == old(self).entry_list().filter(|e: CachedAnalysis| e.video.id@ != video.id@).push(
                CachedAnalysis { stored_at_ms: now_ms, video },
            ),
            distinct_videos(final(self).entry_list()),
            final(self).entry_list() == after_use(old(self).entry_list(), (now_ms, Some(video))),
    {
        proof {
            use_type_invariant(&*self);
        }
        let ghost all = self.entries@;
        let wanted = chars_of(video.id.as_str());
        let mut kept: Vec<CachedAnalysis> = Vec::new();
        let mut rest: Vec<CachedAnalysis> = Vec::new();
        std::mem::swap(&mut rest, &mut self.entries);
        let n = rest.len();
        assert(all.subrange(0, all.len() as int) == all);
        let mut taken: usize = 0;
        while rest.len() > 0
            invariant
                wanted@ == video.id@,
                all.len() <= usize::MAX,
                taken + rest@.len() == all.len(),
                rest@ == all.subrange(taken as int, all.len() as int),
                kept@ == all.subrange(0, taken as int).filter(|e: CachedAnalysis| e.video.id@ != video.id@),
            decreases rest.len(),
        {
            let e = rest.remove(0);
            proof {
                assert(e == all[taken as int]);
                reveal_with_fuel(Seq::filter, 1);
                assert(all.subrange(0, taken + 1).drop_last() == all.subrange(0, taken as int));
                assert(rest@ == all.subrange(taken + 1, all.len() as int));
            }
            let id = chars_of(e.video.id.as_str());
            if !crate::text::same_chars(&id, &wanted) {
                kept.push(e);
            }
            taken = taken + 1;
        }
        assert(all.subrange(0, all.len() as int) == all);
        let ghost others_pred = |e: CachedAnalysis| e.video.id@ != video.id@;
        proof {
            lemma_filter_keeps_distinct(all, others_pred);
            assert forall|k: int| 0 <= k < kept@.len() implies (#[trigger] kept@[k]).video.id@ != video.id@ by {
                all.lemma_filter_pred(others_pred, k);
            }
            lemma_push_keeps_distinct(kept@, CachedAnalysis { stored_at_ms: now_ms, video });
        }
        kept.push(CachedAnalysis { stored_at_ms: now_ms, video });
        self.entries = kept;
    }
}

/// One use of the cache: a lookup at a moment (`None`) or the storing of a
/// video at a moment (`Some`), on the caller's millisecond clock.
pub type CacheUse = (u64, Option<AnalyzedVideo>);

/// The entries after one use, as `cached_analysis` and `cache_analysis`
/// leave them.
pub open spec fn after_use(entries: Seq<CachedAnalysis>, u: CacheUse) -> Seq<CachedAnalysis> {
    match u.1 {
        None => entries.filter(|e: CachedAnalysis| fresh_at(e, u.0)),
        Some(w) => entries.filter(|e: CachedAnalysis| e.video.id@ != w.id@).push(
            CachedAnalysis { stored_at_ms: u.0, video: w },
        ),
    }
}

/// The entries after a run of uses, in order.
pub open spec fn after_uses(entries: Seq<CachedAnalysis>, uses: Seq<CacheUse>) -> Seq<CachedAnalysis>
    decreases uses.len(),
{
    if uses.len() == 0 {
        entries
    } else {
        after_uses(after_use(entries, uses[0]), uses.drop_first())
    }
}

/// The entry that storing `v` at `t0` makes.
pub open spec fn stored_entry(v: AnalyzedVideo, t0: u64) -> CachedAnalysis {
    CachedAnalysis { stored_at_ms: t0, video: v }
}

/// Every entry for `v`'s video is `v` as stored at `t0`.
pub open spec fn only_as_stored(entries: Seq<CachedAnalysis>, v: AnalyzedVideo, t0: u64) -> bool {
    forall|i: int|
        0 <= i < entries.len() && (#[trigger] entries[i]).video.id@ == v.id@ ==> entries[i] == stored_entry(v, t0)
}

/// A use that stores nothing for `v`'s video.
pub open spec fn stores_other(u: CacheUse, v: AnalyzedVideo) -> bool {
    match u.1 {
        None => true,
        Some(w) => w.id@ != v.id@,
    }
}

/// A use that leaves `v`'s entry stored at `t0` in place: a lookup while the
/// entry is fresh, or the storing of another video.
pub open spec fn spares(u: CacheUse, v: AnalyzedVideo, t0: u64) -> bool {
    match u.1 {
        None => fresh_at(stored_entry(v, t0), u.0),
        Some(w) => w.id@ != v.id@,
    }
}

proof fn lemma_filter_member(s: Seq<CachedAnalysis>, p: spec_fn(CachedAnalysis) -> bool, i: int)
    requires
        0 <= i < s.filter(p).len(),
    ensures
        s.contains(s.filter(p)[i]),
        p(s.filter(p)[i]),
{
    assert(s.filter(p).contains(s.filter(p)[i]));
    s.lemma_filter_contains_rev(p, s.filter(p)[i]);
    s.lemma_filter_pred(p, i);
}

proof fn lemma_use_keeps_only(e: Seq<CachedAnalysis>, v: AnalyzedVideo, t0: u64, u: CacheUse)
    requires
        only_as_stored(e, v, t0),
        stores_other(u, v),
    ensures
        only_as_stored(after_use(e, u), v, t0),
{
    match u.1 {
        None => {
            let p = |x: CachedAnalysis| fresh_at(x, u.0);
            let f = e.filter(p);
            assert forall|i: int| 0 <= i < f.len() && (#[trigger] f[i]).video.id@ == v.id@ implies f[i]
                == stored_entry(v, t0) by {
                lemma_filter_member(e, p, i);
                let k = choose|k: int| 0 <= k < e.len() && e[k] == f[i];
                assert(e[k].video.id@ == v.id@);
            }
        },
        Some(w) => {
            let p = |x: CachedAnalysis| x.video.id@ != w.id@;
            let f = e.filter(p);
            let g = f.push(CachedAnalysis { stored_at_ms: u.0, video: w });
            assert forall|i: int| 0 <= i < g.len() && (#[trigger] g[i]).video.id@ == v.id@ implies g[i]
                == stored_entry(v, t0) by {
                if i < f.len() {
                    assert(g[i] == f[i]);
                    lemma_filter_member(e, p, i);
                    let k = choose|k: int| 0 <= k < e.len() && e[k] == f[i];
                    assert(e[k].video.id@ == v.id@);
                }
            }
        },
    }
}

proof fn lemma_use_keeps_present(e: Seq<CachedAnalysis>, v: AnalyzedVideo, t0: u64, u: CacheUse)
    requires
        e.contains(stored_entry(v, t0)),
        spares(u, v, t0),
    ensures
        after_use(e, u).contains(stored_entry(v, t0)),
{
    let k = choose|k: int| 0 <= k < e.len() && e[k] == stored_entry(v, t0);
    match u.1 {
        None => {
            e.lemma_filter_contains(|x: CachedAnalysis| fresh_at(x, u.0), k);
        },
        Some(w) => {
            let p = |x: CachedAnalysis| x.video.id@ != w.id@;
            e.lemma_filter_contains(p, k);
            let f = e.filter(p);
            let j = choose|j: int| 0 <= j < f.len() && f[j] == stored_entry(v, t0);
            assert(f.push(CachedAnalysis { stored_at_ms: u.0, video: w })[j] == stored_entry(v, t0));
        },
    }
}

proof fn lemma_uses_keep_only(e: Seq<CachedAnalysis>, v: AnalyzedVideo, t0: u64, uses: Seq<CacheUse>)
    requires
        only_as_stored(e, v, t0),
        forall|k: int| 0 <= k < uses.len() ==> stores_other(#[trigger] uses[k], v),
    ensures
        only_as_stored(after_uses(e, uses), v, t0),
    decreases uses.len(),
{
    if uses.len() > 0 {
        lemma_use_keeps_only(e, v, t0, uses[0]);
        assert forall|k: int| 0 <= k < uses.drop_first().len() implies stores_other(
            #[trigger] uses.drop_first()[k],
            v,
        ) by {
            assert(uses.drop_first()[k] == uses[k + 1]);
        }
        lemma_uses_keep_only(after_use(e, uses[0]), v, t0, uses.drop_first());
    }
}

proof fn lemma_uses_keep_present(e: Seq<CachedAnalysis>, v: AnalyzedVideo, t0: u64, uses: Seq<CacheUse>)
    requires
        e.contains(stored_entry(v, t0)),
        forall|k: int| 0 <= k < uses.len() ==> spares(#[trigger] uses[k], v, t0),
    ensures
        after_uses(e, uses).contains(stored_entry(v, t0)),
    decreases uses.len(),
{
    if uses.len() > 0 {
        lemma_use_keeps_present(e, v, t0, uses[0]);
        assert forall|k: int| 0 <= k < uses.drop_first().len() implies spares(
            #[trigger] uses.drop_first()[k],
            v,
            t0,
        ) by {
            assert(uses.drop_first()[k] == uses[k + 1]);
        }
        lemma_uses_keep_present(after_use(e, uses[0]), v, t0, uses.drop_first());
    }
}

proof fn lemma_first_entry_exists(entries: Seq<CachedAnalysis>, id: Seq<char>, i: int)
    requires
        0 <= i < entries.len(),
        entries[i].video.id@ == id,
    ensures
        exists|p: int| 0 <= p <= i && first_entry(entries, id, p),
    decreases i,
{
    if forall|j: int| 0 <= j < i ==> (#[trigger] entries[j]).video.id@ != id {
        assert(first_entry(entries, id, i));
    } else {
        let j = choose|j: int| 0 <= j < i && (#[trigger] entries[j]).video.id@ == id;
        lemma_first_entry_exists(entries, id, j);
    }
}

proof fn lemma_store_then_only(before: Seq<CachedAnalysis>, v: AnalyzedVideo, t0: u64)
    ensures
        only_as_stored(after_use(before, (t0, Some(v))), v, t0),
        after_use(before, (t0, Some(v))).contains(stored_entry(v, t0)),
{
    let p = |x: CachedAnalysis| x.video.id@ != v.id@;
    let f = before.filter(p);
    let g = f.push(stored_entry(v, t0));
    assert(g[f.len() as int] == stored_entry(v, t0));
    assert forall|i: int| 0 <= i < g.len() && (#[trigger] g[i]).video.id@ == v.id@ implies g[i] == stored_entry(
        v,
        t0,
    ) by {
        if i < f.len() {
            assert(g[i] == f[i]);
            before.lemma_filter_pred(p, i);
        }
    }
}

/// What the cache gives back of what it stored: after `v` is stored at
/// `t0`, through any later lookups made while its entry is fresh and any
/// storing of other videos, a lookup at `t`, before the time-to-live runs
/// out, finds exactly that entry first among the entries for `v`'s video (so
/// `cached_analysis` returns `v` under the URL asked for).
pub proof fn lemma_cache_keeps_stored_video(
    before: Seq<CachedAnalysis>,
    v: AnalyzedVideo,
    t0: u64,
    uses: Seq<CacheUse>,
    t: u64,
)
    requires
        forall|k: int| 0 <= k < uses.len() ==> spares(#[trigger] uses[k], v, t0),
        fresh_at(stored_entry(v, t0), t),
    ensures
        ({
            let kept = after_use(after_uses(after_use(before, (t0, Some(v))), uses), (t, None));
            exists|i: int| first_entry(kept, v.id@, i) && kept[i] == stored_entry(v, t0)
        }),
{
    let start = after_use(before, (t0, Some(v)));
    lemma_store_then_only(before, v, t0);
    assert forall|k: int| 0 <= k < uses.len() implies stores_other(#[trigger] uses[k], v) by {
        assert(spares(uses[k], v, t0));
    }
    lemma_uses_keep_only(start, v, t0, uses);
    lemma_uses_keep_present(start, v, t0, uses);
    let e = after_uses(start, uses);
    lemma_use_keeps_only(e, v, t0, (t, None));
    lemma_use_keeps_present(e, v, t0, (t, None));
    let kept = after_use(e, (t, None));
    let k = choose|k: int| 0 <= k < kept.len() && kept[k] == stored_entry(v, t0);
    lemma_first_entry_exists(kept, v.id@, k);
    let p = choose|p: int| 0 <= p <= k && first_entry(kept, v.id@, p);
    assert(kept[p] == stored_entry(v, t0));
}

/// The cache forgets a stored video once its time-to-live has run out: after
/// `v` is stored at `t0`, through any later lookups and any storing of other
/// videos, a lookup at `t`, at least the time-to-live after `t0`, finds no
/// entry for `v`'s video (so `cached_analysis` returns `None`).
pub proof fn lemma_cache_forgets_expired_video(
    before: Seq<CachedAnalysis>,
    v: AnalyzedVideo,
    t0: u64,
    uses: Seq<CacheUse>,
    t: u64,
)
    requires
        forall|k: int| 0 <= k < uses.len() ==> stores_other(#[trigger] uses[k], v),
        t >= t0,
        t - t0 >= ANALYSIS_CACHE_TTL_MS,
    ensures
        ({
            let kept = after_use(after_uses(after_use(before, (t0, Some(v))), uses), (t, None));
            forall|i: int| 0 <= i < kept.len() ==> (#[trigger] kept[i]).video.id@ != v.id@
        }),
{
    let start = after_use(before, (t0, Some(v)));
    lemma_store_then_only(before, v, t0);
    lemma_uses_keep_only(start, v, t0, uses);
    let e = after_uses(start, uses);
    let p = |x: CachedAnalysis| fresh_at(x, t);
    let kept = e.filter(p);
    assert forall|i: int| 0 <= i < kept.len() implies (#[trigger] kept[i]).video.id@ != v.id@ by {
        lemma_filter_member(e, p, i);
        if kept[i].video.id@ == v.id@ {
            let k = choose|k: int| 0 <= k < e.len() && e[k] == kept[i];
            assert(e[k].video.id@ == v.id@);
        }
    }
}

} // verus!
