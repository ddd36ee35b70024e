use vstd::prelude::*;

use crate::analysis::opt_text;
use crate::download::DownloadJob;

verus! {

/// What the worker does once an attempt to download a job has ended.
pub enum AfterAttempt {
    /// The download succeeded.
    Done,
    /// The chosen source failed: ask again for a source of the same
    /// resolution, other than the one that failed, and try once more.
    RetryOtherSource { required_height: Option<u32>, excluded_format_id: String },
    /// The job failed with this error.
    Fail(String),
}

/// After a failed attempt, the one retry with another source is owed when
/// the job names a source format, no retry was made yet, and the job was not
/// cancelled.
pub open spec fn retry_owed(job: DownloadJob, retried: bool, cancelled: bool) -> bool {
    !retried && !cancelled && job.request.selected_format_id is Some
}

/// Decides what follows an attempt to download `job`: a success is done; a
/// failure of the chosen source is retried once with another source of the
/// same resolution (never a lower one); any other failure is reported.
pub fn after_download_attempt(
    job: &DownloadJob,
    retried: bool,
    outcome: Result<(), String>,
    cancelled: bool,
) -> (r: AfterAttempt)
    ensures
        outcome is Ok ==> r is Done,
        outcome is Err && retry_owed(*job, retried, cancelled) ==> (r matches AfterAttempt::RetryOtherSource {
            required_height,
            excluded_format_id,
        } && required_height == job.request.quality_height && Some(excluded_format_id@) == opt_text(
            job.request.selected_format_id,
        )),
        !retry_owed(*job, retried, cancelled) ==> (outcome matches Err(e) ==> (r matches AfterAttempt::Fail(
            f,
        ) && f == e)),
{
    match outcome {
        Ok(()) => AfterAttempt::Done,
        Err(error) => {
            if retried || cancelled {
                return AfterAttempt::Fail(error);
            }
            match &job.request.selected_format_id {
                Some(id) => AfterAttempt::RetryOtherSource {
                    required_height: job.request.quality_height,
                    excluded_format_id: id.clone(),
                },
                None => AfterAttempt::Fail(error),
            }
        },
    }
}

/// What a download does about the shared network turn.
pub enum TurnDecision {
    /// The turn is held: the download may start.
    Proceed,
    /// The cooldown refused the turn: wait for it to end, then ask again.
    WaitOutCooldown,
    /// The turn was refused again after waiting: the download fails with
    /// this message.
    Refused(String),
}

/// Decides what follows a request for the network turn: a granted turn
/// proceeds; the first refusal waits out the cooldown and asks once more; a
/// refusal after that wait ends the attempt, so that no job loops forever.
pub fn download_turn(refusal: Option<String>, waited: bool) -> (r: TurnDecision)
    ensures
        refusal is None ==> r is Proceed,
        refusal is Some && !waited ==> r is WaitOutCooldown,
        waited ==> (refusal matches Some(m) ==> (r matches TurnDecision::Refused(x) && x == m)),
{
    match refusal {
        None => TurnDecision::Proceed,
        Some(message) => if waited {
            TurnDecision::Refused(message)
        } else {
            TurnDecision::WaitOutCooldown
        },
    }
}

} // verus!
