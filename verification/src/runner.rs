//! Per-job orchestration decisions.
//!
//! A job runs end to end as: convert the input with the external normalizer,
//! read the normalized artifact back, validate it for the engine, acquire a
//! pool slot, invoke the engine, and report one outcome. The conversion and
//! the engine invocation happen outside the library; the decisions between
//! them — when a job fails immediately, what the engine may be invoked on,
//! and what outcome each engine answer becomes — are made here.

use crate::audio::{prepare_engine_input, validated, wav_decoding, FormatError};
use crate::batch::JobOutcome;
use vstd::prelude::*;
use vstd::string::StringExecFns;

verus! {

/// Whether an outcome is the failure of the named job with the given cause.
pub open spec fn is_failure_of(o: JobOutcome, name: Seq<char>, cause: Seq<char>) -> bool {
    o matches JobOutcome::Failure { name: n, cause: c } && n@ == name && c@ == cause
}

/// Whether an outcome is the success of the named job with the given text.
pub open spec fn is_success_of(o: JobOutcome, name: Seq<char>, text: Seq<char>) -> bool {
    o matches JobOutcome::Success { name: n, text: t } && n@ == name && t@ == text
}

/// What a job's runner does next, once the external converter has answered.
pub enum EnginePlan {
    /// Acquire a pool slot and invoke the engine on these mono samples.
    Run { samples: Vec<i16> },
    /// The job already failed: report this outcome; no slot is acquired and
    /// the engine is not invoked.
    Reject { outcome: JobOutcome },
}

/// Whether a plan rejects the named job with the given cause.
pub open spec fn plan_rejects(r: EnginePlan, name: Seq<char>, cause: Seq<char>) -> bool {
    r matches EnginePlan::Reject { outcome } && is_failure_of(outcome, name, cause)
}

/// The runner's decision between conversion and engine: a conversion failure
/// becomes the job's failure at once; otherwise the normalized artifact's
/// bytes are decoded and validated, a rejected format becomes the job's
/// failure with that rejection's message, and only engine-ready mono samples
/// lead to an engine invocation.
pub fn plan_engine_run(name: String, converted: Result<Vec<u8>, String>) -> (r: EnginePlan)
    ensures
        converted matches Err(cause) ==> plan_rejects(r, name@, cause@),
        converted matches Ok(bytes) ==> {
            let decoded = wav_decoding(bytes@);
            &&& decoded is None ==> plan_rejects(
                r,
                name@,
                FormatError::NotDecodable.message_view(),
            )
            &&& decoded is Some ==> {
                let (channels, sample_rate, samples) = decoded->0;
                match validated(channels, sample_rate, samples) {
                    Ok(mono) => r matches EnginePlan::Run { samples: s } && s@ == mono,
                    Err(e) => plan_rejects(r, name@, e.message_view()),
                }
            }
        },
{
    match converted {
        Err(cause) => EnginePlan::Reject { outcome: JobOutcome::Failure { name, cause } },
        Ok(bytes) => match prepare_engine_input(&bytes) {
            Ok(samples) => EnginePlan::Run { samples },
            Err(e) => EnginePlan::Reject {
                outcome: JobOutcome::Failure { name, cause: e.message() },
            },
        },
    }
}

/// A transcript assembled from segment texts: each segment followed by a
/// newline, in segment order.
pub open spec fn joined_segments(segs: Seq<Seq<char>>) -> Seq<char>
    decreases segs.len(),
{
    if segs.len() == 0 {
        Seq::empty()
    } else {
        joined_segments(segs.drop_last()) + segs.last() + "\n"@
    }
}

/// Assembles the engine's transcript from its segment texts, one line per
/// segment in segment order.
pub fn join_segments(segments: &Vec<String>) -> (r: String)
    ensures
        r@ == joined_segments(segments@.map_values(|s: String| s@)),
{
    let ghost views = segments@.map_values(|s: String| s@);
    let mut out: String = String::new();
    let mut i: usize = 0;
    while i < segments.len()
        invariant
            i <= segments@.len(),
            views == segments@.map_values(|s: String| s@),
            out@ == joined_segments(views.take(i as int)),
        decreases segments@.len() - i,
    {
        out.append(segments[i].as_str());
        out.append("\n");
        proof {
            assert(views.take(i + 1).drop_last() =~= views.take(i as int));
            assert(views.take(i + 1).last() == views[i as int]);
        }
        i = i + 1;
    }
    proof {
        assert(views.take(views.len() as int) =~= views);
    }
    out
}

/// The runner's outcome once the engine has answered: the transcribed text
/// on success, the engine's cause as the job's failure otherwise.
pub fn finish_job(name: String, engine_result: Result<String, String>) -> (r: JobOutcome)
    ensures
        engine_result matches Ok(text) ==> is_success_of(r, name@, text@),
        engine_result matches Err(cause) ==> is_failure_of(r, name@, cause@),
{
    match engine_result {
        Ok(text) => JobOutcome::Success { name, text },
        Err(cause) => JobOutcome::Failure { name, cause },
    }
}

} // verus!
