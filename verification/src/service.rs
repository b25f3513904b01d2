//! The verdict on the host commands that go with a patch: the scanner's
//! exclusion for the module, and the task that brings the patcher back at
//! start-up. The host runs the commands; what their outcome means is said
//! here.

use vstd::prelude::*;
use vstd::string::{StringExecFns, StringSliceAdditionalSpecFns};
use crate::engine::PatchEngine;
use crate::search::{lemma_occurs, occurs};

verus! {

/// What a failed removal of the start-up task writes where there was no such
/// task to remove.
pub open spec fn missing_task_marker() -> Seq<u8> {
    "ERROR: The specified task name".spec_bytes()
}

/// The verdict on setting (`enable`) or lifting the scanner's exclusion: the
/// report where the command succeeded, else what it wrote to its error
/// stream.
pub open spec fn exclusion_verdict_spec(enable: bool, succeeded: bool, errors: Seq<char>) -> Result<
    Seq<char>,
    Seq<char>,
> {
    if !succeeded {
        Err(errors)
    } else if enable {
        Ok("Defender exclusion added"@)
    } else {
        Ok("Defender exclusion removed"@)
    }
}

/// The verdict on creating (`enable`) or removing the start-up task: the
/// report where the command succeeded, else what it wrote to its error
/// stream. A removal that failed only because there was no such task counts
/// as done.
pub open spec fn persistence_verdict_spec(
    enable: bool,
    succeeded: bool,
    errors: Seq<char>,
    error_bytes: Seq<u8>,
) -> Result<Seq<char>, Seq<char>> {
    if enable {
        if succeeded {
            Ok("Persistence scheduled task created."@)
        } else {
            Err(errors)
        }
    } else if succeeded || occurs(error_bytes, missing_task_marker()) {
        Ok("Persistence scheduled task removed."@)
    } else {
        Err(errors)
    }
}

/// A verdict as a mathematical value.
pub open spec fn report_view(verdict: Result<String, String>) -> Result<Seq<char>, Seq<char>> {
    match verdict {
        Ok(text) => Ok(text@),
        Err(text) => Err(text@),
    }
}

/// The verdict on the command that set (`enable`) or lifted the scanner's
/// exclusion, from whether it succeeded and what it wrote to its error
/// stream.
pub fn exclusion_verdict(enable: bool, succeeded: bool, errors: &str) -> (verdict: Result<
    String,
    String,
>)
    ensures
        report_view(verdict) == exclusion_verdict_spec(enable, succeeded, errors@),
{
    if !succeeded {
        Err(String::from_str(errors))
    } else if enable {
        Ok(String::from_str("Defender exclusion added"))
    } else {
        Ok(String::from_str("Defender exclusion removed"))
    }
}

/// The verdict on the command that created (`enable`) or removed the
/// start-up task, from whether it succeeded and what it wrote to its error
/// stream.
pub fn persistence_verdict(enable: bool, succeeded: bool, errors: &str) -> (verdict: Result<
    String,
    String,
>)
    ensures
        report_view(verdict) == persistence_verdict_spec(
            enable,
            succeeded,
            errors@,
            errors.spec_bytes(),
        ),
{
    if enable {
        if succeeded {
            Ok(String::from_str("Persistence scheduled task created."))
        } else {
            Err(String::from_str(errors))
        }
    } else {
        proof {
            lemma_occurs(errors.spec_bytes(), missing_task_marker());
        }
        if succeeded || PatchEngine::find_bytes(
            errors.as_bytes(),
            "ERROR: The specified task name".as_bytes(),
        ).is_some() {
            Ok(String::from_str("Persistence scheduled task removed."))
        } else {
            Err(String::from_str(errors))
        }
    }
}

} // verus!
