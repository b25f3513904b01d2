//! The patch engine: the search for a signature, and the patch, restore and
//! verify operations built on it.

use vstd::prelude::*;
use crate::search::{first_occurrence, is_first_occurrence, occurs_at};
use crate::search::{lemma_first_occurrence_is, lemma_occurs, lemma_occurs_at_bytes};
use crate::error::{Failure, PatchError};
use crate::pattern::{lemma_selected_rule, select_rule};
use crate::session::{ImagePending, RestorePending};
use crate::store::{is_patched_spec, patch_outcome, restore_outcome, verdict_view};
use crate::store::{lemma_patch_keeps_length, ModuleFiles};
use crate::resolver::{build_info, detect_build_spec, parse_build_number, WinBuild};
use vstd::slice::slice_to_vec;

verus! {

/// The operations of the patcher. It holds no state: every operation is a
/// function of its arguments.
pub struct PatchEngine;

impl PatchEngine {
    /// Finds the leftmost index at which `needle` stands in `haystack`,
    /// comparing every contiguous window from left to right. An empty needle,
    /// or one longer than the haystack, is found nowhere.
    pub fn find_bytes(haystack: &[u8], needle: &[u8]) -> (found: Option<usize>)
        ensures
            match found {
                Some(at) => is_first_occurrence(haystack@, needle@, at as int),
                None => needle@.len() == 0 || forall|j: int| !occurs_at(haystack@, needle@, j),
            },
            match found {
                Some(at) => first_occurrence(haystack@, needle@) == Some(at as int),
                None => first_occurrence(haystack@, needle@) is None,
            },
            needle@.len() == 0 || needle@.len() > haystack@.len() ==> found is None,
    {
        if needle.len() == 0 || haystack.len() < needle.len() {
            assert(forall|j: int| !is_first_occurrence(haystack@, needle@, j));
            return None;
        }
        let last: usize = haystack.len() - needle.len();
        let mut at: usize = 0;
        while at <= last
            invariant
                needle@.len() > 0,
                haystack@.len() <= usize::MAX,
                last + needle@.len() == haystack@.len(),
                at <= last + 1,
                forall|j: int| 0 <= j < at ==> !occurs_at(haystack@, needle@, j),
            decreases last + 1 - at,
        {
            if Self::window_matches(haystack, needle, at) {
                proof {
                    lemma_first_occurrence_is(haystack@, needle@, at as int);
                }
                return Some(at);
            }
            at += 1;
        }
        assert(forall|j: int| !is_first_occurrence(haystack@, needle@, j));
        None
    }

    /// Finds the host's build in what the platform query gave: `None` for a
    /// query that failed, else the text that it printed. Each line counts
    /// without the white space around it. There is no build where the query
    /// failed, where no line begins with `BuildNumber=`, or where the first
    /// such line has anything but digits behind the key.
    pub fn detect_build(query: Option<&str>) -> (found: Option<WinBuild>)
        ensures
            match query {
                None => found is None,
                Some(text) => match detect_build_spec(text@) {
                    None => found is None,
                    Some(number) => found is Some && found->Some_0@ == build_info(number),
                },
            },
    {
        match query {
            None => None,
            Some(text) => match parse_build_number(text) {
                None => None,
                Some(number) => Some(WinBuild::new(number)),
            },
        }
    }

    /// The build that a patch needs, or the failure to find it out. Nothing
    /// is tried again: the caller decides what an unknown build means.
    pub fn resolve_build(query: Option<&str>) -> (resolved: Result<WinBuild, PatchError>)
        ensures
            match query {
                None => resolved is Err,
                Some(text) => match detect_build_spec(text@) {
                    None => resolved is Err,
                    Some(number) => resolved is Ok && resolved->Ok_0@ == build_info(number),
                },
            },
            resolved is Err ==> resolved->Err_0@ == Failure::BuildResolutionFailed,
    {
        match Self::detect_build(query) {
            Some(build) => Ok(build),
            None => Err(PatchError::BuildResolutionFailed),
        }
    }

    /// Patches the module of `files` for `build`, as its host would on disk:
    /// picks the rule, reads the module, looks for the signature, copies the
    /// untouched module to the backup, overwrites the signature and writes
    /// the module back. `backup_label` is the place of the backup as the
    /// report is to show it.
    pub fn patch(files: &mut ModuleFiles, backup_label: &str, build: u32) -> (verdict: Result<
        String,
        PatchError,
    >)
        ensures
            final(files)@ == patch_outcome(old(files)@, backup_label@, build).0,
            verdict_view(verdict) == patch_outcome(old(files)@, backup_label@, build).1,
            verdict is Err ==> final(files)@ == old(files)@,
            verdict is Ok ==> final(files)@.backup == Some(old(files)@.module),
            final(files)@.module.len() == old(files)@.module.len(),
    {
        proof {
            lemma_patch_keeps_length(files@, backup_label@, build);
        }
        let pending = match ImagePending::begin(build) {
            Ok(pending) => pending,
            Err(error) => {
                return Err(error);
            },
        };
        let read = slice_to_vec(files.module.as_slice());
        let pending = match pending.image_read(Ok(read)) {
            Ok(pending) => pending,
            Err(error) => {
                return Err(error);
            },
        };
        files.backup = Some(slice_to_vec(files.module.as_slice()));
        let pending = match pending.backup_made(Ok(())) {
            Ok(pending) => pending,
            Err(error) => {
                return Err(error);
            },
        };
        files.module = slice_to_vec(pending.image().as_slice());
        pending.image_written(Ok(()), backup_label)
    }

    /// Puts the backup of `files` back over the module, whole, and keeps the
    /// backup. Without a backup it fails and leaves the module as it is.
    pub fn restore(files: &mut ModuleFiles) -> (verdict: Result<String, PatchError>)
        ensures
            final(files)@ == restore_outcome(old(files)@).0,
            verdict_view(verdict) == restore_outcome(old(files)@).1,
            old(files)@.backup is None ==> final(files)@ == old(files)@ && verdict is Err
                && verdict->Err_0@ == Failure::BackupMissing,
    {
        let pending = match RestorePending::begin(files.backup.is_some()) {
            Ok(pending) => pending,
            Err(error) => {
                return Err(error);
            },
        };
        match &files.backup {
            Some(saved) => {
                files.module = slice_to_vec(saved.as_slice());
            },
            None => {},
        }
        pending.copy_made(Ok(()))
    }

    /// Whether `module` carries the patch for `build`: the rule's
    /// replacement is found in it and the rule's signature is not. Without a
    /// rule for the build the answer is no.
    pub fn is_patched(module: &[u8], build: u32) -> (patched: bool)
        ensures
            patched == is_patched_spec(module@, build),
    {
        match select_rule(build) {
            None => false,
            Some(rule) => {
                proof {
                    lemma_selected_rule(build);
                    lemma_occurs(module@, rule@.replace);
                    lemma_occurs(module@, rule@.search);
                }
                Self::find_bytes(module, rule.replace).is_some() && Self::find_bytes(
                    module,
                    rule.search,
                ).is_none()
            },
        }
    }

    /// Whether `needle` stands in `haystack` at index `at`.
    fn window_matches(haystack: &[u8], needle: &[u8], at: usize) -> (same: bool)
        requires
            at + needle@.len() <= haystack@.len(),
            haystack@.len() <= usize::MAX,
        ensures
            same == occurs_at(haystack@, needle@, at as int),
    {
        let length: usize = needle.len();
        let mut k: usize = 0;
        while k < length
            invariant
                length == needle@.len(),
                haystack@.len() <= usize::MAX,
                at + needle@.len() <= haystack@.len(),
                k <= needle@.len(),
                forall|i: int| 0 <= i < k ==> haystack@[at + i] == #[trigger] needle@[i],
            decreases needle@.len() - k,
        {
            if haystack[at + k] != needle[k] {
                proof {
                    lemma_occurs_at_bytes(haystack@, needle@, at as int);
                }
                return false;
            }
            k += 1;
        }
        proof {
            lemma_occurs_at_bytes(haystack@, needle@, at as int);
        }
        true
    }
}

} // verus!
