//! What holds of the operations taken together: of a patch and the restore
//! that follows it, of a patch and the check that follows it, and of a patch
//! that is asked for twice.

use vstd::prelude::*;
use crate::error::Failure;
use crate::pattern::{is_selection, lemma_first_covering, lemma_selected_rule};
use crate::pattern::{rule_table, select_rule_spec};
use crate::pattern::{PatchPattern, Rule};
use crate::search::{first_occurrence, is_first_occurrence, occurs, occurs_at};
use crate::search::{lemma_first_occurrence, lemma_occurrence_has_first, lemma_occurs};
use crate::search::lemma_occurs_at_bytes;
use crate::image::{lemma_overwritten_bytes, overwritten};
use crate::store::{is_patched_spec, patch_outcome, restore_outcome, Files};

verus! {

/// The choice of a rule depends on the build alone: two choices for one
/// build agree, whenever they are made.
pub proof fn lemma_select_rule_deterministic(
    build: u32,
    first: Option<PatchPattern>,
    second: Option<PatchPattern>,
)
    requires
        is_selection(build, first),
        is_selection(build, second),
    ensures
        first is Some <==> second is Some,
        first is Some ==> first.unwrap()@ == second.unwrap()@,
{
}

/// Whether `needle` stands in `haystack` at one place and no other.
pub open spec fn occurs_once(haystack: Seq<u8>, needle: Seq<u8>) -> bool {
    &&& needle.len() > 0
    &&& exists|i: int|
        occurs_at(haystack, needle, i) && forall|j: int|
            occurs_at(haystack, needle, j) ==> j == i
}

/// Whether the signature and the replacement of `rule` keep apart: the
/// signature's first byte stands nowhere in the replacement and nowhere else
/// in the signature, and the replacement's first byte stands nowhere in the
/// signature. Then no occurrence of the signature can lie across the edge of
/// a patched region, or overlap another occurrence.
pub open spec fn keeps_apart(rule: Rule) -> bool {
    &&& rule.wf()
    &&& forall|k: int| 0 <= k < rule.replace.len() ==> #[trigger] rule.replace[k] != rule.search[0]
    &&& forall|k: int| 0 <= k < rule.search.len() ==> #[trigger] rule.search[k] != rule.replace[0]
    &&& forall|k: int| 1 <= k < rule.search.len() ==> #[trigger] rule.search[k] != rule.search[0]
}

/// Every rule of the table keeps its signature and its replacement apart.
pub proof fn lemma_table_keeps_apart()
    ensures
        forall|i: int| 0 <= i < rule_table().len() ==> keeps_apart(#[trigger] rule_table()[i]),
{
}

/// The replacement stands in the patched image where the signature stood.
pub proof fn lemma_replacement_stands(image: Seq<u8>, rule: Rule, at: int)
    requires
        rule.wf(),
        occurs_at(image, rule.search, at),
    ensures
        occurs_at(overwritten(image, at, rule.replace), rule.replace, at),
{
    let patched = overwritten(image, at, rule.replace);
    lemma_overwritten_bytes(image, at, rule.replace);
    assert forall|k: int| 0 <= k < rule.replace.len() implies patched[at + k]
        == #[trigger] rule.replace[k] by {}
    lemma_occurs_at_bytes(patched, rule.replace, at);
}

/// An occurrence of the signature in the patched image was one in the
/// original already, clear of the patched region.
pub proof fn lemma_occurrence_survived(image: Seq<u8>, rule: Rule, at: int, other: int)
    requires
        keeps_apart(rule),
        occurs_at(image, rule.search, at),
        occurs_at(overwritten(image, at, rule.replace), rule.search, other),
    ensures
        occurs_at(image, rule.search, other),
        other != at,
{
    let size = rule.search.len() as int;
    let patched = overwritten(image, at, rule.replace);
    lemma_overwritten_bytes(image, at, rule.replace);
    lemma_occurs_at_bytes(patched, rule.search, other);
    if at <= other < at + size {
        assert(patched[other + 0] == rule.search[0]);
        assert(patched[other] == rule.replace[other - at]);
        assert(false);
    } else if other < at < other + size {
        assert(patched[other + (at - other)] == rule.search[at - other]);
        assert(patched[at] == rule.replace[at - at]);
        assert(false);
    } else {
        assert forall|k: int| 0 <= k < size implies image[other + k]
            == #[trigger] rule.search[k] by {
            assert(patched[other + k] == image[other + k]);
        }
        lemma_occurs_at_bytes(image, rule.search, other);
    }
}

/// An occurrence of the signature other than the leftmost one is still
/// there after the patch.
pub proof fn lemma_occurrence_survives(image: Seq<u8>, rule: Rule, at: int, other: int)
    requires
        keeps_apart(rule),
        is_first_occurrence(image, rule.search, at),
        occurs_at(image, rule.search, other),
        other != at,
    ensures
        occurs_at(overwritten(image, at, rule.replace), rule.search, other),
{
    let size = rule.search.len() as int;
    let patched = overwritten(image, at, rule.replace);
    lemma_overwritten_bytes(image, at, rule.replace);
    lemma_occurs_at_bytes(image, rule.search, other);
    lemma_occurs_at_bytes(image, rule.search, at);
    if other < at {
        assert(!occurs_at(image, rule.search, other));
    } else if other < at + size {
        assert(image[other + 0] == rule.search[0]);
        assert(image[at + (other - at)] == rule.search[other - at]);
        assert(false);
    } else {
        assert forall|k: int| 0 <= k < size implies patched[other + k]
            == #[trigger] rule.search[k] by {
            assert(patched[other + k] == image[other + k]);
        }
        lemma_occurs_at_bytes(patched, rule.search, other);
    }
}

/// After a patch of the leftmost occurrence, the signature is gone from the
/// image exactly if it stood there once.
pub proof fn lemma_signature_gone(image: Seq<u8>, rule: Rule, at: int)
    requires
        keeps_apart(rule),
        is_first_occurrence(image, rule.search, at),
    ensures
        !occurs(overwritten(image, at, rule.replace), rule.search) <==> occurs_once(
            image,
            rule.search,
        ),
{
    let patched = overwritten(image, at, rule.replace);
    if occurs_once(image, rule.search) {
        let only = choose|i: int|
            occurs_at(image, rule.search, i) && forall|j: int|
                occurs_at(image, rule.search, j) ==> j == i;
        assert(only == at);
        assert forall|j: int| !occurs_at(patched, rule.search, j) by {
            if occurs_at(patched, rule.search, j) {
                lemma_occurrence_survived(image, rule, at, j);
            }
        }
    }
    if !occurs(patched, rule.search) {
        assert forall|j: int| occurs_at(image, rule.search, j) implies j == at by {
            if j != at {
                lemma_occurrence_survives(image, rule, at, j);
            }
        }
        assert(occurs_at(image, rule.search, at) && forall|j: int|
            occurs_at(image, rule.search, j) ==> j == at);
    }
}

/// Round trip: where the signature of the build's rule stands in the module,
/// the patch succeeds, and the restore that follows it succeeds and gives
/// back the module as it was before the patch, byte for byte.
pub proof fn lemma_patch_then_restore(files: Files, backup_label: Seq<char>, build: u32, at: int)
    requires
        select_rule_spec(build) is Some,
        occurs_at(files.module, select_rule_spec(build).unwrap().search, at),
    ensures
        patch_outcome(files, backup_label, build).1 is Ok,
        restore_outcome(patch_outcome(files, backup_label, build).0).1 is Ok,
        restore_outcome(patch_outcome(files, backup_label, build).0).0.module == files.module,
        restore_outcome(patch_outcome(files, backup_label, build).0).0.backup == Some(files.module),
{
    let rule = select_rule_spec(build).unwrap();
    lemma_selected_rule(build);
    lemma_occurrence_has_first(files.module, rule.search, at);
}

/// After a successful patch the check for the same build says yes exactly
/// if the signature stood in the module once: the patch overwrites the
/// leftmost occurrence only, and while another is left the module does not
/// count as patched.
pub proof fn lemma_patched_after_patch(files: Files, backup_label: Seq<char>, build: u32)
    requires
        patch_outcome(files, backup_label, build).1 is Ok,
    ensures
        is_patched_spec(patch_outcome(files, backup_label, build).0.module, build) <==> occurs_once(
            files.module,
            select_rule_spec(build).unwrap().search,
        ),
{
    let rule = select_rule_spec(build).unwrap();
    lemma_selected_rule(build);
    lemma_rule_keeps_apart(build);
    lemma_first_occurrence(files.module, rule.search);
    let at = first_occurrence(files.module, rule.search).unwrap();
    lemma_replacement_stands(files.module, rule, at);
    lemma_signature_gone(files.module, rule, at);
}

/// After a successful patch and the restore that follows it, the check for
/// the same build says no.
pub proof fn lemma_unpatched_after_restore(files: Files, backup_label: Seq<char>, build: u32)
    requires
        patch_outcome(files, backup_label, build).1 is Ok,
    ensures
        !is_patched_spec(
            restore_outcome(patch_outcome(files, backup_label, build).0).0.module,
            build,
        ),
{
    let rule = select_rule_spec(build).unwrap();
    lemma_selected_rule(build);
    lemma_occurs(files.module, rule.search);
}

/// A patch of a module that counts as patched fails for want of the
/// signature, and changes neither the module nor the backup.
pub proof fn lemma_patch_of_patched_fails(files: Files, backup_label: Seq<char>, build: u32)
    requires
        is_patched_spec(files.module, build),
    ensures
        patch_outcome(files, backup_label, build) == (
            files,
            Err::<Seq<char>, Failure>(
                Failure::SignatureNotFound {
                    description: select_rule_spec(build).unwrap().description,
                },
            ),
        ),
{
    let rule = select_rule_spec(build).unwrap();
    lemma_occurs(files.module, rule.search);
}

/// A second patch fails for want of the signature, and changes nothing,
/// where the first succeeded on a module in which the signature stood once.
pub proof fn lemma_second_patch_fails(
    files: Files,
    first_label: Seq<char>,
    second_label: Seq<char>,
    build: u32,
)
    requires
        patch_outcome(files, first_label, build).1 is Ok,
        occurs_once(files.module, select_rule_spec(build).unwrap().search),
    ensures
        patch_outcome(patch_outcome(files, first_label, build).0, second_label, build) == (
            patch_outcome(files, first_label, build).0,
            Err::<Seq<char>, Failure>(
                Failure::SignatureNotFound {
                    description: select_rule_spec(build).unwrap().description,
                },
            ),
        ),
{
    lemma_patched_after_patch(files, first_label, build);
    lemma_patch_of_patched_fails(patch_outcome(files, first_label, build).0, second_label, build);
}

/// A restore without a backup fails and leaves both files as they are.
pub proof fn lemma_restore_without_backup(files: Files)
    requires
        files.backup is None,
    ensures
        restore_outcome(files) == (files, Err::<Seq<char>, Failure>(Failure::BackupMissing)),
{
}

/// The rule chosen for a build keeps its signature and its replacement
/// apart.
pub proof fn lemma_rule_keeps_apart(build: u32)
    ensures
        select_rule_spec(build) is Some ==> keeps_apart(select_rule_spec(build).unwrap()),
{
    lemma_table_keeps_apart();
    lemma_first_covering(rule_table(), build, 0);
}

} // verus!
