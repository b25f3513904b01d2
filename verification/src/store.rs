//! The two files that a patch cycle touches, held in memory: the module's
//! image and its backup.

use vstd::prelude::*;
use crate::error::{Failure, PatchError};
use crate::pattern::{lemma_selected_rule, select_rule_spec};
use crate::search::{first_occurrence, lemma_first_occurrence, occurs};
use crate::image::{lemma_overwritten_bytes, overwritten};
use crate::session::{patched_text, restored_text};

verus! {

/// A module and its backup as byte buffers. `backup` is `None` as long as no
/// backup was made: that there is one is the only sign that a restore is
/// possible.
#[derive(Debug, Clone, PartialEq, Eq)]
pub struct ModuleFiles {
    pub module: Vec<u8>,
    pub backup: Option<Vec<u8>>,
}

/// The two files as mathematical values.
pub struct Files {
    pub module: Seq<u8>,
    pub backup: Option<Seq<u8>>,
}

impl View for ModuleFiles {
    type V = Files;

    open spec fn view(&self) -> Files {
        Files {
            module: self.module@,
            backup: match self.backup {
                Some(saved) => Some(saved@),
                None => None,
            },
        }
    }
}

/// What an operation reports, as a mathematical value.
pub open spec fn verdict_view(verdict: Result<String, PatchError>) -> Result<Seq<char>, Failure> {
    match verdict {
        Ok(text) => Ok(text@),
        Err(error) => Err(error@),
    }
}

/// What a patch for `build` makes of `files`, and what it reports, where no
/// file operation fails. Without a rule for the build, or without the
/// rule's signature in the module, nothing changes. Otherwise the backup
/// becomes the module as it was, and in the module the leftmost occurrence
/// of the signature is overwritten.
pub open spec fn patch_outcome(files: Files, backup_label: Seq<char>, build: u32) -> (
    Files,
    Result<Seq<char>, Failure>,
) {
    match select_rule_spec(build) {
        None => (files, Err(Failure::NoPatternForBuild { build })),
        Some(rule) => match first_occurrence(files.module, rule.search) {
            None => (files, Err(Failure::SignatureNotFound { description: rule.description })),
            Some(at) => (
                Files {
                    module: overwritten(files.module, at, rule.replace),
                    backup: Some(files.module),
                },
                Ok(patched_text(rule.description, at as nat, backup_label)),
            ),
        },
    }
}

/// A patch never changes the length of the module: it overwrites in place.
pub proof fn lemma_patch_keeps_length(files: Files, backup_label: Seq<char>, build: u32)
    ensures
        patch_outcome(files, backup_label, build).0.module.len() == files.module.len(),
{
    lemma_selected_rule(build);
    if let Some(rule) = select_rule_spec(build) {
        lemma_first_occurrence(files.module, rule.search);
        if let Some(at) = first_occurrence(files.module, rule.search) {
            lemma_overwritten_bytes(files.module, at, rule.replace);
        }
    }
}

/// What a restore makes of `files`, and what it reports, where no file
/// operation fails. Without a backup nothing changes. Otherwise the module
/// becomes the backup, byte for byte, and the backup stays.
pub open spec fn restore_outcome(files: Files) -> (Files, Result<Seq<char>, Failure>) {
    match files.backup {
        None => (files, Err(Failure::BackupMissing)),
        Some(saved) => (Files { module: saved, backup: files.backup }, Ok(restored_text())),
    }
}

/// Whether `module` carries the patch for `build`: there is a rule for the
/// build, its replacement stands in the module, and its signature does not.
pub open spec fn is_patched_spec(module: Seq<u8>, build: u32) -> bool {
    match select_rule_spec(build) {
        None => false,
        Some(rule) => occurs(module, rule.replace) && !occurs(module, rule.search),
    }
}

} // verus!
