//! A patch or a restore as a sequence of stages. The engine decides; its host
//! does the file operations. Each stage names, by its type, the one file
//! operation that the host owes next, and takes that operation's outcome to
//! give the next stage or the final verdict. The host cannot reach a later
//! stage without reporting on the earlier ones, so a module is written only
//! after its backup was made, and a backup is made only after the signature
//! was found.

use vstd::prelude::*;
use vstd::string::StringExecFns;
use crate::error::{Failure, PatchError};
use crate::pattern::{lemma_selected_rule, select_rule, select_rule_spec, PatchPattern, Rule};
use crate::search::{first_occurrence, is_first_occurrence, lemma_first_occurrence};
use crate::engine::PatchEngine;
use crate::image::{overwrite, overwritten};
use crate::text::{hex_text, push_hex};

verus! {

/// What a successful patch reports: the rule, the offset in upper-case
/// hexadecimal, and where the backup is.
pub open spec fn patched_text(description: Seq<char>, offset: nat, backup_label: Seq<char>) -> Seq<
    char,
> {
    "Patched successfully using '"@ + description + "' at offset 0x"@ + hex_text(offset)
        + ". Backup saved to "@ + backup_label + "."@
}

/// What a successful restore reports.
pub open spec fn restored_text() -> Seq<char> {
    "termsrv.dll restored from backup successfully."@
}

/// Where the backup of the module at `module_file` is kept.
pub open spec fn backup_path_of(module_file: Seq<char>) -> Seq<char> {
    module_file + ".rdp_backup"@
}

/// Where the backup of the module at `module_file` is kept: beside the
/// module, under the module's name with `.rdp_backup` behind it.
pub fn backup_path_for(module_file: &str) -> (backup_path: String)
    ensures
        backup_path@ == backup_path_of(module_file@),
{
    String::from_str(module_file).concat(".rdp_backup")
}

/// A patch that has its rule and waits for the module's bytes.
pub struct ImagePending {
    rule: PatchPattern,
}

/// A patch that has found the signature and waits for the backup to be made.
/// Nothing has been changed yet.
pub struct BackupPending {
    rule: PatchPattern,
    image: Vec<u8>,
    offset: usize,
}

/// A patch whose backup is made and whose patched image waits to be written.
pub struct WritePending {
    rule: PatchPattern,
    image: Vec<u8>,
    offset: usize,
}

/// A restore that has seen the backup and waits for it to be copied over the
/// module.
pub struct RestorePending {
    sealed: (),
}

impl ImagePending {
    #[verifier::type_invariant]
    closed spec fn inv(self) -> bool {
        self.rule@.wf()
    }

    /// The rule that the patch applies.
    pub closed spec fn rule(self) -> Rule {
        self.rule@
    }

    /// Starts a patch for `build`: picks the rule. What the host owes next
    /// is the whole of the module's bytes.
    pub fn begin(build: u32) -> (stage: Result<ImagePending, PatchError>)
        ensures
            match stage {
                Ok(pending) => select_rule_spec(build) == Some(pending.rule()),
                Err(error) => select_rule_spec(build) is None && error@
                    == (Failure::NoPatternForBuild { build }),
            },
    {
        proof {
            lemma_selected_rule(build);
        }
        match select_rule(build) {
            Some(rule) => Ok(ImagePending { rule }),
            None => Err(PatchError::NoPatternForBuild { build }),
        }
    }

    /// Takes what reading the module gave, and looks for the signature in
    /// it. What the host owes next is a copy of the module, as it is on
    /// disk, to the backup, in place of any earlier backup.
    pub fn image_read(self, read: Result<Vec<u8>, String>) -> (stage: Result<
        BackupPending,
        PatchError,
    >)
        ensures
            match read {
                Err(reason) => stage is Err && stage->Err_0@ == (Failure::ReadFailed {
                    reason: reason@,
                }),
                Ok(bytes) => match first_occurrence(bytes@, self.rule().search) {
                    None => stage is Err && stage->Err_0@ == (Failure::SignatureNotFound {
                        description: self.rule().description,
                    }),
                    Some(at) => {
                        &&& stage is Ok
                        &&& stage->Ok_0.rule() == self.rule()
                        &&& stage->Ok_0.original() == bytes@
                        &&& stage->Ok_0.offset() == at
                    },
                },
            },
    {
        proof {
            use_type_invariant(&self);
        }
        match read {
            Err(reason) => Err(PatchError::ReadFailed { reason }),
            Ok(bytes) => {
                proof {
                    lemma_first_occurrence(bytes@, self.rule@.search);
                }
                match PatchEngine::find_bytes(bytes.as_slice(), self.rule.search) {
                    None => Err(
                        PatchError::SignatureNotFound { description: self.rule.description },
                    ),
                    Some(offset) => Ok(BackupPending { rule: self.rule, image: bytes, offset }),
                }
            },
        }
    }
}

impl BackupPending {
    #[verifier::type_invariant]
    closed spec fn inv(self) -> bool {
        &&& self.rule@.wf()
        &&& is_first_occurrence(self.image@, self.rule@.search, self.offset as int)
    }

    /// The rule that the patch applies.
    pub closed spec fn rule(self) -> Rule {
        self.rule@
    }

    /// The module's bytes as they were read.
    pub closed spec fn original(self) -> Seq<u8> {
        self.image@
    }

    /// Where the signature was found.
    pub closed spec fn offset(self) -> int {
        self.offset as int
    }

    /// Takes what copying the module to the backup gave, and only then
    /// overwrites the signature in the image. What the host owes next is to
    /// write the whole image back to the module.
    pub fn backup_made(self, copied: Result<(), String>) -> (stage: Result<
        WritePending,
        PatchError,
    >)
        ensures
            match copied {
                Err(reason) => stage is Err && stage->Err_0@ == (Failure::BackupFailed {
                    reason: reason@,
                }),
                Ok(_) => {
                    &&& stage is Ok
                    &&& stage->Ok_0.rule() == self.rule()
                    &&& stage->Ok_0.offset() == self.offset()
                    &&& stage->Ok_0.patched() == overwritten(
                        self.original(),
                        self.offset(),
                        self.rule().replace,
                    )
                },
            },
    {
        proof {
            use_type_invariant(&self);
        }
        match copied {
            Err(reason) => Err(PatchError::BackupFailed { reason }),
            Ok(_) => {
                let mut image = self.image;
                overwrite(&mut image, self.offset, self.rule.replace);
                Ok(WritePending { rule: self.rule, image, offset: self.offset })
            },
        }
    }
}

impl WritePending {
    #[verifier::type_invariant]
    closed spec fn inv(self) -> bool {
        self.rule@.wf()
    }

    /// The rule that the patch applies.
    pub closed spec fn rule(self) -> Rule {
        self.rule@
    }

    /// The image with the signature overwritten.
    pub closed spec fn patched(self) -> Seq<u8> {
        self.image@
    }

    /// Where the signature was found.
    pub closed spec fn offset(self) -> int {
        self.offset as int
    }

    /// The bytes that the host is to write to the module.
    pub fn image(&self) -> (bytes: &Vec<u8>)
        ensures
            bytes@ == self.patched(),
    {
        &self.image
    }

    /// Takes what writing the module gave, and ends the patch: with a report
    /// that names the rule, the offset and `backup_label`, the place of the
    /// backup as it is to be shown, or with the failure of the write. A
    /// failed write may have left the module half written; nothing here
    /// undoes it.
    pub fn image_written(self, written: Result<(), String>, backup_label: &str) -> (verdict: Result<
        String,
        PatchError,
    >)
        ensures
            match written {
                Err(reason) => verdict is Err && verdict->Err_0@ == (Failure::WriteFailed {
                    reason: reason@,
                }),
                Ok(_) => verdict is Ok && verdict->Ok_0@ == patched_text(
                    self.rule().description,
                    self.offset() as nat,
                    backup_label@,
                ),
            },
    {
        match written {
            Err(reason) => Err(PatchError::WriteFailed { reason }),
            Ok(_) => {
                let mut text = String::from_str("Patched successfully using '");
                text.append(self.rule.description);
                text.append("' at offset 0x");
                push_hex(&mut text, self.offset as u64);
                text.append(". Backup saved to ");
                text.append(backup_label);
                text.append(".");
                Ok(text)
            },
        }
    }
}

impl RestorePending {
    /// Starts a restore: there must be a backup. What the host owes next is
    /// a copy of the whole backup over the module; the backup stays.
    pub fn begin(backup_exists: bool) -> (stage: Result<RestorePending, PatchError>)
        ensures
            backup_exists ==> stage is Ok,
            !backup_exists ==> stage is Err && stage->Err_0@ == Failure::BackupMissing,
    {
        if backup_exists {
            Ok(RestorePending { sealed: () })
        } else {
            Err(PatchError::BackupMissing)
        }
    }

    /// Takes what copying the backup over the module gave, and ends the
    /// restore.
    pub fn copy_made(self, copied: Result<(), String>) -> (verdict: Result<String, PatchError>)
        ensures
            match copied {
                Err(reason) => verdict is Err && verdict->Err_0@ == (Failure::RestoreCopyFailed {
                    reason: reason@,
                }),
                Ok(_) => verdict is Ok && verdict->Ok_0@ == restored_text(),
            },
    {
        match copied {
            Err(reason) => Err(PatchError::RestoreCopyFailed { reason }),
            Ok(_) => Ok(String::from_str("termsrv.dll restored from backup successfully.")),
        }
    }
}

} // verus!
