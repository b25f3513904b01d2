//! The ways in which an operation of the patcher fails.

use vstd::prelude::*;
use vstd::string::StringExecFns;
use crate::text::{decimal_text, push_decimal};

verus! {

/// Why an operation failed. Each kind carries what tells it apart for the
/// reader of its message: the build, the rule's description, or what the
/// host said of the failed file operation.
#[derive(Debug, PartialEq, Eq)]
pub enum PatchError {
    /// No rule of the table covers the build.
    NoPatternForBuild { build: u32 },
    /// The module could not be read.
    ReadFailed { reason: String },
    /// The rule's signature stands nowhere in the module: it is patched
    /// already, or it is a variant that the rule does not know.
    SignatureNotFound { description: &'static str },
    /// The module could not be copied to the backup.
    BackupFailed { reason: String },
    /// The patched image could not be written back.
    WriteFailed { reason: String },
    /// There is no backup to restore from.
    BackupMissing,
    /// The backup could not be copied over the module.
    RestoreCopyFailed { reason: String },
    /// The host's build number could not be found out.
    BuildResolutionFailed,
}

/// A failure as a mathematical value.
pub enum Failure {
    NoPatternForBuild { build: u32 },
    ReadFailed { reason: Seq<char> },
    SignatureNotFound { description: Seq<char> },
    BackupFailed { reason: Seq<char> },
    WriteFailed { reason: Seq<char> },
    BackupMissing,
    RestoreCopyFailed { reason: Seq<char> },
    BuildResolutionFailed,
}

impl Failure {
    /// The text shown for the failure.
    pub open spec fn message(self) -> Seq<char> {
        match self {
            Failure::NoPatternForBuild { build } => "No patch pattern available for build "@
                + decimal_text(build as nat),
            Failure::ReadFailed { reason } => "Failed to read termsrv.dll: "@ + reason,
            Failure::SignatureNotFound { description } => "Pattern '"@ + description
                + "' not found in termsrv.dll. The DLL may already be patched or unsupported."@,
            Failure::BackupFailed { reason } => "Failed to backup termsrv.dll: "@ + reason,
            Failure::WriteFailed { reason } => "Failed to write patched termsrv.dll: "@ + reason,
            Failure::BackupMissing => "Backup file not found. Cannot restore."@,
            Failure::RestoreCopyFailed { reason } => "Failed to restore termsrv.dll: "@ + reason,
            Failure::BuildResolutionFailed => "Could not detect Windows build number"@,
        }
    }
}

impl View for PatchError {
    type V = Failure;

    open spec fn view(&self) -> Failure {
        match self {
            PatchError::NoPatternForBuild { build } => Failure::NoPatternForBuild { build: *build },
            PatchError::ReadFailed { reason } => Failure::ReadFailed { reason: reason@ },
            PatchError::SignatureNotFound { description } => Failure::SignatureNotFound {
                description: description@,
            },
            PatchError::BackupFailed { reason } => Failure::BackupFailed { reason: reason@ },
            PatchError::WriteFailed { reason } => Failure::WriteFailed { reason: reason@ },
            PatchError::BackupMissing => Failure::BackupMissing,
            PatchError::RestoreCopyFailed { reason } => Failure::RestoreCopyFailed {
                reason: reason@,
            },
            PatchError::BuildResolutionFailed => Failure::BuildResolutionFailed,
        }
    }
}

impl PatchError {
    /// The text shown for the failure.
    pub fn message(&self) -> (text: String)
        ensures
            text@ == self@.message(),
    {
        match self {
            PatchError::NoPatternForBuild { build } => {
                let mut text = String::from_str("No patch pattern available for build ");
                push_decimal(&mut text, *build as u64);
                text
            },
            PatchError::ReadFailed { reason } => {
                String::from_str("Failed to read termsrv.dll: ").concat(reason.as_str())
            },
            PatchError::SignatureNotFound { description } => {
                String::from_str("Pattern '").concat(description).concat(
                    "' not found in termsrv.dll. The DLL may already be patched or unsupported.",
                )
            },
            PatchError::BackupFailed { reason } => {
                String::from_str("Failed to backup termsrv.dll: ").concat(reason.as_str())
            },
            PatchError::WriteFailed { reason } => {
                String::from_str("Failed to write patched termsrv.dll: ").concat(reason.as_str())
            },
            PatchError::BackupMissing => String::from_str("Backup file not found. Cannot restore."),
            PatchError::RestoreCopyFailed { reason } => {
                String::from_str("Failed to restore termsrv.dll: ").concat(reason.as_str())
            },
            PatchError::BuildResolutionFailed => {
                String::from_str("Could not detect Windows build number")
            },
        }
    }
}

} // verus!
