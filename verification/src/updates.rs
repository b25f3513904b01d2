//! The check for updated offsets: an ordered list of mirrors, asked one
//! after the other until one answers. The host does the fetching; what is
//! asked next, and when to give up, is decided here.

use vstd::prelude::*;
use vstd::string::StringExecFns;
use crate::text::{decimal_text, push_decimal};

verus! {

/// The mirrors in the order in which they are asked.
pub open spec fn mirrors() -> Seq<Seq<char>> {
    seq![
        "https://raw.githubusercontent.com/malnwaihi/RDP-MultiSession-Enabler/main/termsrv_offsets.json"@,
        "https://ghp.ci/https://raw.githubusercontent.com/malnwaihi/RDP-MultiSession-Enabler/main/termsrv_offsets.json"@,
        "https://mirror.ghproxy.com/https://raw.githubusercontent.com/malnwaihi/RDP-MultiSession-Enabler/main/termsrv_offsets.json"@,
    ]
}

/// What is reported when a mirror answered with `length` bytes.
pub open spec fn fetched_text(mirror: Seq<char>, length: nat) -> Seq<char> {
    "Fetched correctly from "@ + mirror + ": "@ + decimal_text(length) + " bytes"@
}

/// What is reported when no mirror answered.
pub open spec fn exhausted_text() -> Seq<char> {
    "Failed to fetch updates from all mirrors."@
}

/// How long the host is to wait for one mirror, in seconds.
pub const FETCH_TIMEOUT_SECONDS: u64 = 10;

/// A check under way: the mirror that the host is to ask now.
pub struct UpdateCheck {
    index: usize,
}

/// What asking one mirror gave.
#[derive(Debug, Clone, Copy, PartialEq, Eq)]
pub enum FetchOutcome {
    /// The mirror could not be reached, or did not answer in time.
    Unreachable,
    /// The mirror answered, but not with success.
    Refused,
    /// The mirror answered with success, but its body could not be read.
    Unreadable,
    /// The mirror answered with success, and its body is `length` bytes
    /// long.
    Body { length: usize },
}

/// What follows one answer.
pub enum UpdateStep {
    /// The mirror did not answer: ask the next one.
    Ask(UpdateCheck),
    /// A mirror answered: the check is over, with this report.
    Found(String),
    /// The last mirror did not answer either: the check has failed, with
    /// this report.
    GaveUp(String),
}

impl UpdateCheck {
    #[verifier::type_invariant]
    closed spec fn inv(self) -> bool {
        self.index < mirrors().len()
    }

    /// The place in the list of the mirror that is asked now.
    pub closed spec fn position(self) -> int {
        self.index as int
    }

    /// Starts a check with the first mirror.
    pub fn begin() -> (check: UpdateCheck)
        ensures
            check.position() == 0,
    {
        UpdateCheck { index: 0 }
    }

    /// The address that the host is to fetch now.
    pub fn mirror(&self) -> (url: &'static str)
        ensures
            0 <= self.position() < mirrors().len(),
            url@ == mirrors()[self.position()],
    {
        proof {
            use_type_invariant(self);
        }
        if self.index == 0 {
            "https://raw.githubusercontent.com/malnwaihi/RDP-MultiSession-Enabler/main/termsrv_offsets.json"
        } else if self.index == 1 {
            "https://ghp.ci/https://raw.githubusercontent.com/malnwaihi/RDP-MultiSession-Enabler/main/termsrv_offsets.json"
        } else {
            "https://mirror.ghproxy.com/https://raw.githubusercontent.com/malnwaihi/RDP-MultiSession-Enabler/main/termsrv_offsets.json"
        }
    }

    /// Takes what asking the mirror gave. Only a body that was read ends
    /// the check with success. Whatever else happened, the next mirror in
    /// the list is asked; after the last the check gives up.
    pub fn fetched(self, outcome: FetchOutcome) -> (step: UpdateStep)
        ensures
            match outcome {
                FetchOutcome::Body { length } => step matches UpdateStep::Found(text) && text@
                    == fetched_text(mirrors()[self.position()], length as nat),
                _ => if self.position() + 1 < mirrors().len() {
                    step matches UpdateStep::Ask(next) && next.position() == self.position() + 1
                } else {
                    step matches UpdateStep::GaveUp(text) && text@ == exhausted_text()
                },
            },
    {
        proof {
            use_type_invariant(&self);
        }
        match outcome {
            FetchOutcome::Body { length } => {
                let mut text = String::from_str("Fetched correctly from ");
                text.append(self.mirror());
                text.append(": ");
                push_decimal(&mut text, length as u64);
                text.append(" bytes");
                UpdateStep::Found(text)
            },
            _ => {
                if self.index + 1 < 3 {
                    UpdateStep::Ask(UpdateCheck { index: self.index + 1 })
                } else {
                    UpdateStep::GaveUp(String::from_str("Failed to fetch updates from all mirrors."))
                }
            },
        }
    }
}

} // verus!
