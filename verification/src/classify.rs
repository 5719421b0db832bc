//! Classification of decrypt failures.
//!
//! The crypto backend reports success with plaintext or failure with a
//! diagnostic string.  Callers render materially different messages for
//! "not addressed to my key", "malformed input" and "unexpected tool
//! failure", so every diagnostic is placed in exactly one of those
//! tiers by case-insensitive substring matching, first match winning.

use vstd::prelude::*;

use crate::text::{contains_ci, contains_seq, lower_seq};

verus! {

/// Model of a classified decrypt failure.
pub enum DecryptErrorModel {
    NotForMe { stderr: Seq<char> },
    InvalidMessage { stderr: Seq<char> },
    GpgFailed { stderr: Seq<char> },
    Io(Seq<char>),
}

/// A failed decrypt attempt: not addressed to a key we hold, malformed
/// encrypted data, an unexpected backend failure, or a local I/O
/// failure while talking to the backend.  The raw diagnostic rides
/// along for debug-level logging and is never the primary message.
#[derive(Debug)]
pub enum DecryptError {
    NotForMe { stderr: String },
    InvalidMessage { stderr: String },
    GpgFailed { stderr: String },
    Io(String),
}

impl View for DecryptError {
    type V = DecryptErrorModel;

    open spec fn view(&self) -> DecryptErrorModel {
        match self {
            DecryptError::NotForMe { stderr } => DecryptErrorModel::NotForMe { stderr: stderr@ },
            DecryptError::InvalidMessage { stderr } => DecryptErrorModel::InvalidMessage {
                stderr: stderr@,
            },
            DecryptError::GpgFailed { stderr } => DecryptErrorModel::GpgFailed { stderr: stderr@ },
            DecryptError::Io(s) => DecryptErrorModel::Io(s@),
        }
    }
}

/// The case-folded diagnostic names a missing usable secret key.
pub open spec fn spec_not_for_me(lowered: Seq<char>) -> bool {
    ||| contains_seq(lowered, "no secret key"@)
    ||| contains_seq(lowered, "decryption failed: no secret key"@)
    ||| contains_seq(lowered, "secret key not available"@)
}

/// The case-folded diagnostic names malformed or unrecognizable
/// encrypted-data framing.
pub open spec fn spec_invalid_message(lowered: Seq<char>) -> bool {
    ||| contains_seq(lowered, "no valid openpgp data found"@)
    ||| contains_seq(lowered, "invalid armor header"@)
    ||| contains_seq(lowered, "crc error"@)
    ||| contains_seq(lowered, "unexpected end of file"@)
    ||| contains_seq(lowered, "bad armor"@)
    ||| contains_seq(lowered, "invalid packet"@)
}

/// Where a failure diagnostic lands: the missing-secret-key tier first,
/// the malformed-framing tier second, the catch-all backend tier last.
/// Total and a pure function of the diagnostic text.
pub open spec fn spec_classify(diag: Seq<char>) -> DecryptErrorModel {
    if spec_not_for_me(lower_seq(diag)) {
        DecryptErrorModel::NotForMe { stderr: diag }
    } else if spec_invalid_message(lower_seq(diag)) {
        DecryptErrorModel::InvalidMessage { stderr: diag }
    } else {
        DecryptErrorModel::GpgFailed { stderr: diag }
    }
}

/// Place a failure diagnostic from the crypto backend in its tier,
/// carrying the raw diagnostic along.
pub fn classify_decrypt_failure(stderr: &str) -> (r: DecryptError)
    ensures
        r@ == spec_classify(stderr@),
{
    if contains_ci(stderr, "no secret key") || contains_ci(
        stderr,
        "decryption failed: no secret key",
    ) || contains_ci(stderr, "secret key not available") {
        DecryptError::NotForMe { stderr: String::from_str(stderr) }
    } else if contains_ci(stderr, "no valid openpgp data found") || contains_ci(
        stderr,
        "invalid armor header",
    ) || contains_ci(stderr, "crc error") || contains_ci(stderr, "unexpected end of file")
        || contains_ci(stderr, "bad armor") || contains_ci(stderr, "invalid packet") {
        DecryptError::InvalidMessage { stderr: String::from_str(stderr) }
    } else {
        DecryptError::GpgFailed { stderr: String::from_str(stderr) }
    }
}

/// Classification is deterministic: the same diagnostic always lands in
/// the same tier with the same payload.
pub proof fn lemma_classify_deterministic(d1: Seq<char>, d2: Seq<char>)
    requires
        d1 == d2,
    ensures
        spec_classify(d1) == spec_classify(d2),
{
}

/// A diagnostic that carries the phrase "no secret key" classifies as
/// not-for-me, whatever else it carries.
pub proof fn lemma_no_secret_key_is_not_for_me(diag: Seq<char>)
    requires
        contains_seq(diag, "no secret key"@),
    ensures
        spec_classify(diag) == (DecryptErrorModel::NotForMe { stderr: diag }),
{
    let phrase = "no secret key"@;
    reveal_strlit("no secret key");
    let i = choose|i: int| 0 <= i && crate::text::occurs_at(diag, phrase, i);
    assert forall|k: int| 0 <= k < phrase.len() implies crate::text::lower_char(
        #[trigger] phrase[k],
    ) == phrase[k] by {
    }
    crate::text::lemma_lower_preserves_occurrence(diag, phrase, i);
}

/// A diagnostic that carries the phrase "bad armor" and no
/// missing-secret-key phrase classifies as an invalid message.
pub proof fn lemma_bad_armor_is_invalid(diag: Seq<char>)
    requires
        contains_seq(diag, "bad armor"@),
        !spec_not_for_me(lower_seq(diag)),
    ensures
        spec_classify(diag) == (DecryptErrorModel::InvalidMessage { stderr: diag }),
{
    let phrase = "bad armor"@;
    reveal_strlit("bad armor");
    let i = choose|i: int| 0 <= i && crate::text::occurs_at(diag, phrase, i);
    assert forall|k: int| 0 <= k < phrase.len() implies crate::text::lower_char(
        #[trigger] phrase[k],
    ) == phrase[k] by {
    }
    crate::text::lemma_lower_preserves_occurrence(diag, phrase, i);
}

} // verus!
