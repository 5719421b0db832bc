//! Payload detector: finds an armored message block embedded in chat
//! text and derives its session-local fingerprint.
//!
//! A block is the substring from the first begin marker through the end
//! of the first end marker at or after it.  Both markers must sit in
//! the same text; a begin marker whose end marker never arrives is not
//! detected.  Because the block starts and ends with a marker
//! character, it carries no leading or trailing whitespace.

use vstd::prelude::*;

use crate::digest::{fingerprint_bytes, spec_fingerprint_bytes};
use crate::text::{contains_from, contains_seq, find_from, occurs_at};

verus! {

/// The marker that opens an armored block.
pub open spec fn begin_marker() -> Seq<char> {
    "-----BEGIN PGP MESSAGE-----"@
}

/// The marker that closes an armored block.
pub open spec fn end_marker() -> Seq<char> {
    "-----END PGP MESSAGE-----"@
}

/// The first index `>= from` at which `needle` occurs in `hay`.
pub open spec fn spec_find(hay: Seq<char>, needle: Seq<char>, from: int) -> Option<int>
    decreases hay.len() - from,
    via spec_find_decreases
{
    if from < 0 || from + needle.len() > hay.len() {
        None
    } else if occurs_at(hay, needle, from) {
        Some(from)
    } else {
        spec_find(hay, needle, from + 1)
    }
}

#[via_fn]
proof fn spec_find_decreases(hay: Seq<char>, needle: Seq<char>, from: int) {
    if 0 <= from && from + needle.len() <= hay.len() && needle.len() == 0 {
        assert(hay.subrange(from, from) =~= needle);
    }
}

/// An empty needle occurs wherever it fits; used to discharge the
/// boundary case in inductions over `spec_find`.
proof fn lemma_empty_needle_occurs(hay: Seq<char>, needle: Seq<char>, from: int)
    requires
        needle.len() == 0,
        0 <= from <= hay.len(),
    ensures
        occurs_at(hay, needle, from),
{
    assert(hay.subrange(from, from) =~= needle);
}

proof fn lemma_spec_find_of_least(hay: Seq<char>, needle: Seq<char>, from: int, i: int)
    requires
        0 <= from <= i,
        occurs_at(hay, needle, i),
        forall|j: int| from <= j < i ==> !occurs_at(hay, needle, j),
    ensures
        spec_find(hay, needle, from) == Some(i),
    decreases i - from,
{
    if from < i {
        lemma_spec_find_of_least(hay, needle, from + 1, i);
    }
}

proof fn lemma_spec_find_none(hay: Seq<char>, needle: Seq<char>, from: int)
    requires
        0 <= from,
        !contains_from(hay, needle, from),
    ensures
        spec_find(hay, needle, from) is None,
    decreases hay.len() - from,
{
    if from + needle.len() <= hay.len() {
        assert(!occurs_at(hay, needle, from));
        if needle.len() == 0 {
            lemma_empty_needle_occurs(hay, needle, from);
        }
        assert(!contains_from(hay, needle, from + 1));
        lemma_spec_find_none(hay, needle, from + 1);
    }
}

/// The armored block embedded in `text`: the substring from the first
/// begin marker through the end of the first end marker at or after
/// it, or nothing when either marker is missing.
pub open spec fn spec_extract_block(text: Seq<char>) -> Option<Seq<char>> {
    match spec_find(text, begin_marker(), 0) {
        Option::None => Option::None,
        Option::Some(s) => match spec_find(text, end_marker(), s) {
            Option::None => Option::None,
            Option::Some(e) => Option::Some(text.subrange(s, e + end_marker().len())),
        },
    }
}

/// Extract the armored block embedded in `input`, if one is complete.
pub fn extract_pgp_message_block(input: &str) -> (r: Option<String>)
    ensures
        match r {
            Some(b) => spec_extract_block(input@) == Some(b@),
            None => spec_extract_block(input@) is None,
        },
{
    let begin = "-----BEGIN PGP MESSAGE-----";
    let end = "-----END PGP MESSAGE-----";
    let input_len = input.unicode_len();
    let start = match find_from(input, begin, 0) {
        Some(s) => {
            proof {
                lemma_spec_find_of_least(input@, begin_marker(), 0, s as int);
            }
            s
        },
        None => {
            proof {
                lemma_spec_find_none(input@, begin_marker(), 0);
            }
            return None;
        },
    };
    let end_at = match find_from(input, end, start) {
        Some(e) => {
            proof {
                lemma_spec_find_of_least(input@, end_marker(), start as int, e as int);
            }
            e
        },
        None => {
            proof {
                lemma_spec_find_none(input@, end_marker(), start as int);
            }
            return None;
        },
    };
    let end_len = end.unicode_len();
    let block = String::from_str(input.substring_char(start, end_at + end_len));
    Some(block)
}

/// The fingerprint of an armored block: sixteen lowercase hex
/// characters derived from the digest of its character encoding.
pub open spec fn spec_fingerprint(block: Seq<char>) -> Seq<char> {
    spec_fingerprint_bytes(vstd::utf8::encode_utf8(block))
}

/// Compute the stable display and lookup identifier of a block.
pub fn pgp_block_id(block: &str) -> (r: String)
    ensures
        r@ == spec_fingerprint(block@),
        r@.len() == 16,
{
    fingerprint_bytes(block.as_bytes())
}

/// Detect an embedded armored block and pair it with its fingerprint.
pub fn detect_pgp(input: &str) -> (r: Option<(String, String)>)
    ensures
        match r {
            Some((id, b)) => {
                &&& spec_extract_block(input@) == Some(b@)
                &&& id@ == spec_fingerprint(b@)
                &&& id@.len() == 16
            },
            None => spec_extract_block(input@) is None,
        },
{
    match extract_pgp_message_block(input) {
        Some(block) => {
            let id = pgp_block_id(block.as_str());
            Some((id, block))
        },
        None => None,
    }
}

/// The fingerprint is a function of the block alone: equal blocks get
/// equal fingerprints, whatever text they were found in.
pub proof fn lemma_fingerprint_deterministic(b1: Seq<char>, b2: Seq<char>)
    requires
        b1 == b2,
    ensures
        spec_fingerprint(b1) == spec_fingerprint(b2),
{
}

/// A detected block spans from the first begin marker through the end
/// of the first end marker at or after it, exactly.
pub proof fn lemma_block_spans_markers(text: Seq<char>, s: int, e: int)
    requires
        spec_find(text, begin_marker(), 0) == Some(s),
        spec_find(text, end_marker(), s) == Some(e),
    ensures
        spec_extract_block(text) == Some(text.subrange(s, e + end_marker().len())),
{
}

/// Text without a begin marker holds no detectable block.
pub proof fn lemma_no_begin_marker_no_match(text: Seq<char>)
    requires
        !contains_seq(text, begin_marker()),
    ensures
        spec_extract_block(text) is None,
{
    lemma_spec_find_none(text, begin_marker(), 0);
}

/// Text without an end marker holds no detectable block, even when a
/// begin marker is present.
pub proof fn lemma_no_end_marker_no_match(text: Seq<char>)
    requires
        !contains_seq(text, end_marker()),
    ensures
        spec_extract_block(text) is None,
{
    match spec_find(text, begin_marker(), 0) {
        Option::None => {},
        Option::Some(s) => {
            lemma_spec_find_bounds(text, begin_marker(), 0);
            assert(!contains_from(text, end_marker(), s));
            lemma_spec_find_none(text, end_marker(), s);
        },
    }
}

/// A found index lies within the text.
proof fn lemma_spec_find_bounds(hay: Seq<char>, needle: Seq<char>, from: int)
    requires
        0 <= from,
        spec_find(hay, needle, from) is Some,
    ensures
        from <= spec_find(hay, needle, from)->0,
        occurs_at(hay, needle, spec_find(hay, needle, from)->0),
    decreases hay.len() - from,
{
    if from + needle.len() <= hay.len() && !occurs_at(hay, needle, from) {
        if needle.len() == 0 {
            lemma_empty_needle_occurs(hay, needle, from);
        }
        lemma_spec_find_bounds(hay, needle, from + 1);
    }
}

} // verus!
