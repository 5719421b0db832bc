use pgp_disc::detect::{detect_pgp, extract_pgp_message_block, pgp_block_id};
use sha2::Digest;

const BLOCK: &str = "-----BEGIN PGP MESSAGE-----\nX\n-----END PGP MESSAGE-----";

fn expected_id(block: &str) -> String {
    let digest = sha2::Sha256::digest(block.as_bytes());
    hex::encode(&digest[..8])
}

#[test]
fn extracts_well_formed_block() {
    let text = format!("hello {} bye", BLOCK);
    assert_eq!(extract_pgp_message_block(&text), Some(BLOCK.to_string()));
}

#[test]
fn extracts_block_spanning_whole_input() {
    assert_eq!(extract_pgp_message_block(BLOCK), Some(BLOCK.to_string()));
}

#[test]
fn fingerprint_matches_digest_prefix() {
    let (id, block) = detect_pgp(BLOCK).expect("block detected");
    assert_eq!(block, BLOCK);
    assert_eq!(id, expected_id(BLOCK));
    assert_eq!(id.len(), 16);
}

#[test]
fn fingerprint_is_deterministic() {
    let text = format!("a {} b", BLOCK);
    let (id1, b1) = detect_pgp(&text).unwrap();
    let (id2, b2) = detect_pgp(BLOCK).unwrap();
    assert_eq!(b1, b2);
    assert_eq!(id1, id2);
    assert_eq!(pgp_block_id(BLOCK), id1);
}

#[test]
fn no_match_without_end_marker() {
    assert_eq!(
        extract_pgp_message_block("-----BEGIN PGP MESSAGE-----\ntruncated"),
        None
    );
    assert_eq!(detect_pgp("-----BEGIN PGP MESSAGE----- only"), None);
}

#[test]
fn no_match_without_any_marker() {
    assert_eq!(extract_pgp_message_block("just a chat message"), None);
    assert_eq!(detect_pgp(""), None);
}

#[test]
fn end_marker_may_overlap_begin_marker_tail() {
    // The end marker is searched from the begin marker's start, so its
    // leading dashes may reuse the begin marker's trailing dashes.
    let text = "-----BEGIN PGP MESSAGE-----END PGP MESSAGE-----";
    assert_eq!(extract_pgp_message_block(text), Some(text.to_string()));
}

#[test]
fn first_marker_pair_wins() {
    let text = format!("{} and then {}", BLOCK, "-----BEGIN PGP MESSAGE-----\nY\n-----END PGP MESSAGE-----");
    assert_eq!(extract_pgp_message_block(&text), Some(BLOCK.to_string()));
}
