use pgp_disc::classify::{classify_decrypt_failure, DecryptError};

#[test]
fn no_secret_key_classifies_as_not_for_me() {
    let diag = "gpg: decryption failed: No secret key";
    match classify_decrypt_failure(diag) {
        DecryptError::NotForMe { stderr } => assert_eq!(stderr, diag),
        _ => panic!("expected the missing-secret-key tier"),
    }
}

#[test]
fn no_secret_key_wins_even_with_unrelated_text() {
    let diag = "warning: something odd\ngpg: NO SECRET KEY\nmore noise";
    assert!(matches!(
        classify_decrypt_failure(diag),
        DecryptError::NotForMe { .. }
    ));
}

#[test]
fn bad_armor_without_secret_key_phrase_is_invalid_message() {
    let diag = "gpg: Bad Armor detected";
    assert!(matches!(
        classify_decrypt_failure(diag),
        DecryptError::InvalidMessage { .. }
    ));
}

#[test]
fn secret_key_tier_is_checked_before_framing_tier() {
    let diag = "bad armor, and also no secret key";
    assert!(matches!(
        classify_decrypt_failure(diag),
        DecryptError::NotForMe { .. }
    ));
}

#[test]
fn framing_phrases_classify_as_invalid_message() {
    for diag in [
        "gpg: no valid OpenPGP data found.",
        "gpg: invalid armor header",
        "gpg: CRC error",
        "gpg: unexpected end of file",
        "gpg: invalid packet (ctb=2d)",
    ] {
        assert!(
            matches!(
                classify_decrypt_failure(diag),
                DecryptError::InvalidMessage { .. }
            ),
            "diagnostic was: {diag}"
        );
    }
}

#[test]
fn anything_else_is_a_backend_failure_with_the_raw_diagnostic() {
    let diag = "gpg: cancelled by user";
    match classify_decrypt_failure(diag) {
        DecryptError::GpgFailed { stderr } => assert_eq!(stderr, diag),
        _ => panic!("expected the catch-all backend tier"),
    }
}

#[test]
fn classification_is_deterministic() {
    let diag = "gpg: decryption failed: no secret key";
    let first = classify_decrypt_failure(diag);
    let second = classify_decrypt_failure(diag);
    assert!(matches!(first, DecryptError::NotForMe { .. }));
    assert!(matches!(second, DecryptError::NotForMe { .. }));
}
