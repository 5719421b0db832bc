use pgp_disc::classify::DecryptError;
use pgp_disc::keyring::PublicKey;
use pgp_disc::render::{
    render_decrypt_attempt, render_error, render_help, render_incoming, render_keys_lines,
    render_load_header, render_me_lines, render_pgp_sent, render_warn,
};
use pgp_disc::text::{parse_u64, u64_to_dec};

#[test]
fn decrypt_attempt_lines_per_outcome() {
    let ok: Result<String, DecryptError> = Ok("the plaintext".to_string());
    assert_eq!(
        render_decrypt_attempt("abcd", &ok),
        vec!["Decrypted (id=abcd)".to_string(), "the plaintext".to_string()]
    );
    let not_for_me: Result<String, DecryptError> =
        Err(DecryptError::NotForMe { stderr: String::new() });
    assert_eq!(render_decrypt_attempt("abcd", &not_for_me), vec!["Not for me (id=abcd)".to_string()]);
    let invalid: Result<String, DecryptError> =
        Err(DecryptError::InvalidMessage { stderr: String::new() });
    assert_eq!(
        render_decrypt_attempt("abcd", &invalid),
        vec!["Invalid PGP message (id=abcd)".to_string()]
    );
    let failed: Result<String, DecryptError> =
        Err(DecryptError::GpgFailed { stderr: "boom".to_string() });
    assert_eq!(render_decrypt_attempt("abcd", &failed), vec!["Decrypt error (id=abcd)".to_string()]);
    let io: Result<String, DecryptError> = Err(DecryptError::Io("lost pipe".to_string()));
    assert_eq!(render_decrypt_attempt("abcd", &io), vec!["Decrypt error (id=abcd)".to_string()]);
}

#[test]
fn transcript_lines_have_their_fixed_shapes() {
    assert_eq!(render_incoming("alice", "hello"), "< alice: hello");
    assert_eq!(render_error("oops"), "! oops");
    assert_eq!(render_warn("careful"), "careful");
    assert_eq!(render_pgp_sent("alice"), "> sent encrypted PGP message to alice");
    assert_eq!(render_load_header(3, 5), "Loading 3/5 messages...");
}

#[test]
fn help_names_the_whole_vocabulary() {
    let help = render_help();
    for word in ["help", "me", "keys", "load", "send", "clear", "quit", "pgp", "export"] {
        assert!(help.contains(word), "help is missing {word}");
    }
}

#[test]
fn identity_lines_cover_every_case() {
    assert_eq!(render_me_lines(false, "", &vec![]), vec!["gpg not found.".to_string()]);
    assert_eq!(
        render_me_lines(true, "gpg (GnuPG) 2.4.4", &vec![]),
        vec![
            "gpg (GnuPG) 2.4.4".to_string(),
            "No secret keys found in your GPG keyring.".to_string(),
        ]
    );
    assert_eq!(
        render_me_lines(true, "gpg (GnuPG) 2.4.4", &vec!["AAAA".to_string()]),
        vec![
            "gpg (GnuPG) 2.4.4".to_string(),
            "Secret key fingerprints:".to_string(),
            "  AAAA".to_string(),
        ]
    );
}

#[test]
fn key_listing_lines_cover_every_case() {
    assert_eq!(
        render_keys_lines(&vec![]),
        vec!["No public keys found in your GPG keyring.".to_string()]
    );
    let keys = vec![
        PublicKey { fpr: "AAAA".to_string(), uid: Some("Alice".to_string()) },
        PublicKey { fpr: "BBBB".to_string(), uid: None },
    ];
    assert_eq!(
        render_keys_lines(&keys),
        vec![
            "Public keys (recipients):".to_string(),
            "  AAAA  --  Alice".to_string(),
            "  BBBB".to_string(),
        ]
    );
}

#[test]
fn decimal_rendering_and_parsing_round_trip() {
    assert_eq!(u64_to_dec(0), "0");
    assert_eq!(u64_to_dec(42), "42");
    assert_eq!(u64_to_dec(u64::MAX), "18446744073709551615");
    assert_eq!(parse_u64("0"), Some(0));
    assert_eq!(parse_u64("+7"), Some(7));
    assert_eq!(parse_u64("18446744073709551615"), Some(u64::MAX));
    assert_eq!(parse_u64("18446744073709551616"), None);
    assert_eq!(parse_u64(""), None);
    assert_eq!(parse_u64("+"), None);
    assert_eq!(parse_u64("12x"), None);
    assert_eq!(parse_u64("-3"), None);
}
