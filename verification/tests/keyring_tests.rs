use pgp_disc::keyring::{parse_colons_fprs, parse_public_keys};

#[test]
fn secret_fingerprints_are_sorted_and_deduplicated() {
    let listing = "sec:u:255:22:0123456789ABCDEF:::::::\n\
                   fpr:::::::::BBBB:\n\
                   fpr:::::::::AAAA:\n\
                   grp:::::::::KEYGRIP:\n\
                   fpr:::::::::BBBB:\n";
    // only fingerprint lines count; the keygrip line is skipped, the
    // duplicate collapses, and the order is sorted
    let fprs = parse_colons_fprs(listing);
    assert_eq!(fprs, vec!["AAAA".to_string(), "BBBB".to_string()]);
}

#[test]
fn fingerprint_lines_with_too_few_fields_are_skipped() {
    let listing = "fpr:short\nfpr:::::::::GOOD:\n";
    assert_eq!(parse_colons_fprs(listing), vec!["GOOD".to_string()]);
}

#[test]
fn empty_listing_yields_no_fingerprints() {
    assert_eq!(parse_colons_fprs(""), Vec::<String>::new());
}

#[test]
fn fingerprint_fields_are_trimmed() {
    let listing = "fpr::::::::: CCCC :\n";
    assert_eq!(parse_colons_fprs(listing), vec!["CCCC".to_string()]);
}

#[test]
fn public_keys_pair_fingerprints_with_the_first_uid() {
    let listing = "pub:u:255:22:0123:::::::\n\
                   uid:::::::::Alice <alice@example.org>:\n\
                   uid:::::::::Alice (work):\n\
                   fpr:::::::::FPRA:\n\
                   pub:u:255:22:4567:::::::\n\
                   fpr:::::::::FPRB:\n\
                   uid:::::::::Bob:\n";
    let keys = parse_public_keys(listing);
    assert_eq!(keys.len(), 2);
    assert_eq!(keys[0].fpr, "FPRA");
    assert_eq!(keys[0].uid, Some("Alice <alice@example.org>".to_string()));
    // the fingerprint line closed the second key before its uid arrived
    assert_eq!(keys[1].fpr, "FPRB");
    assert_eq!(keys[1].uid, None);
}

#[test]
fn lines_outside_a_key_header_are_ignored() {
    let listing = "uid:::::::::Stray:\nfpr:::::::::STRAY:\n";
    assert_eq!(parse_public_keys(listing).len(), 0);
}

#[test]
fn only_the_first_fingerprint_after_a_header_closes_the_key() {
    let listing = "pub:::::::::::\n\
                   fpr:::::::::PRIMARY:\n\
                   sub:::::::::::\n\
                   fpr:::::::::SUBKEY:\n";
    let keys = parse_public_keys(listing);
    assert_eq!(keys.len(), 1);
    assert_eq!(keys[0].fpr, "PRIMARY");
}
