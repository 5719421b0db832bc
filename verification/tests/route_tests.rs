use pgp_disc::command::CommandError;
use pgp_disc::inbox::InboxCache;
use pgp_disc::render::{render_help, render_outgoing_sent};
use pgp_disc::route::{route, Action, Outcome, UiAction};
use pgp_disc::session::SessionEnv;
use pgp_disc::Config;

fn config(channel_id: u64) -> Config {
    Config { token: "token".to_string(), channel_id }
}

#[test]
fn send_uses_the_static_default_channel() {
    let cfg = config(7);
    let mut env = SessionEnv::new();
    let inbox = InboxCache::new();
    let d = route("send hello world", &cfg, &mut env, &inbox).expect("routes");
    match d.action {
        Action::SendText { channel_id, text } => {
            assert_eq!(channel_id, 7);
            assert_eq!(text, "hello world");
        },
        _ => panic!("expected a plain send action"),
    }
    // the confirmation line shown once the send succeeded
    assert_eq!(render_outgoing_sent(), "> sent");
}

#[test]
fn send_uses_the_channel_override_once_set() {
    let cfg = config(7);
    let mut env = SessionEnv::new();
    let inbox = InboxCache::new();
    route("export channel 42", &cfg, &mut env, &inbox).expect("routes");
    let d = route("send hi", &cfg, &mut env, &inbox).expect("routes");
    assert!(matches!(d.action, Action::SendText { channel_id: 42, .. }));
}

#[test]
fn explicit_recipient_beats_the_unset_session_default() {
    let cfg = config(7);
    let mut env = SessionEnv::new();
    let inbox = InboxCache::new();
    let d = route("pgp send -r alice secret text", &cfg, &mut env, &inbox).expect("routes");
    match d.action {
        Action::EncryptAndSend { recipient, channel_id, text } => {
            assert_eq!(recipient, "alice");
            assert_eq!(channel_id, 7);
            assert_eq!(text, "secret text");
        },
        _ => panic!("expected an encrypt-and-send action"),
    }
}

#[test]
fn encrypted_send_without_any_recipient_fails() {
    let cfg = config(7);
    let mut env = SessionEnv::new();
    let inbox = InboxCache::new();
    let e = route("pgp send secret text", &cfg, &mut env, &inbox).unwrap_err();
    assert!(matches!(e, CommandError::MissingRecipient));
}

#[test]
fn encrypted_send_falls_back_to_the_session_recipient() {
    let cfg = config(7);
    let mut env = SessionEnv::new();
    let inbox = InboxCache::new();
    route("export recipient bob", &cfg, &mut env, &inbox).expect("routes");
    let d = route("pgp send hi there", &cfg, &mut env, &inbox).expect("routes");
    match d.action {
        Action::EncryptAndSend { recipient, text, .. } => {
            assert_eq!(recipient, "bob");
            assert_eq!(text, "hi there");
        },
        _ => panic!("expected an encrypt-and-send action"),
    }
}

#[test]
fn decrypt_of_unknown_fingerprint_fails_without_a_crypto_call() {
    let cfg = config(7);
    let mut env = SessionEnv::new();
    let inbox = InboxCache::new();
    let e = route("pgp decrypt unknown-id", &cfg, &mut env, &inbox).unwrap_err();
    match e {
        CommandError::UnknownBlockId { id } => {
            assert_eq!(id, "unknown-id");
        },
        _ => panic!("expected an unknown-block failure"),
    }
}

#[test]
fn decrypt_of_cached_fingerprint_plans_a_decrypt() {
    let cfg = config(7);
    let mut env = SessionEnv::new();
    let mut inbox = InboxCache::new();
    inbox.record("abcd".to_string(), "armored".to_string());
    let d = route("pgp decrypt abcd", &cfg, &mut env, &inbox).expect("routes");
    match d.action {
        Action::DecryptBlock { id, block } => {
            assert_eq!(id, "abcd");
            assert_eq!(block, "armored");
        },
        _ => panic!("expected a decrypt action"),
    }
}

#[test]
fn decrypt_last_on_empty_cache_only_warns() {
    let cfg = config(7);
    let mut env = SessionEnv::new();
    let inbox = InboxCache::new();
    let d = route("pgp decrypt-last", &cfg, &mut env, &inbox).expect("routes");
    assert!(matches!(d.action, Action::Idle));
    assert_eq!(d.lines, vec!["No PGP messages captured yet.".to_string()]);
}

#[test]
fn unknown_command_carries_the_offending_token() {
    let cfg = config(7);
    let mut env = SessionEnv::new();
    let inbox = InboxCache::new();
    let e = route("frobnicate now", &cfg, &mut env, &inbox).unwrap_err();
    match e {
        CommandError::UnknownCommand { ref token } => {
            assert_eq!(token, "frobnicate");
            assert_eq!(e.message(), "Unknown command: frobnicate (try: help)");
        },
        _ => panic!("expected an unknown-command failure"),
    }
}

#[test]
fn malformed_counts_are_rejected_before_any_effect() {
    let cfg = config(7);
    let mut env = SessionEnv::new();
    let inbox = InboxCache::new();
    let e = route("load abc", &cfg, &mut env, &inbox).unwrap_err();
    match e {
        CommandError::InvalidArgument { message } => {
            assert_eq!(message, "load <count> must be a number");
        },
        _ => panic!("expected an invalid-argument failure"),
    }
    let e = route("export channel twelve", &cfg, &mut env, &inbox).unwrap_err();
    assert!(matches!(e, CommandError::InvalidArgument { .. }));
    // the session channel is untouched by the failed command
    assert_eq!(env.set_channel_id(&cfg), 7);
}

#[test]
fn export_unset_requires_a_known_target() {
    let cfg = config(7);
    let mut env = SessionEnv::new();
    let inbox = InboxCache::new();
    let e = route("export unset everything", &cfg, &mut env, &inbox).unwrap_err();
    match e {
        CommandError::Usage { usage } => {
            assert_eq!(usage, "Usage: export unset <fpr|channel>");
        },
        _ => panic!("expected a usage failure"),
    }
}

#[test]
fn export_show_reports_effective_values() {
    let cfg = config(7);
    let mut env = SessionEnv::new();
    let inbox = InboxCache::new();
    let d = route("export show", &cfg, &mut env, &inbox).expect("routes");
    assert_eq!(
        d.lines,
        vec![
            "Session exports:".to_string(),
            "  channel 7".to_string(),
            "  recipient (not set)".to_string(),
        ]
    );
}

#[test]
fn load_plans_a_history_fetch() {
    let cfg = config(7);
    let mut env = SessionEnv::new();
    let inbox = InboxCache::new();
    let d = route("load 25", &cfg, &mut env, &inbox).expect("routes");
    assert!(matches!(d.action, Action::FetchHistory { channel_id: 7, count: 25 }));
}

#[test]
fn quit_ends_the_session() {
    let cfg = config(7);
    let mut env = SessionEnv::new();
    let inbox = InboxCache::new();
    let d = route("quit", &cfg, &mut env, &inbox).expect("routes");
    assert!(matches!(d.outcome, Outcome::Quit));
}

#[test]
fn message_spacing_collapses_to_single_spaces() {
    // inter-token spacing is not preserved: tokens are rejoined with
    // one space
    let cfg = config(7);
    let mut env = SessionEnv::new();
    let inbox = InboxCache::new();
    let d = route("send  hello \t  world", &cfg, &mut env, &inbox).expect("routes");
    assert!(matches!(d.action, Action::SendText { ref text, .. } if text == "hello world"));
}

#[test]
fn blank_input_is_an_empty_command() {
    let cfg = config(7);
    let mut env = SessionEnv::new();
    let inbox = InboxCache::new();
    let e = route("   ", &cfg, &mut env, &inbox).unwrap_err();
    assert!(matches!(e, CommandError::Empty));
    assert_eq!(e.message(), "empty command");
}

#[test]
fn multi_token_recipients_are_joined() {
    let cfg = config(7);
    let mut env = SessionEnv::new();
    let inbox = InboxCache::new();
    let d = route("export recipient Alice Example", &cfg, &mut env, &inbox).expect("routes");
    assert_eq!(d.lines, vec!["exported recipient = Alice Example".to_string()]);
    assert_eq!(env.effective_recipient(), Some("Alice Example".to_string()));
}

#[test]
fn encrypted_send_with_flag_but_no_message_is_a_usage_error() {
    let cfg = config(7);
    let mut env = SessionEnv::new();
    let inbox = InboxCache::new();
    let e = route("pgp send -r alice", &cfg, &mut env, &inbox).unwrap_err();
    match e {
        CommandError::Usage { usage } => {
            assert_eq!(usage, "Usage: pgp send -r <fpr|uid> <message...>");
        },
        _ => panic!("expected a usage failure"),
    }
}

#[test]
fn clear_asks_the_terminal_to_clear() {
    let cfg = config(7);
    let mut env = SessionEnv::new();
    let inbox = InboxCache::new();
    let d = route("clear", &cfg, &mut env, &inbox).expect("routes");
    assert!(matches!(d.ui.as_slice(), [UiAction::ClearScreen]));
    assert!(d.lines.is_empty());
}

#[test]
fn help_is_one_transcript_block() {
    let cfg = config(7);
    let mut env = SessionEnv::new();
    let inbox = InboxCache::new();
    let d = route("help", &cfg, &mut env, &inbox).expect("routes");
    assert_eq!(d.lines, vec![render_help()]);
    let via_alias = route("?", &cfg, &mut env, &inbox).expect("routes");
    assert_eq!(via_alias.lines, d.lines);
}

#[test]
fn pgp_list_shows_captured_blocks_oldest_first() {
    let cfg = config(7);
    let mut env = SessionEnv::new();
    let mut inbox = InboxCache::new();
    inbox.record("aaaa".to_string(), "12345".to_string());
    inbox.record("bbbb".to_string(), "123".to_string());
    let d = route("pgp list", &cfg, &mut env, &inbox).expect("routes");
    assert_eq!(
        d.lines,
        vec![
            "Captured PGP messages (latest last):".to_string(),
            "  id= aaaa (5 chars)".to_string(),
            "  id= bbbb (3 chars)".to_string(),
        ]
    );
}
