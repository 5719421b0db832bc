use pgp_disc::classify::classify_decrypt_failure;
use pgp_disc::dispatch::{ChatEvent, Dispatcher, LoopInput};
use pgp_disc::render::render_chat_decrypt;
use pgp_disc::route::{Action, UiAction};
use pgp_disc::Config;

const BLOCK: &str = "-----BEGIN PGP MESSAGE-----\nX\n-----END PGP MESSAGE-----";

fn dispatcher(channel_id: u64) -> Dispatcher {
    Dispatcher::new(Config { token: "token".to_string(), channel_id })
}

fn event(channel_id: u64, author: &str, content: &str) -> ChatEvent {
    ChatEvent {
        channel_id,
        author_id: 1,
        author: author.to_string(),
        content: content.to_string(),
    }
}

#[test]
fn inbound_block_is_captured_and_a_decrypt_is_owed() {
    let mut d = dispatcher(7);
    let step = d.step(LoopInput::Chat(event(7, "alice", BLOCK)));
    let (id, block) = match step.action {
        Action::DecryptBlock { id, block } => (id, block),
        _ => panic!("expected a decrypt action"),
    };
    assert_eq!(block, BLOCK);

    // the cache grew by one
    let listing = d.step(LoopInput::Command("pgp list".to_string()));
    assert_eq!(listing.lines.len(), 2);
    assert!(listing.lines[1].contains(&id));

    // a missing-secret-key outcome renders as "not addressed to me"
    let outcome = Err(classify_decrypt_failure("gpg: decryption failed: No secret key"));
    let line = render_chat_decrypt("alice", &id, &outcome);
    assert_eq!(line, format!("< alice: [PGP] id={} not for me", id));
}

#[test]
fn events_on_other_channels_are_discarded_silently() {
    let mut d = dispatcher(7);
    let step = d.step(LoopInput::Chat(event(99, "bob", BLOCK)));
    assert!(step.lines.is_empty());
    assert!(matches!(step.action, Action::Idle));
    let listing = d.step(LoopInput::Command("pgp list".to_string()));
    assert_eq!(listing.lines, vec!["No PGP messages captured yet.".to_string()]);
}

#[test]
fn plain_messages_render_as_incoming_lines() {
    let mut d = dispatcher(7);
    let step = d.step(LoopInput::Chat(event(7, "carol", "hi all")));
    assert_eq!(step.lines, vec!["< carol: hi all".to_string()]);
    assert!(matches!(step.action, Action::Idle));
}

#[test]
fn router_errors_render_one_line_and_keep_the_loop_running() {
    let mut d = dispatcher(7);
    let step = d.step(LoopInput::Command("bogus".to_string()));
    assert_eq!(step.lines, vec!["! Unknown command: bogus (try: help)".to_string()]);
    assert!(!d.is_terminating());
}

#[test]
fn quit_moves_to_the_terminal_state_and_exits_the_presentation() {
    let mut d = dispatcher(7);
    let step = d.step(LoopInput::Command("quit".to_string()));
    assert!(matches!(step.ui.as_slice(), [UiAction::Exit]));
    assert!(d.is_terminating());
}

#[test]
fn a_closed_command_source_terminates_the_loop() {
    let mut d = dispatcher(7);
    let step = d.step(LoopInput::Closed);
    assert!(step.lines.is_empty());
    assert!(d.is_terminating());
}

#[test]
fn channel_override_moves_the_listening_channel() {
    let mut d = dispatcher(7);
    assert_eq!(d.effective_channel(), 7);
    d.step(LoopInput::Command("export channel 42".to_string()));
    assert_eq!(d.effective_channel(), 42);
    // events on the old channel are now discarded
    let step = d.step(LoopInput::Chat(event(7, "dave", "hello")));
    assert!(step.lines.is_empty());
    // and events on the override channel are shown
    let step = d.step(LoopInput::Chat(event(42, "dave", "hello")));
    assert_eq!(step.lines, vec!["< dave: hello".to_string()]);
}
