use pgp_disc::session::SessionEnv;
use pgp_disc::Config;

fn config(channel_id: u64) -> Config {
    Config { token: "token".to_string(), channel_id }
}

#[test]
fn unset_channel_restores_the_static_default() {
    let cfg = config(7);
    let mut env = SessionEnv::new();
    env.set_channel(42);
    env.unset_channel();
    assert_eq!(env.set_channel_id(&cfg), 7);
}

#[test]
fn set_channel_shadows_the_static_default() {
    let cfg = config(7);
    let mut env = SessionEnv::new();
    assert_eq!(env.set_channel_id(&cfg), 7);
    env.set_channel(42);
    assert_eq!(env.set_channel_id(&cfg), 42);
}

#[test]
fn recipient_override_is_set_and_cleared() {
    let mut env = SessionEnv::new();
    assert_eq!(env.effective_recipient(), None);
    env.set_recipient("alice".to_string());
    assert_eq!(env.effective_recipient(), Some("alice".to_string()));
    env.unset_recipient();
    assert_eq!(env.effective_recipient(), None);
}
