//! Session-scoped overrides that shadow the static configuration.
//!
//! The active recipient and the active channel can be set and cleared
//! during a session; while unset, readers fall back to the static
//! configuration.  Inbound events never mutate this state.

use vstd::prelude::*;

use crate::Config;

verus! {

/// Mathematical model of the session overrides.
pub struct SessionModel {
    pub recipient: Option<Seq<char>>,
    pub channel_id: Option<u64>,
}

/// Mutable session-lifetime overrides: an optional active recipient
/// and an optional active channel that shadow the static configuration.
pub struct SessionEnv {
    default_fpr: Option<String>,
    channel_id: Option<u64>,
}

impl View for SessionEnv {
    type V = SessionModel;

    closed spec fn view(&self) -> SessionModel {
        SessionModel {
            recipient: match self.default_fpr {
                Some(ref s) => Some(s@),
                None => None,
            },
            channel_id: self.channel_id,
        }
    }
}

/// The channel a session with overrides `m` listens and sends on, given
/// the static default `d`.
pub open spec fn spec_effective_channel(m: SessionModel, d: u64) -> u64 {
    match m.channel_id {
        Some(c) => c,
        None => d,
    }
}

impl SessionEnv {
    /// A fresh session: nothing overridden yet.
    pub fn new() -> (r: SessionEnv)
        ensures
            r@.recipient is None,
            r@.channel_id is None,
    {
        SessionEnv { default_fpr: None, channel_id: None }
    }

    /// Overwrite the active recipient.
    pub fn set_recipient(&mut self, value: String)
        ensures
            final(self)@.recipient == Some(value@),
            final(self)@.channel_id == old(self)@.channel_id,
    {
        self.default_fpr = Some(value);
    }

    /// Clear the active recipient; readers fall back to the static
    /// configuration (which has none, so `effective_recipient` is
    /// empty afterwards).
    pub fn unset_recipient(&mut self)
        ensures
            final(self)@.recipient is None,
            final(self)@.channel_id == old(self)@.channel_id,
    {
        self.default_fpr = None;
    }

    /// Overwrite the active channel.
    pub fn set_channel(&mut self, id: u64)
        ensures
            final(self)@.channel_id == Some(id),
            final(self)@.recipient == old(self)@.recipient,
    {
        self.channel_id = Some(id);
    }

    /// Clear the active channel; `set_channel_id` falls back to the
    /// static default afterwards.
    pub fn unset_channel(&mut self)
        ensures
            final(self)@.channel_id is None,
            final(self)@.recipient == old(self)@.recipient,
    {
        self.channel_id = None;
    }

    /// The channel this session listens and sends on: the override if
    /// one is set, the static default otherwise.
    pub fn set_channel_id(&self, cfg: &Config) -> (r: u64)
        ensures
            r == spec_effective_channel(self@, cfg.channel_id),
    {
        match self.channel_id {
            Some(c) => c,
            None => cfg.channel_id,
        }
    }

    /// The recipient encrypted sends fall back to when no explicit
    /// recipient is given.
    pub fn effective_recipient(&self) -> (r: Option<String>)
        ensures
            match r {
                Some(s) => self@.recipient == Some(s@),
                None => self@.recipient is None,
            },
    {
        match &self.default_fpr {
            Some(s) => Some(s.clone()),
            None => None,
        }
    }
}

/// Setting the channel and then clearing it restores the static
/// default: the override does not linger.
pub proof fn lemma_unset_channel_restores_default(m: SessionModel, id: u64, d: u64)
    ensures
        spec_effective_channel(
            SessionModel { channel_id: None, ..SessionModel { channel_id: Some(id), ..m } },
            d,
        ) == d,
{
}

} // verus!
