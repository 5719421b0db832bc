//! The command router: one validated line in, one directive out.
//!
//! A directive says whether the loop keeps running, which transcript
//! lines to show, which presentation actions to perform, and at most
//! one outside action (a send, a decrypt, a fetch) that the caller
//! still has to carry out.  Validation happens before any effect:
//! a command either fully validates and updates the session, or fails
//! with an error and changes nothing.

use vstd::prelude::*;

use crate::command::{parse_command, spec_parse, Command, CommandError, CommandErrorModel, CommandModel};
use crate::inbox::{spec_find as spec_inbox_find, InboxCache, SightingModel};
use crate::render::{render_help, render_pgp_list, spec_render_help, spec_render_pgp_list};
use crate::session::{spec_effective_channel, SessionEnv, SessionModel};
use crate::text::{dec_of, push_line, spec_tokens, tokenize, u64_to_dec};
use crate::Config;

verus! {

/// Whether the loop keeps running after a command.
#[derive(Debug)]
pub enum Outcome {
    Continue,
    Quit,
}

/// A side-effecting presentation action, beyond plain transcript lines.
#[derive(Debug)]
pub enum UiAction {
    ClearScreen,
    Exit,
}

/// Model of the outside work a command calls for.
pub enum ActionModel {
    Idle,
    SendText { channel_id: u64, text: Seq<char> },
    EncryptAndSend { recipient: Seq<char>, channel_id: u64, text: Seq<char> },
    DecryptBlock { id: Seq<char>, block: Seq<char> },
    FetchHistory { channel_id: u64, count: u64 },
    ShowIdentity,
    ListKeys,
}

/// The outside work a command calls for.  The caller performs it and
/// hands the result back through the render functions; the router
/// itself never touches the transport or the crypto tool.
#[derive(Debug)]
pub enum Action {
    /// Nothing left to perform outside.
    Idle,
    /// Post plain text to the channel.
    SendText { channel_id: u64, text: String },
    /// Encrypt `text` to `recipient`, then post the armored result to
    /// the channel; a failed send is reported, never retried.
    EncryptAndSend { recipient: String, channel_id: u64, text: String },
    /// Attempt to decrypt the cached block with this fingerprint.
    DecryptBlock { id: String, block: String },
    /// Fetch up to `count` historical events and replay them through
    /// the inbound path, oldest first.
    FetchHistory { channel_id: u64, count: u64 },
    /// Ask the crypto tool for availability, version and secret keys.
    ShowIdentity,
    /// Ask the crypto tool for the public-key listing.
    ListKeys,
}

impl View for Action {
    type V = ActionModel;

    open spec fn view(&self) -> ActionModel {
        match self {
            Action::Idle => ActionModel::Idle,
            Action::SendText { channel_id, text } => ActionModel::SendText {
                channel_id: *channel_id,
                text: text@,
            },
            Action::EncryptAndSend { recipient, channel_id, text } => ActionModel::EncryptAndSend {
                recipient: recipient@,
                channel_id: *channel_id,
                text: text@,
            },
            Action::DecryptBlock { id, block } => ActionModel::DecryptBlock {
                id: id@,
                block: block@,
            },
            Action::FetchHistory { channel_id, count } => ActionModel::FetchHistory {
                channel_id: *channel_id,
                count: *count,
            },
            Action::ShowIdentity => ActionModel::ShowIdentity,
            Action::ListKeys => ActionModel::ListKeys,
        }
    }
}

/// Model of a routed command's result.
pub struct DirectiveModel {
    pub outcome: Outcome,
    pub lines: Seq<Seq<char>>,
    pub ui: Seq<UiAction>,
    pub action: ActionModel,
}

/// What routing one command produced.
#[derive(Debug)]
pub struct Directive {
    pub outcome: Outcome,
    pub lines: Vec<String>,
    pub ui: Vec<UiAction>,
    pub action: Action,
}

impl View for Directive {
    type V = DirectiveModel;

    open spec fn view(&self) -> DirectiveModel {
        DirectiveModel {
            outcome: self.outcome,
            lines: self.lines.deep_view(),
            ui: self.ui@,
            action: self.action@,
        }
    }
}

/// A directive that only shows lines and keeps running.
pub open spec fn spec_lines_only(lines: Seq<Seq<char>>) -> DirectiveModel {
    DirectiveModel { outcome: Outcome::Continue, lines, ui: Seq::empty(), action: ActionModel::Idle }
}

/// A directive that only calls for outside work and keeps running.
pub open spec fn spec_action_only(action: ActionModel) -> DirectiveModel {
    DirectiveModel { outcome: Outcome::Continue, lines: Seq::empty(), ui: Seq::empty(), action }
}

/// The confirmation line for a newly exported recipient.
pub open spec fn spec_exported_recipient_line(value: Seq<char>) -> Seq<char> {
    "exported recipient = "@ + value
}

/// The confirmation lines for a newly exported channel.
pub open spec fn spec_exported_channel_lines(channel: u64) -> Seq<Seq<char>> {
    seq![
        "exported channel = "@ + dec_of(channel as nat),
        "Note: now listening/sending only in this channel."@,
    ]
}

/// The session-export report: the effective channel and the session
/// recipient, if one is set.
pub open spec fn spec_export_show_lines(env: SessionModel, default_channel: u64) -> Seq<Seq<char>> {
    seq![
        "Session exports:"@,
        "  channel "@ + dec_of(spec_effective_channel(env, default_channel) as nat),
        "  recipient "@ + match env.recipient {
            Some(r) => r,
            None => "(not set)"@,
        },
    ]
}

/// The confirmation line for clearing the channel override.
pub open spec fn spec_unset_channel_line(default_channel: u64) -> Seq<char> {
    "unset channel (back to env) "@ + dec_of(default_channel as nat)
}

/// What executing a parsed command does: the session it leaves behind
/// and either a directive or the error it fails with.  Only the two
/// export mutations touch the session; every failure leaves it as it
/// was.
pub open spec fn spec_execute(
    cmd: CommandModel,
    default_channel: u64,
    env: SessionModel,
    inbox: Seq<SightingModel>,
) -> (SessionModel, Result<DirectiveModel, CommandErrorModel>) {
    match cmd {
        CommandModel::Help => (env, Ok(spec_lines_only(seq![spec_render_help()]))),
        CommandModel::Clear => (
            env,
            Ok(
                DirectiveModel {
                    outcome: Outcome::Continue,
                    lines: Seq::empty(),
                    ui: seq![UiAction::ClearScreen],
                    action: ActionModel::Idle,
                },
            ),
        ),
        CommandModel::Quit => (
            env,
            Ok(
                DirectiveModel {
                    outcome: Outcome::Quit,
                    lines: Seq::empty(),
                    ui: Seq::empty(),
                    action: ActionModel::Idle,
                },
            ),
        ),
        CommandModel::Me => (env, Ok(spec_action_only(ActionModel::ShowIdentity))),
        CommandModel::Keys => (env, Ok(spec_action_only(ActionModel::ListKeys))),
        CommandModel::Send { message } => (
            env,
            Ok(
                spec_action_only(
                    ActionModel::SendText {
                        channel_id: spec_effective_channel(env, default_channel),
                        text: message,
                    },
                ),
            ),
        ),
        CommandModel::Load { count } => (
            env,
            Ok(
                spec_action_only(
                    ActionModel::FetchHistory {
                        channel_id: spec_effective_channel(env, default_channel),
                        count,
                    },
                ),
            ),
        ),
        CommandModel::PgpList => (env, Ok(spec_lines_only(spec_render_pgp_list(inbox)))),
        CommandModel::PgpDecrypt { id } => match spec_inbox_find(inbox, id) {
            Some(block) => (env, Ok(spec_action_only(ActionModel::DecryptBlock { id, block }))),
            None => (env, Err(CommandErrorModel::UnknownBlockId { id })),
        },
        CommandModel::PgpDecryptLast => if inbox.len() == 0 {
            (env, Ok(spec_lines_only(seq!["No PGP messages captured yet."@])))
        } else {
            (
                env,
                Ok(
                    spec_action_only(
                        ActionModel::DecryptBlock {
                            id: inbox.last().id,
                            block: inbox.last().block,
                        },
                    ),
                ),
            )
        },
        CommandModel::PgpSend { recipient, message } => {
            let chosen = if recipient is Some {
                recipient
            } else {
                env.recipient
            };
            match chosen {
                Some(r) => (
                    env,
                    Ok(
                        spec_action_only(
                            ActionModel::EncryptAndSend {
                                recipient: r,
                                channel_id: spec_effective_channel(env, default_channel),
                                text: message,
                            },
                        ),
                    ),
                ),
                None => (env, Err(CommandErrorModel::MissingRecipient)),
            }
        },
        CommandModel::ExportRecipient { value } => (
            SessionModel { recipient: Some(value), ..env },
            Ok(spec_lines_only(seq![spec_exported_recipient_line(value)])),
        ),
        CommandModel::ExportChannel { channel } => (
            SessionModel { channel_id: Some(channel), ..env },
            Ok(spec_lines_only(spec_exported_channel_lines(channel))),
        ),
        CommandModel::ExportShow => (
            env,
            Ok(spec_lines_only(spec_export_show_lines(env, default_channel))),
        ),
        CommandModel::ExportUnsetRecipient => (
            SessionModel { recipient: None, ..env },
            Ok(spec_lines_only(seq!["unset recipient"@])),
        ),
        CommandModel::ExportUnsetChannel => (
            SessionModel { channel_id: None, ..env },
            Ok(spec_lines_only(seq![spec_unset_channel_line(default_channel)])),
        ),
    }
}

/// What routing one input line does: parse, then execute; a parse
/// failure changes nothing.
pub open spec fn spec_route(
    toks: Seq<Seq<char>>,
    default_channel: u64,
    env: SessionModel,
    inbox: Seq<SightingModel>,
) -> (SessionModel, Result<DirectiveModel, CommandErrorModel>) {
    match spec_parse(toks) {
        Ok(cmd) => spec_execute(cmd, default_channel, env, inbox),
        Err(e) => (env, Err(e)),
    }
}

/// An empty transcript.
fn no_lines() -> (r: Vec<String>)
    ensures
        r.deep_view() == Seq::<Seq<char>>::empty(),
{
    let r: Vec<String> = Vec::new();
    assert(r.deep_view() =~~= Seq::<Seq<char>>::empty());
    r
}

/// A transcript of one line.
fn one_line(line: String) -> (r: Vec<String>)
    ensures
        r.deep_view() == seq![line@],
{
    let mut r = no_lines();
    push_line(&mut r, line);
    assert(r.deep_view() =~~= seq![line@]);
    r
}

/// No presentation actions.
fn no_ui() -> (r: Vec<UiAction>)
    ensures
        r@ == Seq::<UiAction>::empty(),
{
    let r: Vec<UiAction> = Vec::new();
    assert(r@ =~= Seq::<UiAction>::empty());
    r
}

/// A directive that only shows lines and keeps running.
fn lines_only(lines: Vec<String>) -> (r: Directive)
    ensures
        r@ == spec_lines_only(lines.deep_view()),
{
    Directive { outcome: Outcome::Continue, lines, ui: no_ui(), action: Action::Idle }
}

/// A directive that only calls for outside work and keeps running.
fn action_only(action: Action) -> (r: Directive)
    ensures
        r@ == spec_action_only(action@),
{
    Directive { outcome: Outcome::Continue, lines: no_lines(), ui: no_ui(), action }
}

/// Route one line of user input: parse it, validate it, apply any
/// session mutation, and hand back what remains to be shown and done.
pub fn route(line: &str, cfg: &Config, env: &mut SessionEnv, inbox: &InboxCache) -> (r: Result<
    Directive,
    CommandError,
>)
    ensures
        ({
            let (env2, res) = spec_route(spec_tokens(line@), cfg.channel_id, old(env)@, inbox@);
            &&& final(env)@ == env2
            &&& match r {
                Ok(d) => res == Ok::<DirectiveModel, CommandErrorModel>(d@),
                Err(e) => res == Err::<DirectiveModel, CommandErrorModel>(e@),
            }
        }),
{
    let tokens = tokenize(line);
    let cmd = match parse_command(&tokens) {
        Ok(c) => c,
        Err(e) => {
            return Err(e);
        },
    };
    execute(cmd, cfg, env, inbox)
}

/// Execute one validated command against the session state.
fn execute(cmd: Command, cfg: &Config, env: &mut SessionEnv, inbox: &InboxCache) -> (r: Result<
    Directive,
    CommandError,
>)
    ensures
        ({
            let (env2, res) = spec_execute(cmd@, cfg.channel_id, old(env)@, inbox@);
            &&& final(env)@ == env2
            &&& match r {
                Ok(d) => res == Ok::<DirectiveModel, CommandErrorModel>(d@),
                Err(e) => res == Err::<DirectiveModel, CommandErrorModel>(e@),
            }
        }),
{
    match cmd {
        Command::Help => Ok(lines_only(one_line(render_help()))),
        Command::Clear => {
            let mut ui: Vec<UiAction> = Vec::new();
            ui.push(UiAction::ClearScreen);
            assert(ui@ =~= seq![UiAction::ClearScreen]);
            Ok(Directive { outcome: Outcome::Continue, lines: no_lines(), ui, action: Action::Idle })
        },
        Command::Quit => Ok(
            Directive {
                outcome: Outcome::Quit,
                lines: no_lines(),
                ui: no_ui(),
                action: Action::Idle,
            },
        ),
        Command::Me => Ok(action_only(Action::ShowIdentity)),
        Command::Keys => Ok(action_only(Action::ListKeys)),
        Command::Send { message } => {
            let channel_id = env.set_channel_id(cfg);
            Ok(action_only(Action::SendText { channel_id, text: message }))
        },
        Command::Load { count } => {
            let channel_id = env.set_channel_id(cfg);
            Ok(action_only(Action::FetchHistory { channel_id, count }))
        },
        Command::PgpList => Ok(lines_only(render_pgp_list(inbox))),
        Command::PgpDecrypt { id } => match inbox.find(id.as_str()) {
            Some(block) => Ok(action_only(Action::DecryptBlock { id, block })),
            None => Err(CommandError::UnknownBlockId { id }),
        },
        Command::PgpDecryptLast => match inbox.latest() {
            Some(s) => Ok(action_only(Action::DecryptBlock { id: s.id, block: s.block })),
            None => Ok(lines_only(one_line(String::from_str("No PGP messages captured yet.")))),
        },
        Command::PgpSend { recipient, message } => {
            let chosen = match recipient {
                Some(r) => Some(r),
                None => env.effective_recipient(),
            };
            match chosen {
                Some(r) => {
                    let channel_id = env.set_channel_id(cfg);
                    Ok(
                        action_only(
                            Action::EncryptAndSend { recipient: r, channel_id, text: message },
                        ),
                    )
                },
                None => Err(CommandError::MissingRecipient),
            }
        },
        Command::ExportRecipient { value } => {
            let mut line = String::from_str("exported recipient = ");
            line.append(value.as_str());
            assert(line@ =~= spec_exported_recipient_line(value@));
            env.set_recipient(value);
            Ok(lines_only(one_line(line)))
        },
        Command::ExportChannel { channel } => {
            env.set_channel(channel);
            let mut first = String::from_str("exported channel = ");
            let num = u64_to_dec(channel);
            first.append(num.as_str());
            assert(first@ =~= spec_exported_channel_lines(channel)[0]);
            let mut lines = one_line(first);
            push_line(
                &mut lines,
                String::from_str("Note: now listening/sending only in this channel."),
            );
            assert(lines.deep_view() =~~= spec_exported_channel_lines(channel));
            Ok(lines_only(lines))
        },
        Command::ExportShow => {
            let mut lines = one_line(String::from_str("Session exports:"));
            let mut chan = String::from_str("  channel ");
            let num = u64_to_dec(env.set_channel_id(cfg));
            chan.append(num.as_str());
            assert(chan@ =~= spec_export_show_lines(env@, cfg.channel_id)[1]);
            push_line(&mut lines, chan);
            let mut rec = String::from_str("  recipient ");
            match env.effective_recipient() {
                Some(r) => {
                    rec.append(r.as_str());
                },
                None => {
                    rec.append("(not set)");
                },
            }
            assert(rec@ =~= spec_export_show_lines(env@, cfg.channel_id)[2]);
            push_line(&mut lines, rec);
            assert(lines.deep_view() =~~= spec_export_show_lines(env@, cfg.channel_id));
            Ok(lines_only(lines))
        },
        Command::ExportUnsetRecipient => {
            env.unset_recipient();
            Ok(lines_only(one_line(String::from_str("unset recipient"))))
        },
        Command::ExportUnsetChannel => {
            env.unset_channel();
            let mut line = String::from_str("unset channel (back to env) ");
            let num = u64_to_dec(cfg.channel_id);
            line.append(num.as_str());
            assert(line@ =~= spec_unset_channel_line(cfg.channel_id));
            Ok(lines_only(one_line(line)))
        },
    }
}

} // verus!
