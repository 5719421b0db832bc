//! The dispatch loop's state machine.
//!
//! Two input sources — inbound chat events and local command lines —
//! are merged by the caller into single steps.  Each step runs to
//! completion against the session state and says what to show and what
//! outside work remains.  Errors never end the loop; only a quit
//! command or the closing of the command source moves the machine to
//! its terminal state.

use vstd::prelude::*;

use crate::command::spec_error_message;
use crate::detect::{detect_pgp, spec_extract_block, spec_fingerprint};
use crate::inbox::{spec_record, InboxCache, SightingModel};
use crate::render::{render_error, render_incoming, spec_render_error, spec_render_incoming};
use crate::route::{route, spec_route, Action, ActionModel, Directive, Outcome, UiAction};
use crate::session::{spec_effective_channel, SessionEnv, SessionModel};
use crate::text::{push_line, spec_tokens};
use crate::Config;

verus! {

/// Model of one inbound message.
pub struct ChatEventModel {
    pub channel_id: u64,
    pub author_id: u64,
    pub author: Seq<char>,
    pub content: Seq<char>,
}

/// One inbound message from the transport: where it was posted, who
/// wrote it, and its raw text.
#[derive(Debug)]
pub struct ChatEvent {
    pub channel_id: u64,
    pub author_id: u64,
    pub author: String,
    pub content: String,
}

impl View for ChatEvent {
    type V = ChatEventModel;

    open spec fn view(&self) -> ChatEventModel {
        ChatEventModel {
            channel_id: self.channel_id,
            author_id: self.author_id,
            author: self.author@,
            content: self.content@,
        }
    }
}

/// Model of what handling one inbound event produced.
pub enum ChatStepModel {
    Plain { line: Seq<char> },
    Captured { id: Seq<char>, block: Seq<char> },
}

/// What handling one inbound event produced: either the event held no
/// armored block and renders as plain text, or a block was captured
/// into the cache and a decrypt attempt is still owed on it.
#[derive(Debug)]
pub enum ChatStep {
    Plain { line: String },
    Captured { id: String, block: String },
}

impl View for ChatStep {
    type V = ChatStepModel;

    open spec fn view(&self) -> ChatStepModel {
        match self {
            ChatStep::Plain { line } => ChatStepModel::Plain { line: line@ },
            ChatStep::Captured { id, block } => ChatStepModel::Captured { id: id@, block: block@ },
        }
    }
}

/// What one inbound event does to the cache and what it leaves to do:
/// an embedded block is recorded under its fingerprint and awaits a
/// decrypt attempt; anything else renders as a plain incoming line and
/// leaves the cache alone.
pub open spec fn spec_handle_chat_event(ev: ChatEventModel, inbox: Seq<SightingModel>) -> (
    Seq<SightingModel>,
    ChatStepModel,
) {
    match spec_extract_block(ev.content) {
        Some(block) => {
            let id = spec_fingerprint(block);
            (
                spec_record(inbox, SightingModel { id, block }),
                ChatStepModel::Captured { id, block },
            )
        },
        None => (inbox, ChatStepModel::Plain { line: spec_render_incoming(ev.author, ev.content) }),
    }
}

/// Run one inbound event through the detection path.
pub fn handle_chat_event(ev: &ChatEvent, inbox: &mut InboxCache) -> (r: ChatStep)
    ensures
        ({
            let (inbox2, step) = spec_handle_chat_event(ev@, old(inbox)@);
            &&& final(inbox)@ == inbox2
            &&& r@ == step
        }),
{
    match detect_pgp(ev.content.as_str()) {
        Some((id, block)) => {
            inbox.record(id.clone(), block.clone());
            ChatStep::Captured { id, block }
        },
        None => ChatStep::Plain {
            line: render_incoming(ev.author.as_str(), ev.content.as_str()),
        },
    }
}

/// The two states of the dispatch loop.
#[derive(Debug)]
pub enum LoopState {
    Running,
    Terminating,
}

/// Model of one merged input item.
pub enum LoopInputModel {
    Chat(ChatEventModel),
    Command(Seq<char>),
    Closed,
}

/// One item from the merged input stream: an inbound chat event, one
/// line of local user input, or the command source closing.
#[derive(Debug)]
pub enum LoopInput {
    Chat(ChatEvent),
    Command(String),
    Closed,
}

impl View for LoopInput {
    type V = LoopInputModel;

    open spec fn view(&self) -> LoopInputModel {
        match self {
            LoopInput::Chat(ev) => LoopInputModel::Chat(ev@),
            LoopInput::Command(line) => LoopInputModel::Command(line@),
            LoopInput::Closed => LoopInputModel::Closed,
        }
    }
}

/// Model of the dispatcher.
pub struct DispatcherModel {
    pub default_channel: u64,
    pub env: SessionModel,
    pub inbox: Seq<SightingModel>,
    pub state: LoopState,
}

/// Model of what one step produced.
pub struct StepResultModel {
    pub lines: Seq<Seq<char>>,
    pub ui: Seq<UiAction>,
    pub action: ActionModel,
}

/// What one step produced: transcript lines, presentation actions, and
/// at most one outside action still to perform.
#[derive(Debug)]
pub struct StepResult {
    pub lines: Vec<String>,
    pub ui: Vec<UiAction>,
    pub action: Action,
}

impl View for StepResult {
    type V = StepResultModel;

    open spec fn view(&self) -> StepResultModel {
        StepResultModel { lines: self.lines.deep_view(), ui: self.ui@, action: self.action@ }
    }
}

/// The session dispatch engine: the static configuration, the session
/// overrides, the sighting cache, and the loop state, advanced one
/// input item at a time.
pub struct Dispatcher {
    cfg: Config,
    env: SessionEnv,
    inbox: InboxCache,
    state: LoopState,
}

impl View for Dispatcher {
    type V = DispatcherModel;

    closed spec fn view(&self) -> DispatcherModel {
        DispatcherModel {
            default_channel: self.cfg.channel_id,
            env: self.env@,
            inbox: self.inbox@,
            state: self.state,
        }
    }
}

/// A step that changes nothing and asks for nothing.
pub open spec fn spec_empty_step() -> StepResultModel {
    StepResultModel { lines: Seq::empty(), ui: Seq::empty(), action: ActionModel::Idle }
}

/// The transition relation of the dispatch loop, from a running state:
///
/// - a chat event on the effective channel runs the detection path and
///   either shows the plain line or asks for a decrypt of the captured
///   block; any other channel is discarded silently;
/// - a command line is routed; a routing error renders as one error
///   line and the loop keeps running; a quit outcome moves to the
///   terminal state and asks the presentation side to exit;
/// - the command source closing moves to the terminal state.
pub open spec fn spec_step(d: DispatcherModel, input: LoopInputModel) -> (
    DispatcherModel,
    StepResultModel,
) {
    match input {
        LoopInputModel::Chat(ev) => {
            if ev.channel_id == spec_effective_channel(d.env, d.default_channel) {
                let (inbox2, step) = spec_handle_chat_event(ev, d.inbox);
                let d2 = DispatcherModel { inbox: inbox2, ..d };
                match step {
                    ChatStepModel::Plain { line } => (
                        d2,
                        StepResultModel {
                            lines: seq![line],
                            ui: Seq::empty(),
                            action: ActionModel::Idle,
                        },
                    ),
                    ChatStepModel::Captured { id, block } => (
                        d2,
                        StepResultModel {
                            lines: Seq::empty(),
                            ui: Seq::empty(),
                            action: ActionModel::DecryptBlock { id, block },
                        },
                    ),
                }
            } else {
                (d, spec_empty_step())
            }
        },
        LoopInputModel::Command(line) => {
            let (env2, res) = spec_route(spec_tokens(line), d.default_channel, d.env, d.inbox);
            let d2 = DispatcherModel { env: env2, ..d };
            match res {
                Ok(dir) => {
                    if dir.outcome is Quit {
                        (
                            DispatcherModel { state: LoopState::Terminating, ..d2 },
                            StepResultModel {
                                lines: dir.lines,
                                ui: dir.ui.push(UiAction::Exit),
                                action: dir.action,
                            },
                        )
                    } else {
                        (
                            d2,
                            StepResultModel { lines: dir.lines, ui: dir.ui, action: dir.action },
                        )
                    }
                },
                Err(e) => (
                    d2,
                    StepResultModel {
                        lines: seq![spec_render_error(spec_error_message(e))],
                        ui: Seq::empty(),
                        action: ActionModel::Idle,
                    },
                ),
            }
        },
        LoopInputModel::Closed => (
            DispatcherModel { state: LoopState::Terminating, ..d },
            spec_empty_step(),
        ),
    }
}

impl Dispatcher {
    /// A fresh engine over the given configuration: no overrides, an
    /// empty cache, running.
    pub fn new(cfg: Config) -> (r: Dispatcher)
        ensures
            r@.default_channel == cfg.channel_id,
            r@.env.recipient is None,
            r@.env.channel_id is None,
            r@.inbox == Seq::<SightingModel>::empty(),
            r@.state is Running,
    {
        Dispatcher {
            cfg,
            env: SessionEnv::new(),
            inbox: InboxCache::new(),
            state: LoopState::Running,
        }
    }

    /// The channel the engine currently listens and sends on.
    pub fn effective_channel(&self) -> (r: u64)
        ensures
            r == spec_effective_channel(self@.env, self@.default_channel),
    {
        self.env.set_channel_id(&self.cfg)
    }

    /// Whether the loop has reached its terminal state.
    pub fn is_terminating(&self) -> (r: bool)
        ensures
            r == (self@.state is Terminating),
    {
        match self.state {
            LoopState::Terminating => true,
            LoopState::Running => false,
        }
    }

    /// Process exactly one input item to completion.
    pub fn step(&mut self, input: LoopInput) -> (r: StepResult)
        requires
            old(self)@.state is Running,
        ensures
            ({
                let (d2, sr) = spec_step(old(self)@, input@);
                &&& final(self)@ == d2
                &&& r@ == sr
            }),
    {
        let ghost inp = input@;
        match input {
            LoopInput::Chat(ev) => {
                if ev.channel_id == self.env.set_channel_id(&self.cfg) {
                    match handle_chat_event(&ev, &mut self.inbox) {
                        ChatStep::Plain { line } => {
                            let mut lines: Vec<String> = Vec::new();
                            push_line(&mut lines, line);
                            let r = StepResult { lines, ui: Vec::new(), action: Action::Idle };
                            assert(r@.lines =~~= spec_step(old(self)@, inp).1.lines);
                            assert(r@.ui =~= spec_step(old(self)@, inp).1.ui);
                            r
                        },
                        ChatStep::Captured { id, block } => {
                            let r = StepResult {
                                lines: Vec::new(),
                                ui: Vec::new(),
                                action: Action::DecryptBlock { id, block },
                            };
                            assert(r@.lines =~~= spec_step(old(self)@, inp).1.lines);
                            assert(r@.ui =~= spec_step(old(self)@, inp).1.ui);
                            r
                        },
                    }
                } else {
                    let r = StepResult { lines: Vec::new(), ui: Vec::new(), action: Action::Idle };
                    assert(r@.lines =~~= spec_empty_step().lines);
                    assert(r@.ui =~= spec_empty_step().ui);
                    r
                }
            },
            LoopInput::Command(line) => {
                match route(line.as_str(), &self.cfg, &mut self.env, &self.inbox) {
                    Ok(dir) => {
                        let Directive { outcome, lines, mut ui, action } = dir;
                        match outcome {
                            Outcome::Quit => {
                                self.state = LoopState::Terminating;
                                ui.push(UiAction::Exit);
                                StepResult { lines, ui, action }
                            },
                            Outcome::Continue => StepResult { lines, ui, action },
                        }
                    },
                    Err(e) => {
                        let msg = e.message();
                        let mut lines: Vec<String> = Vec::new();
                        push_line(&mut lines, render_error(msg.as_str()));
                        let r = StepResult { lines, ui: Vec::new(), action: Action::Idle };
                        assert(r@.lines =~~= spec_step(old(self)@, inp).1.lines);
                        assert(r@.ui =~= spec_step(old(self)@, inp).1.ui);
                        r
                    },
                }
            },
            LoopInput::Closed => {
                self.state = LoopState::Terminating;
                let r = StepResult { lines: Vec::new(), ui: Vec::new(), action: Action::Idle };
                assert(r@.lines =~~= spec_empty_step().lines);
                assert(r@.ui =~= spec_empty_step().ui);
                r
            },
        }
    }
}

} // verus!
