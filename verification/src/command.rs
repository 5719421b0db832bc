//! The command surface: one line of user input parsed into a
//! structured command.
//!
//! The first whitespace-separated token selects the command by exact,
//! case-sensitive match; the remaining tokens are its arguments.
//! Argument count and shape are validated here, before anything is
//! executed, so a malformed invocation never has partial effects.

use vstd::prelude::*;

use crate::text::{join_from, parse_u64, parse_u64_spec, spec_join, str_eq};

verus! {

/// Model of a parsed command.
pub enum CommandModel {
    Help,
    Clear,
    Quit,
    Me,
    Keys,
    Send { message: Seq<char> },
    Load { count: u64 },
    PgpList,
    PgpDecrypt { id: Seq<char> },
    PgpDecryptLast,
    PgpSend { recipient: Option<Seq<char>>, message: Seq<char> },
    ExportRecipient { value: Seq<char> },
    ExportChannel { channel: u64 },
    ExportShow,
    ExportUnsetRecipient,
    ExportUnsetChannel,
}

/// A validated command, one variant per vocabulary entry.
#[derive(Debug)]
pub enum Command {
    Help,
    Clear,
    Quit,
    Me,
    Keys,
    Send { message: String },
    Load { count: u64 },
    PgpList,
    PgpDecrypt { id: String },
    PgpDecryptLast,
    PgpSend { recipient: Option<String>, message: String },
    ExportRecipient { value: String },
    ExportChannel { channel: u64 },
    ExportShow,
    ExportUnsetRecipient,
    ExportUnsetChannel,
}

impl View for Command {
    type V = CommandModel;

    open spec fn view(&self) -> CommandModel {
        match self {
            Command::Help => CommandModel::Help,
            Command::Clear => CommandModel::Clear,
            Command::Quit => CommandModel::Quit,
            Command::Me => CommandModel::Me,
            Command::Keys => CommandModel::Keys,
            Command::Send { message } => CommandModel::Send { message: message@ },
            Command::Load { count } => CommandModel::Load { count: *count },
            Command::PgpList => CommandModel::PgpList,
            Command::PgpDecrypt { id } => CommandModel::PgpDecrypt { id: id@ },
            Command::PgpDecryptLast => CommandModel::PgpDecryptLast,
            Command::PgpSend { recipient, message } => CommandModel::PgpSend {
                recipient: match recipient {
                    Some(r) => Some(r@),
                    None => None,
                },
                message: message@,
            },
            Command::ExportRecipient { value } => CommandModel::ExportRecipient { value: value@ },
            Command::ExportChannel { channel } => CommandModel::ExportChannel {
                channel: *channel,
            },
            Command::ExportShow => CommandModel::ExportShow,
            Command::ExportUnsetRecipient => CommandModel::ExportUnsetRecipient,
            Command::ExportUnsetChannel => CommandModel::ExportUnsetChannel,
        }
    }
}

/// Model of a command failure.
pub enum CommandErrorModel {
    Empty,
    UnknownCommand { token: Seq<char> },
    Usage { usage: Seq<char> },
    InvalidArgument { message: Seq<char> },
    MissingRecipient,
    UnknownBlockId { id: Seq<char> },
}

/// Why a command line was rejected.  Every variant is recoverable: the
/// dispatch loop renders one error line and keeps running.
#[derive(Debug)]
pub enum CommandError {
    /// The line held no token at all.
    Empty,
    /// The first token is not in the vocabulary.
    UnknownCommand { token: String },
    /// Arguments were missing or malformed; the payload is the usage
    /// string echoed back to the user.
    Usage { usage: String },
    /// An argument did not parse as its expected shape.
    InvalidArgument { message: String },
    /// An encrypted send with no explicit recipient and no session
    /// recipient set.
    MissingRecipient,
    /// A decrypt referenced a fingerprint that is not in the cache.
    UnknownBlockId { id: String },
}

impl View for CommandError {
    type V = CommandErrorModel;

    open spec fn view(&self) -> CommandErrorModel {
        match self {
            CommandError::Empty => CommandErrorModel::Empty,
            CommandError::UnknownCommand { token } => CommandErrorModel::UnknownCommand {
                token: token@,
            },
            CommandError::Usage { usage } => CommandErrorModel::Usage { usage: usage@ },
            CommandError::InvalidArgument { message } => CommandErrorModel::InvalidArgument {
                message: message@,
            },
            CommandError::MissingRecipient => CommandErrorModel::MissingRecipient,
            CommandError::UnknownBlockId { id } => CommandErrorModel::UnknownBlockId { id: id@ },
        }
    }
}

/// The one user-visible line for a command failure.
pub open spec fn spec_error_message(e: CommandErrorModel) -> Seq<char> {
    match e {
        CommandErrorModel::Empty => "empty command"@,
        CommandErrorModel::UnknownCommand { token } => "Unknown command: "@ + token
            + " (try: help)"@,
        CommandErrorModel::Usage { usage } => usage,
        CommandErrorModel::InvalidArgument { message } => message,
        CommandErrorModel::MissingRecipient =>
            "No exported recipient set. Use: export recipient <fpr|uid>"@,
        CommandErrorModel::UnknownBlockId { id } => "No captured PGP message with id="@ + id,
    }
}

impl CommandError {
    /// Render this failure as its user-visible message.
    pub fn message(&self) -> (r: String)
        ensures
            r@ == spec_error_message(self@),
    {
        match self {
            CommandError::Empty => String::from_str("empty command"),
            CommandError::UnknownCommand { token } => {
                let mut r = String::from_str("Unknown command: ");
                r.append(token.as_str());
                r.append(" (try: help)");
                assert(r@ =~= spec_error_message(self@));
                r
            },
            CommandError::Usage { usage } => usage.clone(),
            CommandError::InvalidArgument { message } => message.clone(),
            CommandError::MissingRecipient => String::from_str(
                "No exported recipient set. Use: export recipient <fpr|uid>",
            ),
            CommandError::UnknownBlockId { id } => {
                let mut r = String::from_str("No captured PGP message with id=");
                r.append(id.as_str());
                assert(r@ =~= spec_error_message(self@));
                r
            },
        }
    }
}

/// What parsing a token list yields.  The first token picks the
/// command; each variant validates its own argument count and shape.
pub open spec fn spec_parse(toks: Seq<Seq<char>>) -> Result<CommandModel, CommandErrorModel> {
    if toks.len() == 0 {
        Err(CommandErrorModel::Empty)
    } else {
        let c = toks[0];
        if c == "help"@ || c == "h"@ || c == "?"@ {
            Ok(CommandModel::Help)
        } else if c == "clear"@ {
            Ok(CommandModel::Clear)
        } else if c == "quit"@ || c == "exit"@ || c == "q"@ {
            Ok(CommandModel::Quit)
        } else if c == "me"@ {
            Ok(CommandModel::Me)
        } else if c == "keys"@ {
            Ok(CommandModel::Keys)
        } else if c == "send"@ || c == "s"@ {
            if toks.len() == 1 {
                Err(CommandErrorModel::Usage { usage: "Usage: send <message...>"@ })
            } else {
                Ok(CommandModel::Send { message: spec_join(toks.skip(1)) })
            }
        } else if c == "load"@ {
            if toks.len() == 1 {
                Err(CommandErrorModel::Usage { usage: "Usage: load <count>"@ })
            } else {
                match parse_u64_spec(toks[1]) {
                    Some(n) => Ok(CommandModel::Load { count: n }),
                    None => Err(
                        CommandErrorModel::InvalidArgument {
                            message: "load <count> must be a number"@,
                        },
                    ),
                }
            }
        } else if c == "export"@ {
            spec_parse_export(toks)
        } else if c == "pgp"@ {
            spec_parse_pgp(toks)
        } else {
            Err(CommandErrorModel::UnknownCommand { token: c })
        }
    }
}

/// The session-export subcommands: set or clear an override, or show
/// the session values.
pub open spec fn spec_parse_export(toks: Seq<Seq<char>>) -> Result<
    CommandModel,
    CommandErrorModel,
> {
    if toks.len() == 1 {
        Err(CommandErrorModel::Usage { usage: "Usage: export <recipient|channel|show|unset> ..."@ })
    } else {
        let w = toks[1];
        if w == "recipient"@ {
            if toks.len() == 2 {
                Err(CommandErrorModel::Usage { usage: "Usage: export recipient <fpr|uid>"@ })
            } else {
                Ok(CommandModel::ExportRecipient { value: spec_join(toks.skip(2)) })
            }
        } else if w == "channel"@ {
            if toks.len() == 2 {
                Err(CommandErrorModel::Usage { usage: "Usage: export channel <channel_id>"@ })
            } else {
                match parse_u64_spec(toks[2]) {
                    Some(c) => Ok(CommandModel::ExportChannel { channel: c }),
                    None => Err(
                        CommandErrorModel::InvalidArgument {
                            message: "channel_id must be an integer"@,
                        },
                    ),
                }
            }
        } else if w == "show"@ {
            Ok(CommandModel::ExportShow)
        } else if w == "unset"@ {
            if toks.len() == 2 {
                Err(CommandErrorModel::Usage { usage: "Usage: export unset <fpr|channel>"@ })
            } else if toks[2] == "recipient"@ {
                Ok(CommandModel::ExportUnsetRecipient)
            } else if toks[2] == "channel"@ {
                Ok(CommandModel::ExportUnsetChannel)
            } else {
                Err(CommandErrorModel::Usage { usage: "Usage: export unset <fpr|channel>"@ })
            }
        } else {
            Err(
                CommandErrorModel::Usage {
                    usage: "Usage: export <recipient|channel|show|unset> ..."@,
                },
            )
        }
    }
}

/// The encrypted-messaging subcommands: list, decrypt by fingerprint,
/// decrypt the latest, or encrypt and send.
pub open spec fn spec_parse_pgp(toks: Seq<Seq<char>>) -> Result<CommandModel, CommandErrorModel> {
    if toks.len() == 1 {
        Err(CommandErrorModel::Usage { usage: "Usage: pgp <list|send|decrypt <id>|decrypt-last>"@ })
    } else {
        let sub = toks[1];
        if sub == "list"@ {
            Ok(CommandModel::PgpList)
        } else if sub == "decrypt-last"@ {
            Ok(CommandModel::PgpDecryptLast)
        } else if sub == "decrypt"@ {
            if toks.len() == 2 {
                Err(CommandErrorModel::Usage { usage: "Usage: pgp decrypt <id>"@ })
            } else {
                Ok(CommandModel::PgpDecrypt { id: toks[2] })
            }
        } else if sub == "send"@ {
            if toks.len() == 2 {
                Err(
                    CommandErrorModel::Usage {
                        usage: "Usage: pgp send <message...> OR pgp send -r <fpr|uid> <message...>"@,
                    },
                )
            } else if toks[2] == "-r"@ {
                if toks.len() <= 4 {
                    Err(
                        CommandErrorModel::Usage {
                            usage: "Usage: pgp send -r <fpr|uid> <message...>"@,
                        },
                    )
                } else {
                    Ok(
                        CommandModel::PgpSend {
                            recipient: Some(toks[3]),
                            message: spec_join(toks.skip(4)),
                        },
                    )
                }
            } else {
                Ok(CommandModel::PgpSend { recipient: None, message: spec_join(toks.skip(2)) })
            }
        } else {
            Err(
                CommandErrorModel::Usage {
                    usage: "Usage: pgp <list|send|decrypt <id>|decrypt-last>"@,
                },
            )
        }
    }
}

/// Parse the tokens of one input line into a command.
pub fn parse_command(tokens: &Vec<String>) -> (r: Result<Command, CommandError>)
    ensures
        match r {
            Ok(c) => spec_parse(tokens.deep_view()) == Ok::<CommandModel, CommandErrorModel>(c@),
            Err(e) => spec_parse(tokens.deep_view()) == Err::<CommandModel, CommandErrorModel>(e@),
        },
{
    let ghost tv = tokens.deep_view();
    if tokens.len() == 0 {
        return Err(CommandError::Empty);
    }
    proof {
        assert(tv[0] == tokens@[0]@);
    }
    let c = tokens[0].as_str();
    if str_eq(c, "help") || str_eq(c, "h") || str_eq(c, "?") {
        Ok(Command::Help)
    } else if str_eq(c, "clear") {
        Ok(Command::Clear)
    } else if str_eq(c, "quit") || str_eq(c, "exit") || str_eq(c, "q") {
        Ok(Command::Quit)
    } else if str_eq(c, "me") {
        Ok(Command::Me)
    } else if str_eq(c, "keys") {
        Ok(Command::Keys)
    } else if str_eq(c, "send") || str_eq(c, "s") {
        if tokens.len() == 1 {
            Err(CommandError::Usage { usage: String::from_str("Usage: send <message...>") })
        } else {
            Ok(Command::Send { message: join_from(tokens, 1) })
        }
    } else if str_eq(c, "load") {
        if tokens.len() == 1 {
            Err(CommandError::Usage { usage: String::from_str("Usage: load <count>") })
        } else {
            proof {
                assert(tv[1] == tokens@[1]@);
            }
            match parse_u64(tokens[1].as_str()) {
                Some(n) => Ok(Command::Load { count: n }),
                None => Err(
                    CommandError::InvalidArgument {
                        message: String::from_str("load <count> must be a number"),
                    },
                ),
            }
        }
    } else if str_eq(c, "export") {
        parse_export(tokens)
    } else if str_eq(c, "pgp") {
        parse_pgp(tokens)
    } else {
        Err(CommandError::UnknownCommand { token: tokens[0].clone() })
    }
}

/// Parse the `export` subcommands.
fn parse_export(tokens: &Vec<String>) -> (r: Result<Command, CommandError>)
    requires
        tokens@.len() >= 1,
        spec_parse(tokens.deep_view()) == spec_parse_export(tokens.deep_view()),
    ensures
        match r {
            Ok(c) => spec_parse_export(tokens.deep_view()) == Ok::<
                CommandModel,
                CommandErrorModel,
            >(c@),
            Err(e) => spec_parse_export(tokens.deep_view()) == Err::<
                CommandModel,
                CommandErrorModel,
            >(e@),
        },
{
    let ghost tv = tokens.deep_view();
    if tokens.len() == 1 {
        return Err(
            CommandError::Usage {
                usage: String::from_str("Usage: export <recipient|channel|show|unset> ..."),
            },
        );
    }
    proof {
        assert(tv[1] == tokens@[1]@);
    }
    let w = tokens[1].as_str();
    if str_eq(w, "recipient") {
        if tokens.len() == 2 {
            Err(CommandError::Usage { usage: String::from_str("Usage: export recipient <fpr|uid>") })
        } else {
            Ok(Command::ExportRecipient { value: join_from(tokens, 2) })
        }
    } else if str_eq(w, "channel") {
        if tokens.len() == 2 {
            Err(
                CommandError::Usage {
                    usage: String::from_str("Usage: export channel <channel_id>"),
                },
            )
        } else {
            proof {
                assert(tv[2] == tokens@[2]@);
            }
            match parse_u64(tokens[2].as_str()) {
                Some(ch) => Ok(Command::ExportChannel { channel: ch }),
                None => Err(
                    CommandError::InvalidArgument {
                        message: String::from_str("channel_id must be an integer"),
                    },
                ),
            }
        }
    } else if str_eq(w, "show") {
        Ok(Command::ExportShow)
    } else if str_eq(w, "unset") {
        if tokens.len() == 2 {
            return Err(
                CommandError::Usage { usage: String::from_str("Usage: export unset <fpr|channel>") },
            );
        }
        proof {
            assert(tv[2] == tokens@[2]@);
        }
        let which = tokens[2].as_str();
        if str_eq(which, "recipient") {
            Ok(Command::ExportUnsetRecipient)
        } else if str_eq(which, "channel") {
            Ok(Command::ExportUnsetChannel)
        } else {
            Err(
                CommandError::Usage { usage: String::from_str("Usage: export unset <fpr|channel>") },
            )
        }
    } else {
        Err(
            CommandError::Usage {
                usage: String::from_str("Usage: export <recipient|channel|show|unset> ..."),
            },
        )
    }
}

/// Parse the `pgp` subcommands.
fn parse_pgp(tokens: &Vec<String>) -> (r: Result<Command, CommandError>)
    requires
        tokens@.len() >= 1,
        spec_parse(tokens.deep_view()) == spec_parse_pgp(tokens.deep_view()),
    ensures
        match r {
            Ok(c) => spec_parse_pgp(tokens.deep_view()) == Ok::<CommandModel, CommandErrorModel>(
                c@,
            ),
            Err(e) => spec_parse_pgp(tokens.deep_view()) == Err::<CommandModel, CommandErrorModel>(
                e@,
            ),
        },
{
    let ghost tv = tokens.deep_view();
    if tokens.len() == 1 {
        return Err(
            CommandError::Usage {
                usage: String::from_str("Usage: pgp <list|send|decrypt <id>|decrypt-last>"),
            },
        );
    }
    proof {
        assert(tv[1] == tokens@[1]@);
    }
    let sub = tokens[1].as_str();
    if str_eq(sub, "list") {
        Ok(Command::PgpList)
    } else if str_eq(sub, "decrypt-last") {
        Ok(Command::PgpDecryptLast)
    } else if str_eq(sub, "decrypt") {
        if tokens.len() == 2 {
            Err(CommandError::Usage { usage: String::from_str("Usage: pgp decrypt <id>") })
        } else {
            proof {
                assert(tv[2] == tokens@[2]@);
            }
            Ok(Command::PgpDecrypt { id: tokens[2].clone() })
        }
    } else if str_eq(sub, "send") {
        if tokens.len() == 2 {
            return Err(
                CommandError::Usage {
                    usage: String::from_str(
                        "Usage: pgp send <message...> OR pgp send -r <fpr|uid> <message...>",
                    ),
                },
            );
        }
        proof {
            assert(tv[2] == tokens@[2]@);
        }
        if str_eq(tokens[2].as_str(), "-r") {
            if tokens.len() <= 4 {
                Err(
                    CommandError::Usage {
                        usage: String::from_str("Usage: pgp send -r <fpr|uid> <message...>"),
                    },
                )
            } else {
                proof {
                    assert(tv[3] == tokens@[3]@);
                }
                Ok(
                    Command::PgpSend {
                        recipient: Some(tokens[3].clone()),
                        message: join_from(tokens, 4),
                    },
                )
            }
        } else {
            Ok(Command::PgpSend { recipient: None, message: join_from(tokens, 2) })
        }
    } else {
        Err(
            CommandError::Usage {
                usage: String::from_str("Usage: pgp <list|send|decrypt <id>|decrypt-last>"),
            },
        )
    }
}

} // verus!
