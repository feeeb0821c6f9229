//! The failures that the dispatcher is asked to handle.

use vstd::prelude::*;
use crate::causal::{CausalChain, Cause};

verus! {

/// One failure of a command, of an event handler or of the framework itself.
///
/// The invocation is the text of the command call as the user made it. `T` is
/// whatever an event of no known kind consists of; the dispatcher hands it on
/// untouched.
#[derive(Debug)]
#[allow(inconsistent_fields)]
pub enum FailureEvent<T> {
    /// A command ran and returned an error.
    CommandExecutionFailed { chain: CausalChain, invocation: String },
    /// A command that only has subcommands was invoked without one. `bot_id`
    /// is the id of the bot's own user, zero where it is not known.
    SubcommandRequired { invocation: String, prefix: String, bot_id: u64, subcommands: Vec<String> },
    /// A command panicked.
    CommandPanicked { invocation: String },
    /// An argument could not be parsed; `input` is the text that was tried.
    ArgumentParseFailed { chain: CausalChain, input: Option<String>, invocation: String },
    /// The command as registered and the command as defined do not agree.
    CommandStructureMismatch { description: String, command: String },
    /// The command was invoked before its cooldown ran out.
    CooldownHit { remaining_secs: u64, invocation: String },
    /// The bot lacks the permissions whose bits are given.
    MissingBotPermissions { permissions: u64, invocation: String },
    /// The user lacks permissions; which ones may not have been reported.
    MissingUserPermissions { permissions: Option<u64>, invocation: String },
    /// An owner-only command was invoked by someone else.
    NotAnOwner { invocation: String },
    /// A server-only command was invoked elsewhere.
    GuildOnly { invocation: String },
    /// A command for direct messages was invoked elsewhere.
    DmOnly { invocation: String },
    /// A command for age-restricted channels was invoked elsewhere.
    NsfwOnly { invocation: String },
    /// A check refused the command, with an error or without a reason.
    CommandCheckFailed { chain: Option<CausalChain>, invocation: String },
    /// The dynamic prefix callback failed on the described message.
    DynamicPrefixFailed { chain: CausalChain, message: String },
    /// A message had a known prefix but named no known command.
    UnknownCommand { prefix: String, content: String },
    /// An interaction arrived for a command that is not known.
    UnknownInteraction { name: String },
    /// Setting up the user data failed.
    SetupFailed { chain: CausalChain },
    /// The handler for the named event failed.
    EventHandlerFailed { chain: CausalChain, event: String },
    /// The permissions of the user or of the bot could not be fetched.
    PermissionFetchFailed { invocation: String },
    /// The callback for messages that are no command failed.
    NonCommandMessageFailed { chain: CausalChain, message: String },
    /// A failure of no kind known here.
    Unclassified(T),
}

impl<T> FailureEvent<T> {
    /// Whether the failure happened inside a command invocation, so that
    /// there is someone to reply to.
    pub open spec fn has_reply_target(&self) -> bool {
        match self {
            FailureEvent::DynamicPrefixFailed { .. } => false,
            FailureEvent::UnknownCommand { .. } => false,
            FailureEvent::UnknownInteraction { .. } => false,
            FailureEvent::SetupFailed { .. } => false,
            FailureEvent::EventHandlerFailed { .. } => false,
            FailureEvent::NonCommandMessageFailed { .. } => false,
            FailureEvent::Unclassified(_) => false,
            _ => true,
        }
    }

    /// Whether the answer to the failure repeats text of the invoker's own
    /// making, as the answer to a command failure that the invoker caused
    /// does. Such an answer is to be sent so that it pings nobody, whatever
    /// the text mentions; every other answer is sent as usual.
    pub open spec fn echoes_invoker(&self) -> bool {
        self matches FailureEvent::CommandExecutionFailed { chain, .. } && chain.caused_by
            == Cause::User
    }

    /// Tells whether the answer is to be sent with all mentions switched off.
    pub fn mentions_silenced(&self) -> (r: bool)
        ensures
            r == self.echoes_invoker(),
    {
        match self {
            FailureEvent::CommandExecutionFailed { chain, .. } => chain.is_user_caused(),
            _ => false,
        }
    }

    /// Tells whether there is someone to reply to.
    pub fn reply_target(&self) -> (r: bool)
        ensures
            r == self.has_reply_target(),
    {
        match self {
            FailureEvent::DynamicPrefixFailed { .. } => false,
            FailureEvent::UnknownCommand { .. } => false,
            FailureEvent::UnknownInteraction { .. } => false,
            FailureEvent::SetupFailed { .. } => false,
            FailureEvent::EventHandlerFailed { .. } => false,
            FailureEvent::NonCommandMessageFailed { .. } => false,
            FailureEvent::Unclassified(_) => false,
            _ => true,
        }
    }
}

} // verus!
