//! The failure dispatcher: from a failure event to what the invoker is told
//! and what the log receives.
//!
//! Nothing here sends or logs. [`dispatch`] plans; the caller carries the plan
//! out and reports how sending went; [`conclude`] turns a failed send into one
//! more log record, so that no failure travels further.

use vstd::prelude::*;
use crate::causal::{CausalChain, Cause};
use crate::chain::{
    chain_of, dedup_adjacent, dedup_error_chain, is_report_of, lemma_dedup_keeps_ends,
    render_line,
};
use crate::discord::{is_mention_prefix, permission_names, prefix_is_mention};
use crate::event::FailureEvent;
use crate::notice::{
    delegated, record, text_of, Level, LogRecord, LogRecordView, Outcome, OutcomeView, Severity,
};
use crate::plan::{
    argument_parse_failed, argument_parse_outcome, check_errored, check_errored_outcome,
    check_refused, check_refused_outcome, command_panicked, command_panicked_outcome,
    cooldown_hit, cooldown_outcome, dm_only, dm_only_outcome, dynamic_prefix_outcome,
    event_handler_failed, event_handler_outcome, guild_only, guild_only_outcome, internal_error,
    internal_error_outcome, message_callback_failed, missing_bot_permissions,
    missing_bot_permissions_outcome, missing_user_permissions, missing_user_permissions_body,
    missing_user_permissions_outcome, non_command_message_outcome, not_an_owner,
    not_an_owner_outcome, nsfw_only, nsfw_only_outcome, permission_fetch_failed,
    permission_fetch_outcome, setup_failed, setup_failed_outcome, structure_mismatch,
    structure_mismatch_outcome, subcommand_required, subcommand_required_outcome,
    unknown_command, unknown_command_outcome,
    unknown_interaction, unknown_interaction_outcome, user_error, user_error_outcome,
};
use crate::text::{emphasized, fenced, followed_by, joined};

verus! {

/// A chain on one line: its messages, most specific first, with a colon and
/// a space between each two.
pub open spec fn one_line(messages: Seq<Seq<char>>) -> Seq<char> {
    joined(messages, ": "@)
}

/// What a failure leads to. Every chain is reduced before any of it is
/// shown. A failure of no known kind leads to nothing here: it is handed on
/// as it came. `report` is the operator's report of the reduced chain; it is
/// shown for a failure inside the system and for a check that failed with an
/// error, and plays no part elsewhere.
pub open spec fn expected_outcome<T>(event: FailureEvent<T>, report: Seq<char>) -> OutcomeView<T> {
    match event {
        FailureEvent::CommandExecutionFailed { chain, invocation } => {
            let reduced = dedup_adjacent(chain.messages());
            if chain.caused_by == Cause::User {
                user_error_outcome(invocation@, reduced.last(), one_line(reduced))
            } else {
                internal_error_outcome(invocation@, one_line(reduced), report)
            }
        },
        FailureEvent::SubcommandRequired { invocation, prefix, bot_id, subcommands } => {
            subcommand_required_outcome(
                invocation@,
                prefix@,
                prefix_is_mention(prefix@, bot_id),
                subcommands.deep_view(),
            )
        },
        FailureEvent::CommandPanicked { invocation } => command_panicked_outcome(),
        FailureEvent::ArgumentParseFailed { chain, input, invocation } => {
            argument_parse_outcome(
                text_of(input),
                invocation@,
                dedup_adjacent(chain.messages()).first(),
            )
        },
        FailureEvent::CommandStructureMismatch { description, command } => {
            structure_mismatch_outcome(description@, command@)
        },
        FailureEvent::CooldownHit { remaining_secs, invocation } => {
            cooldown_outcome(remaining_secs, invocation@)
        },
        FailureEvent::MissingBotPermissions { permissions, invocation } => {
            missing_bot_permissions_outcome(permissions, invocation@)
        },
        FailureEvent::MissingUserPermissions { permissions, invocation } => {
            missing_user_permissions_outcome(permissions, invocation@)
        },
        FailureEvent::NotAnOwner { invocation } => not_an_owner_outcome(invocation@),
        FailureEvent::GuildOnly { invocation } => guild_only_outcome(invocation@),
        FailureEvent::DmOnly { invocation } => dm_only_outcome(invocation@),
        FailureEvent::NsfwOnly { invocation } => nsfw_only_outcome(invocation@),
        FailureEvent::CommandCheckFailed { chain, invocation } => {
            match chain {
                Some(chain) => check_errored_outcome(
                    invocation@,
                    one_line(dedup_adjacent(chain.messages())),
                    report,
                ),
                None => check_refused_outcome(invocation@),
            }
        },
        FailureEvent::DynamicPrefixFailed { chain, message } => {
            dynamic_prefix_outcome(one_line(dedup_adjacent(chain.messages())), message@)
        },
        FailureEvent::UnknownCommand { prefix, content } => {
            unknown_command_outcome(prefix@, content@)
        },
        FailureEvent::UnknownInteraction { name } => unknown_interaction_outcome(name@),
        FailureEvent::SetupFailed { chain } => {
            setup_failed_outcome(one_line(dedup_adjacent(chain.messages())))
        },
        FailureEvent::EventHandlerFailed { chain, event } => {
            event_handler_outcome(event@, one_line(dedup_adjacent(chain.messages())))
        },
        FailureEvent::PermissionFetchFailed { invocation } => permission_fetch_outcome(invocation@),
        FailureEvent::NonCommandMessageFailed { chain, message } => {
            non_command_message_outcome(one_line(dedup_adjacent(chain.messages())), message@)
        },
        FailureEvent::Unclassified(inner) => delegated(inner),
    }
}

/// Whether the invoker of `event` is shown an operator's report.
pub open spec fn shows_report<T>(event: FailureEvent<T>) -> bool {
    match event {
        FailureEvent::CommandExecutionFailed { chain, .. } => chain.caused_by == Cause::Internal,
        FailureEvent::CommandCheckFailed { chain, .. } => chain is Some,
        _ => false,
    }
}

/// The reduced chain of the event, where it carries a chain.
pub open spec fn reduced_chain<T>(event: FailureEvent<T>) -> Seq<Seq<char>> {
    match event {
        FailureEvent::CommandExecutionFailed { chain, .. } => dedup_adjacent(chain.messages()),
        FailureEvent::ArgumentParseFailed { chain, .. } => dedup_adjacent(chain.messages()),
        FailureEvent::CommandCheckFailed { chain: Some(chain), .. } => dedup_adjacent(
            chain.messages(),
        ),
        FailureEvent::DynamicPrefixFailed { chain, .. } => dedup_adjacent(chain.messages()),
        FailureEvent::SetupFailed { chain } => dedup_adjacent(chain.messages()),
        FailureEvent::EventHandlerFailed { chain, .. } => dedup_adjacent(chain.messages()),
        FailureEvent::NonCommandMessageFailed { chain, .. } => dedup_adjacent(chain.messages()),
        _ => Seq::empty(),
    }
}

/// What is known of the operator's report on every run: where one is shown,
/// it is a report of the reduced chain.
pub open spec fn report_fits<T>(event: FailureEvent<T>, report: Seq<char>) -> bool {
    shows_report(event) ==> is_report_of(reduced_chain(event), report)
}

/// Decides what a failure leads to.
///
/// The outcome is the expected one for the event, word for word. The one
/// text that is not fixed by the event alone is the operator's report: of it
/// the contract says how it opens, not how the causes are laid out under
/// their heading nor whether a backtrace ends it.
pub fn dispatch<T>(event: FailureEvent<T>) -> (outcome: Outcome<T>)
    ensures
        exists|report: Seq<char>|
            report_fits(event, report) && outcome@ == #[trigger] expected_outcome(event, report),
{
    let ghost none = Seq::<char>::empty();
    match event {
        FailureEvent::CommandExecutionFailed { chain, invocation } => {
            let reduced = chain.reduce();
            let line = reduced.line();
            if reduced.is_user_caused() {
                let outcome = user_error(invocation.as_str(), reduced.root_message(), line.as_str());
                assert(outcome@ == expected_outcome(event, none));
                outcome
            } else {
                let report = reduced.report();
                let outcome = internal_error(invocation.as_str(), line.as_str(), report.as_str());
                assert(outcome@ == expected_outcome(event, report@));
                outcome
            }
        },
        FailureEvent::SubcommandRequired { invocation, prefix, bot_id, subcommands } => {
            let by_mention = is_mention_prefix(prefix.as_str(), bot_id);
            let outcome = subcommand_required(
                invocation.as_str(),
                prefix.as_str(),
                by_mention,
                &subcommands,
            );
            assert(outcome@ == expected_outcome(event, none));
            outcome
        },
        FailureEvent::CommandPanicked { invocation } => {
            let outcome = command_panicked();
            assert(outcome@ == expected_outcome(event, none));
            outcome
        },
        FailureEvent::ArgumentParseFailed { chain, input, invocation } => {
            let reduced = chain.reduce();
            let top = reduced.top_message();
            let outcome = match &input {
                Some(input) => argument_parse_failed(
                    Some(input.as_str()),
                    invocation.as_str(),
                    top.as_str(),
                ),
                None => argument_parse_failed(None, invocation.as_str(), top.as_str()),
            };
            assert(outcome@ == expected_outcome(event, none));
            outcome
        },
        FailureEvent::CommandStructureMismatch { description, command } => {
            let outcome = structure_mismatch(description.as_str(), command.as_str());
            assert(outcome@ == expected_outcome(event, none));
            outcome
        },
        FailureEvent::CooldownHit { remaining_secs, invocation } => {
            let outcome = cooldown_hit(remaining_secs, invocation.as_str());
            assert(outcome@ == expected_outcome(event, none));
            outcome
        },
        FailureEvent::MissingBotPermissions { permissions, invocation } => {
            let outcome = missing_bot_permissions(permissions, invocation.as_str());
            assert(outcome@ == expected_outcome(event, none));
            outcome
        },
        FailureEvent::MissingUserPermissions { permissions, invocation } => {
            let outcome = missing_user_permissions(permissions, invocation.as_str());
            assert(outcome@ == expected_outcome(event, none));
            outcome
        },
        FailureEvent::NotAnOwner { invocation } => {
            let outcome = not_an_owner(invocation.as_str());
            assert(outcome@ == expected_outcome(event, none));
            outcome
        },
        FailureEvent::GuildOnly { invocation } => {
            let outcome = guild_only(invocation.as_str());
            assert(outcome@ == expected_outcome(event, none));
            outcome
        },
        FailureEvent::DmOnly { invocation } => {
            let outcome = dm_only(invocation.as_str());
            assert(outcome@ == expected_outcome(event, none));
            outcome
        },
        FailureEvent::NsfwOnly { invocation } => {
            let outcome = nsfw_only(invocation.as_str());
            assert(outcome@ == expected_outcome(event, none));
            outcome
        },
        FailureEvent::CommandCheckFailed { chain, invocation } => {
            match chain {
                Some(chain) => {
                    let reduced = chain.reduce();
                    let line = reduced.line();
                    let report = reduced.report();
                    let outcome = check_errored(
                        invocation.as_str(),
                        line.as_str(),
                        report.as_str(),
                    );
                    assert(outcome@ == expected_outcome(event, report@));
                    outcome
                },
                None => {
                    let outcome = check_refused(invocation.as_str());
                    assert(outcome@ == expected_outcome(event, none));
                    outcome
                },
            }
        },
        FailureEvent::DynamicPrefixFailed { chain, message } => {
            let line = chain.reduce().line();
            let outcome = message_callback_failed(
                "Dynamic prefix failed for a message: ",
                line.as_str(),
                message.as_str(),
            );
            assert(outcome@ == expected_outcome(event, none));
            outcome
        },
        FailureEvent::UnknownCommand { prefix, content } => {
            let outcome = unknown_command(prefix.as_str(), content.as_str());
            assert(outcome@ == expected_outcome(event, none));
            outcome
        },
        FailureEvent::UnknownInteraction { name } => {
            let outcome = unknown_interaction(name.as_str());
            assert(outcome@ == expected_outcome(event, none));
            outcome
        },
        FailureEvent::SetupFailed { chain } => {
            let line = chain.reduce().line();
            let outcome = setup_failed(line.as_str());
            assert(outcome@ == expected_outcome(event, none));
            outcome
        },
        FailureEvent::EventHandlerFailed { chain, event: name } => {
            let line = chain.reduce().line();
            let outcome = event_handler_failed(name.as_str(), line.as_str());
            assert(outcome@ == expected_outcome(event, none));
            outcome
        },
        FailureEvent::PermissionFetchFailed { invocation } => {
            let outcome = permission_fetch_failed(invocation.as_str());
            assert(outcome@ == expected_outcome(event, none));
            outcome
        },
        FailureEvent::NonCommandMessageFailed { chain, message } => {
            let line = chain.reduce().line();
            let outcome = message_callback_failed(
                "An error occurred in the non-command message callback: ",
                line.as_str(),
                message.as_str(),
            );
            assert(outcome@ == expected_outcome(event, none));
            outcome
        },
        FailureEvent::Unclassified(inner) => {
            let outcome = Outcome::delegate(inner);
            assert(outcome@ == expected_outcome(event, none));
            outcome
        },
    }
}

/// What the log receives when handling a failure has itself failed with
/// `chain`: the reduced chain on one line, at the `Error` level.
pub open spec fn handling_failed_record(chain: Seq<Seq<char>>) -> LogRecordView {
    record(Level::Error, "Failed to handle error: "@ + one_line(dedup_adjacent(chain)))
}

/// Turns the failure of a send, or of the default handler, into a log record.
pub fn handling_failed(error: anyhow::Error) -> (r: LogRecord)
    ensures
        r@ == handling_failed_record(chain_of(error)),
{
    let mut error = error;
    dedup_error_chain(&mut error);
    let line = render_line(&error);
    LogRecord::error(followed_by("Failed to handle error: ", line.as_str()))
}

/// Closes a dispatch: `sent` is how carrying out the outcome went. Success
/// needs nothing more; a failure becomes exactly one record at the `Error`
/// level and goes no further.
pub fn conclude(sent: Result<(), anyhow::Error>) -> (r: Option<LogRecord>)
    ensures
        match sent {
            Ok(_) => r is None,
            Err(error) => r matches Some(log) && log@ == handling_failed_record(chain_of(error))
                && log.level == Level::Error,
        },
{
    match sent {
        Ok(_) => None,
        Err(error) => Some(handling_failed(error)),
    }
}

/// The operator's report is the only thing that an outcome may hold beyond
/// what the event fixes: where none is shown, the event alone decides.
pub proof fn lemma_event_decides_without_report<T>(
    event: FailureEvent<T>,
    first: Seq<char>,
    second: Seq<char>,
)
    requires
        !shows_report(event),
    ensures
        expected_outcome(event, first) == expected_outcome(event, second),
{
}

/// Where a report is shown, it decides the body of the notification and
/// nothing else: title, footer, severity and the log record are fixed by the
/// event.
pub proof fn lemma_report_only_fills_body<T>(
    event: FailureEvent<T>,
    first: Seq<char>,
    second: Seq<char>,
)
    requires
        shows_report(event),
    ensures
        expected_outcome(event, first).log == expected_outcome(event, second).log,
        expected_outcome(event, first).delegated == expected_outcome(event, second).delegated,
        expected_outcome(event, first).notification is Some,
        expected_outcome(event, second).notification is Some,
        expected_outcome(event, first).notification->0.body == fenced(first),
        expected_outcome(event, first).notification->0.title == expected_outcome(
            event,
            second,
        ).notification->0.title,
        expected_outcome(event, first).notification->0.footer == expected_outcome(
            event,
            second,
        ).notification->0.footer,
        expected_outcome(event, first).notification->0.severity == Severity::Danger,
        expected_outcome(event, second).notification->0.severity == Severity::Danger,
{
}

/// An invoker who is turned away by a rule reads fixed wording: what the
/// notification says does not depend on how the command was invoked.
pub proof fn lemma_rejections_are_fixed_wording<T>(first: String, second: String, report: Seq<char>)
    ensures
        expected_outcome(FailureEvent::<T>::NotAnOwner { invocation: first }, report).notification
            == expected_outcome(
            FailureEvent::<T>::NotAnOwner { invocation: second },
            report,
        ).notification,
        expected_outcome(FailureEvent::<T>::GuildOnly { invocation: first }, report).notification
            == expected_outcome(
            FailureEvent::<T>::GuildOnly { invocation: second },
            report,
        ).notification,
        expected_outcome(FailureEvent::<T>::DmOnly { invocation: first }, report).notification
            == expected_outcome(
            FailureEvent::<T>::DmOnly { invocation: second },
            report,
        ).notification,
        expected_outcome(FailureEvent::<T>::NsfwOnly { invocation: first }, report).notification
            == expected_outcome(
            FailureEvent::<T>::NsfwOnly { invocation: second },
            report,
        ).notification,
        expected_outcome(
            FailureEvent::<T>::CommandPanicked { invocation: first },
            report,
        ).notification == expected_outcome(
            FailureEvent::<T>::CommandPanicked { invocation: second },
            report,
        ).notification,
        expected_outcome(
            FailureEvent::<T>::PermissionFetchFailed { invocation: first },
            report,
        ).notification == expected_outcome(
            FailureEvent::<T>::PermissionFetchFailed { invocation: second },
            report,
        ).notification,
{
}

/// No failure of a known kind passes unanswered: its outcome holds a
/// notification, a log record, or both, and hands nothing on.
pub proof fn lemma_every_event_is_answered<T>(event: FailureEvent<T>, report: Seq<char>)
    requires
        !(event is Unclassified),
    ensures
        expected_outcome(event, report).notification is Some || expected_outcome(
            event,
            report,
        ).log is Some,
        expected_outcome(event, report).delegated is None,
{
}

/// A failure of no known kind is handed on as it came, and that is all: the
/// dispatcher neither notifies nor logs on its account.
pub proof fn lemma_unknown_kind_is_only_delegated<T>(inner: T, report: Seq<char>)
    ensures
        expected_outcome(FailureEvent::Unclassified(inner), report).delegated == Some(inner),
        expected_outcome(FailureEvent::Unclassified(inner), report).notification is None,
        expected_outcome(FailureEvent::Unclassified(inner), report).log is None,
{
}

/// A failure outside of any command invocation has nobody to reply to: it
/// is never notified, and where its kind is known it is logged.
pub proof fn lemma_no_target_no_notification<T>(event: FailureEvent<T>, report: Seq<char>)
    requires
        !event.has_reply_target(),
    ensures
        expected_outcome(event, report).notification is None,
        !(event is Unclassified) ==> expected_outcome(event, report).log is Some,
{
}

/// A failure inside a command invocation is answered with a notification,
/// except where a check refused without giving a reason.
pub proof fn lemma_target_is_notified<T>(event: FailureEvent<T>, report: Seq<char>)
    requires
        event.has_reply_target(),
    ensures
        expected_outcome(event, report).notification is None <==> (event matches FailureEvent::CommandCheckFailed {
            chain,
            ..
        } && chain is None),
{
}

/// Every notification is a reply that only the invoker sees.
pub proof fn lemma_notifications_are_private<T>(event: FailureEvent<T>, report: Seq<char>)
    ensures
        expected_outcome(event, report).notification matches Some(n) ==> n.reply && n.ephemeral,
{
}

/// How a failed command is classified. Where the chain is attributed to the
/// invoker, the notification is a warning whose body is the root cause of
/// the chain and nothing else, outside of any fenced block, and the log gets
/// a warning. Where it is not, the notification signals danger, its body is
/// the operator's report inside a fenced block, and the log gets an error.
pub proof fn lemma_classification<T>(chain: CausalChain, invocation: String, report: Seq<char>)
    requires
        chain.wf(),
    ensures
        ({
            let event = FailureEvent::<T>::CommandExecutionFailed { chain, invocation };
            let outcome = expected_outcome(event, report);
            &&& outcome.notification is Some
            &&& outcome.log is Some
            &&& chain.caused_by == Cause::User ==> {
                &&& outcome.notification->0.severity == Severity::Warning
                &&& outcome.notification->0.title == "You seem to have made an error"@
                &&& outcome.notification->0.body == chain.messages().last()
                &&& outcome.log->0.level == Level::Warn
            }
            &&& chain.caused_by == Cause::Internal ==> {
                &&& outcome.notification->0.severity == Severity::Danger
                &&& outcome.notification->0.title == "An internal error has occurred"@
                &&& outcome.notification->0.body == fenced(report)
                &&& outcome.log->0.level == Level::Error
            }
        }),
{
    lemma_dedup_keeps_ends(chain.messages());
}

/// An invoker who lacks permissions reads a general sentence where no
/// permissions were reported, and the names of exactly the reported
/// permissions where they were.
pub proof fn lemma_missing_user_permissions<T>(
    permissions: Option<u64>,
    invocation: String,
    report: Seq<char>,
)
    ensures
        ({
            let event = FailureEvent::<T>::MissingUserPermissions { permissions, invocation };
            let outcome = expected_outcome(event, report);
            &&& outcome.notification is Some
            &&& outcome.notification->0.severity == Severity::Warning
            &&& outcome.notification->0.body == missing_user_permissions_body(permissions)
            &&& permissions is None ==> outcome.notification->0.body
                == "You do not have the permissions needed to execute this command"@
            &&& permissions matches Some(bits) ==> outcome.notification->0.body
                == "You must have the following permissions to execute this command: "@
                + emphasized(permission_names(bits))
        }),
{
}

} // verus!
