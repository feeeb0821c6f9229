//! What each kind of failure leads to: the wording of every notification and
//! of every log record, one function per kind of failure.
//!
//! Text that comes from an error reaches the invoker as it stands in two
//! cases only: the root cause of a failure that the invoker caused, and the
//! reason why an argument could not be parsed. A report of a fault of the
//! system sits inside a fenced block; the rest is fixed wording.

use vstd::prelude::*;
use crate::discord::{permission_names, permissions_text};
use crate::notice::{
    logged, notice, notified, notified_silently, record, Footer, Level, LogRecord, Notification,
    Outcome, OutcomeView, Severity,
};
use crate::text::{
    code_block, debug_format, debug_text, decimal, decimal_text, emphasize, emphasized, fenced, followed_by,
    join, joined, with_quoted,
};

verus! {

/// A command failed through the invoker's own mistake: the invoker is shown
/// the root cause as it stands, the log gets the whole chain on one line.
pub open spec fn user_error_outcome<T>(
    invocation: Seq<char>,
    root: Seq<char>,
    line: Seq<char>,
) -> OutcomeView<T> {
    notified(
        notice(
            "You seem to have made an error"@,
            root,
            Footer::MaybeBotError.text(),
            Severity::Warning,
        ),
        record(
            Level::Warn,
            "A user error occurred whilst executing "@ + debug_text(invocation) + ": "@ + line,
        ),
    )
}

/// Plans the answer to a failure that the invoker caused.
pub fn user_error<T>(invocation: &str, root: String, line: &str) -> (r: Outcome<T>)
    ensures
        r@ == user_error_outcome::<T>(invocation@, root@, line@),
{
    let mut message = with_quoted("A user error occurred whilst executing ", invocation);
    message.append(": ");
    message.append(line);
    Outcome::notify(
        Notification::new(
            "You seem to have made an error",
            root,
            Footer::MaybeBotError,
            Severity::Warning,
        ),
        LogRecord::warn(message),
    )
}

/// A command failed through a fault of the system: the invoker is shown the
/// operator's report inside a fenced block, the log gets the whole chain on
/// one line.
pub open spec fn internal_error_outcome<T>(
    invocation: Seq<char>,
    line: Seq<char>,
    report: Seq<char>,
) -> OutcomeView<T> {
    notified(
        notice(
            "An internal error has occurred"@,
            fenced(report),
            Footer::BotError.text(),
            Severity::Danger,
        ),
        record(
            Level::Error,
            "An error occurred whilst executing "@ + debug_text(invocation) + ": "@ + line,
        ),
    )
}

/// Plans the answer to a failure inside the system.
pub fn internal_error<T>(invocation: &str, line: &str, report: &str) -> (r: Outcome<T>)
    ensures
        r@ == internal_error_outcome::<T>(invocation@, line@, report@),
{
    let mut message = with_quoted("An error occurred whilst executing ", invocation);
    message.append(": ");
    message.append(line);
    Outcome::notify(
        Notification::new(
            "An internal error has occurred",
            code_block(report),
            Footer::BotError,
            Severity::Danger,
        ),
        LogRecord::error(message),
    )
}

/// How one subcommand is listed: behind the prefix, or behind the mention
/// and a space where the prefix is the bot's own mention.
pub open spec fn subcommand_line(prefix: Seq<char>, by_mention: bool, name: Seq<char>) -> Seq<char> {
    if by_mention {
        "- "@ + prefix + " `"@ + name + "`"@
    } else {
        "- `"@ + prefix + name + "`"@
    }
}

/// One line for each subcommand, in the order given.
pub open spec fn subcommand_lines(
    prefix: Seq<char>,
    by_mention: bool,
    names: Seq<Seq<char>>,
) -> Seq<Seq<char>> {
    Seq::new(names.len(), |i: int| subcommand_line(prefix, by_mention, names[i]))
}

/// A command needs a subcommand and got none.
pub open spec fn subcommand_required_outcome<T>(
    invocation: Seq<char>,
    prefix: Seq<char>,
    by_mention: bool,
    names: Seq<Seq<char>>,
) -> OutcomeView<T> {
    notified(
        notice(
            "Subcommand required"@,
            "You must specify one of the following subcommands:\n\n"@ + joined(
                subcommand_lines(prefix, by_mention, names),
                "\n"@,
            ),
            None,
            Severity::Warning,
        ),
        record(
            Level::Warn,
            "User attempted to invoke a command, which requires a subcommand, without a subcommand: "@
                + debug_text(invocation),
        ),
    )
}

/// Lists the subcommands, one to a line.
pub fn subcommand_list(prefix: &str, by_mention: bool, names: &Vec<String>) -> (r: String)
    ensures
        r@ == joined(subcommand_lines(prefix@, by_mention, names.deep_view()), "\n"@),
{
    let mut lines: Vec<String> = Vec::new();
    let mut i: usize = 0;
    while i < names.len()
        invariant
            i <= names.len(),
            lines.len() == i,
            forall|k: int|
                0 <= k < i ==> (#[trigger] lines[k])@ == subcommand_line(
                    prefix@,
                    by_mention,
                    names[k]@,
                ),
        decreases names.len() - i,
    {
        let line = if by_mention {
            let mut line = followed_by("- ", prefix);
            line.append(" `");
            line.append(names[i].as_str());
            line.append("`");
            line
        } else {
            let mut line = followed_by("- `", prefix);
            line.append(names[i].as_str());
            line.append("`");
            line
        };
        lines.push(line);
        i += 1;
    }
    assert(lines.deep_view() =~= subcommand_lines(prefix@, by_mention, names.deep_view()));
    join(&lines, "\n")
}

/// Plans the answer to a command invoked without its subcommand.
pub fn subcommand_required<T>(
    invocation: &str,
    prefix: &str,
    by_mention: bool,
    names: &Vec<String>,
) -> (r: Outcome<T>)
    ensures
        r@ == subcommand_required_outcome::<T>(
            invocation@,
            prefix@,
            by_mention,
            names.deep_view(),
        ),
{
    let list = subcommand_list(prefix, by_mention, names);
    Outcome::notify(
        Notification::new(
            "Subcommand required",
            followed_by("You must specify one of the following subcommands:\n\n", list.as_str()),
            Footer::Absent,
            Severity::Warning,
        ),
        LogRecord::warn(
            with_quoted(
                "User attempted to invoke a command, which requires a subcommand, without a subcommand: ",
                invocation,
            ),
        ),
    )
}

/// A command panicked: the invoker is told, and nothing is logged here.
pub open spec fn command_panicked_outcome<T>() -> OutcomeView<T> {
    notified_silently(
        notice(
            "Panicked"@,
            "A really bad error happened and the bot panicked! You should contact a bot developer and tell them to check the logs."@,
            None,
            Severity::Danger,
        ),
    )
}

/// Plans the answer to a panic.
pub fn command_panicked<T>() -> (r: Outcome<T>)
    ensures
        r@ == command_panicked_outcome::<T>(),
{
    Outcome::notify_silently(
        Notification::new(
            "Panicked",
            "A really bad error happened and the bot panicked! You should contact a bot developer and tell them to check the logs.".to_owned(),
            Footer::Absent,
            Severity::Danger,
        ),
    )
}

/// What is said of an argument that could not be parsed, to the invoker and
/// to the log alike.
pub open spec fn argument_parse_description(
    input: Option<Seq<char>>,
    invocation: Seq<char>,
    top: Seq<char>,
) -> Seq<char> {
    match input {
        Some(input) => "Failed to parse "@ + debug_text(input) + " from "@ + debug_text(invocation)
            + " into an argument: "@ + top,
        None => "Failed to parse an argument from "@ + debug_text(invocation) + ": "@ + top,
    }
}

/// An argument could not be parsed.
pub open spec fn argument_parse_outcome<T>(
    input: Option<Seq<char>>,
    invocation: Seq<char>,
    top: Seq<char>,
) -> OutcomeView<T> {
    notified(
        notice(
            "Failed to parse argument"@,
            argument_parse_description(input, invocation, top),
            Footer::MaybeBotError.text(),
            Severity::Warning,
        ),
        record(Level::Warn, argument_parse_description(input, invocation, top)),
    )
}

/// Says which argument could not be parsed, and why.
pub fn describe_argument_parse(input: Option<&str>, invocation: &str, top: &str) -> (r: String)
    ensures
        r@ == argument_parse_description(
            match input {
                Some(input) => Some(input@),
                None => None,
            },
            invocation@,
            top@,
        ),
{
    match input {
        Some(input) => {
            let mut out = with_quoted("Failed to parse ", input);
            out.append(" from ");
            out.append(debug_format(invocation).as_str());
            out.append(" into an argument: ");
            out.append(top);
            out
        },
        None => {
            let mut out = with_quoted("Failed to parse an argument from ", invocation);
            out.append(": ");
            out.append(top);
            out
        },
    }
}

/// Plans the answer to an argument that could not be parsed.
pub fn argument_parse_failed<T>(input: Option<&str>, invocation: &str, top: &str) -> (r: Outcome<T>)
    ensures
        r@ == argument_parse_outcome::<T>(
            match input {
                Some(input) => Some(input@),
                None => None,
            },
            invocation@,
            top@,
        ),
{
    let description = describe_argument_parse(input, invocation, top);
    let copy = description.clone();
    Outcome::notify(
        Notification::new(
            "Failed to parse argument",
            description,
            Footer::MaybeBotError,
            Severity::Warning,
        ),
        LogRecord::warn(copy),
    )
}

/// The registered command and the defined one do not agree.
pub open spec fn structure_mismatch_outcome<T>(
    description: Seq<char>,
    command: Seq<char>,
) -> OutcomeView<T> {
    notified(
        notice(
            "Command structure mismatch"@,
            fenced(description),
            Footer::BotError.text(),
            Severity::Danger,
        ),
        record(
            Level::Error,
            "Mismatch between registered command and poise command for `/"@ + command + "`: "@
                + description,
        ),
    )
}

/// Plans the answer to a command whose registration is out of date.
pub fn structure_mismatch<T>(description: &str, command: &str) -> (r: Outcome<T>)
    ensures
        r@ == structure_mismatch_outcome::<T>(description@, command@),
{
    let mut message = followed_by(
        "Mismatch between registered command and poise command for `/",
        command,
    );
    message.append("`: ");
    message.append(description);
    Outcome::notify(
        Notification::new(
            "Command structure mismatch",
            code_block(description),
            Footer::BotError,
            Severity::Danger,
        ),
        LogRecord::error(message),
    )
}

/// What the invoker reads on hitting a cooldown.
pub open spec fn cooldown_body(remaining_secs: u64) -> Seq<char> {
    "You must wait **~"@ + decimal_text(remaining_secs as nat)
        + " seconds** before you can use this command again."@
}

/// A command was invoked before its cooldown ran out.
pub open spec fn cooldown_outcome<T>(remaining_secs: u64, invocation: Seq<char>) -> OutcomeView<T> {
    notified(
        notice("Cooldown hit"@, cooldown_body(remaining_secs), None, Severity::Warning),
        record(Level::Warn, "User hit cooldown with "@ + debug_text(invocation)),
    )
}

/// Plans the answer to a cooldown that has not run out.
pub fn cooldown_hit<T>(remaining_secs: u64, invocation: &str) -> (r: Outcome<T>)
    ensures
        r@ == cooldown_outcome::<T>(remaining_secs, invocation@),
{
    let mut body = followed_by("You must wait **~", decimal(remaining_secs).as_str());
    body.append(" seconds** before you can use this command again.");
    Outcome::notify(
        Notification::new("Cooldown hit", body, Footer::Absent, Severity::Warning),
        LogRecord::warn(with_quoted("User hit cooldown with ", invocation)),
    )
}

/// The bot lacks permissions.
pub open spec fn missing_bot_permissions_outcome<T>(
    permissions: u64,
    invocation: Seq<char>,
) -> OutcomeView<T> {
    notified(
        notice(
            "Lacking bot permissions"@,
            "The bot requires the following permissions to execute this command: "@ + emphasized(
                permission_names(permissions),
            ),
            None,
            Severity::Warning,
        ),
        record(
            Level::Warn,
            "Bot is lacking permissions for "@ + debug_text(invocation) + ": "@ + permission_names(
                permissions,
            ),
        ),
    )
}

/// Plans the answer to a command for which the bot lacks permissions.
pub fn missing_bot_permissions<T>(permissions: u64, invocation: &str) -> (r: Outcome<T>)
    ensures
        r@ == missing_bot_permissions_outcome::<T>(permissions, invocation@),
{
    let names = permissions_text(permissions);
    let mut message = with_quoted("Bot is lacking permissions for ", invocation);
    message.append(": ");
    message.append(names.as_str());
    Outcome::notify(
        Notification::new(
            "Lacking bot permissions",
            followed_by(
                "The bot requires the following permissions to execute this command: ",
                emphasize(names.as_str()).as_str(),
            ),
            Footer::Absent,
            Severity::Warning,
        ),
        LogRecord::warn(message),
    )
}

/// What the invoker reads on lacking permissions: the permissions by name
/// where they were reported, a general sentence where they were not.
pub open spec fn missing_user_permissions_body(permissions: Option<u64>) -> Seq<char> {
    match permissions {
        Some(bits) => "You must have the following permissions to execute this command: "@
            + emphasized(permission_names(bits)),
        None => "You do not have the permissions needed to execute this command"@,
    }
}

/// What the log says of an invoker who lacks permissions.
pub open spec fn missing_user_permissions_message(
    permissions: Option<u64>,
    invocation: Seq<char>,
) -> Seq<char> {
    match permissions {
        Some(bits) => "User is lacking permissions for "@ + debug_text(invocation) + ": "@
            + permission_names(bits),
        None => "User is lacking permissions for "@ + debug_text(invocation),
    }
}

/// The invoker lacks permissions.
pub open spec fn missing_user_permissions_outcome<T>(
    permissions: Option<u64>,
    invocation: Seq<char>,
) -> OutcomeView<T> {
    notified(
        notice(
            "Lacking user permissions"@,
            missing_user_permissions_body(permissions),
            None,
            Severity::Warning,
        ),
        record(Level::Warn, missing_user_permissions_message(permissions, invocation)),
    )
}

/// Plans the answer to a command for which the invoker lacks permissions.
pub fn missing_user_permissions<T>(permissions: Option<u64>, invocation: &str) -> (r: Outcome<T>)
    ensures
        r@ == missing_user_permissions_outcome::<T>(permissions, invocation@),
{
    let mut message = with_quoted("User is lacking permissions for ", invocation);
    let body = match permissions {
        Some(bits) => {
            let names = permissions_text(bits);
            message.append(": ");
            message.append(names.as_str());
            followed_by(
                "You must have the following permissions to execute this command: ",
                emphasize(names.as_str()).as_str(),
            )
        },
        None => "You do not have the permissions needed to execute this command".to_owned(),
    };
    Outcome::notify(
        Notification::new("Lacking user permissions", body, Footer::Absent, Severity::Warning),
        LogRecord::warn(message),
    )
}

/// A rule about who may use a command, or where, turned the invoker away:
/// fixed wording for the invoker, the invocation for the log.
pub open spec fn gate_outcome<T>(
    title: Seq<char>,
    body: Seq<char>,
    before: Seq<char>,
    invocation: Seq<char>,
    after: Seq<char>,
) -> OutcomeView<T> {
    notified(
        notice(title, body, None, Severity::Warning),
        record(Level::Warn, before + debug_text(invocation) + after),
    )
}

/// Plans the answer to an invoker turned away by a rule.
pub fn gate<T>(title: &str, body: &str, before: &str, invocation: &str, after: &str) -> (r: Outcome<T>)
    ensures
        r@ == gate_outcome::<T>(title@, body@, before@, invocation@, after@),
{
    let mut message = with_quoted(before, invocation);
    message.append(after);
    Outcome::notify(
        Notification::new(title, body.to_owned(), Footer::Absent, Severity::Warning),
        LogRecord::warn(message),
    )
}

/// Someone who is no owner invoked an owner-only command.
pub open spec fn not_an_owner_outcome<T>(invocation: Seq<char>) -> OutcomeView<T> {
    gate_outcome(
        "Owner only command"@,
        "You must be an owner to use this command."@,
        "Non owner attempted to invoke "@,
        invocation,
        Seq::empty(),
    )
}

/// A server-only command was invoked outside of a server.
pub open spec fn guild_only_outcome<T>(invocation: Seq<char>) -> OutcomeView<T> {
    gate_outcome(
        "Server only command"@,
        "You cannot use this command outside of a server."@,
        "User attempted to invoke "@,
        invocation,
        " outside of a guild"@,
    )
}

/// A command for direct messages was invoked elsewhere.
pub open spec fn dm_only_outcome<T>(invocation: Seq<char>) -> OutcomeView<T> {
    gate_outcome(
        "DMs only command"@,
        "You cannot use this command outside of DMs."@,
        "User attempted to invoke "@,
        invocation,
        " outside of DMs"@,
    )
}

/// A command for age-restricted channels was invoked elsewhere.
pub open spec fn nsfw_only_outcome<T>(invocation: Seq<char>) -> OutcomeView<T> {
    gate_outcome(
        "NSFW command"@,
        "You cannot use this command outside of an NSFW channel."@,
        "User attempted to invoke "@,
        invocation,
        " outside of an NSFW channel"@,
    )
}

/// Plans the answer to an owner-only command invoked by someone else.
pub fn not_an_owner<T>(invocation: &str) -> (r: Outcome<T>)
    ensures
        r@ == not_an_owner_outcome::<T>(invocation@),
{
    proof {
        reveal_strlit("");
        assert(""@ =~= Seq::<char>::empty());
    }
    gate(
        "Owner only command",
        "You must be an owner to use this command.",
        "Non owner attempted to invoke ",
        invocation,
        "",
    )
}

/// Plans the answer to a server-only command invoked outside of a server.
pub fn guild_only<T>(invocation: &str) -> (r: Outcome<T>)
    ensures
        r@ == guild_only_outcome::<T>(invocation@),
{
    gate(
        "Server only command",
        "You cannot use this command outside of a server.",
        "User attempted to invoke ",
        invocation,
        " outside of a guild",
    )
}

/// Plans the answer to a command for direct messages invoked elsewhere.
pub fn dm_only<T>(invocation: &str) -> (r: Outcome<T>)
    ensures
        r@ == dm_only_outcome::<T>(invocation@),
{
    gate(
        "DMs only command",
        "You cannot use this command outside of DMs.",
        "User attempted to invoke ",
        invocation,
        " outside of DMs",
    )
}

/// Plans the answer to a command for age-restricted channels invoked
/// elsewhere.
pub fn nsfw_only<T>(invocation: &str) -> (r: Outcome<T>)
    ensures
        r@ == nsfw_only_outcome::<T>(invocation@),
{
    gate(
        "NSFW command",
        "You cannot use this command outside of an NSFW channel.",
        "User attempted to invoke ",
        invocation,
        " outside of an NSFW channel",
    )
}

/// A check failed with an error: the invoker is shown the operator's report
/// inside a fenced block, the log gets the whole chain on one line.
pub open spec fn check_errored_outcome<T>(
    invocation: Seq<char>,
    line: Seq<char>,
    report: Seq<char>,
) -> OutcomeView<T> {
    notified(
        notice(
            "Failed to perform check"@,
            fenced(report),
            Footer::BotError.text(),
            Severity::Danger,
        ),
        record(Level::Error, "Check errored for "@ + debug_text(invocation) + ": "@ + line),
    )
}

/// Plans the answer to a check that failed with an error.
pub fn check_errored<T>(invocation: &str, line: &str, report: &str) -> (r: Outcome<T>)
    ensures
        r@ == check_errored_outcome::<T>(invocation@, line@, report@),
{
    let mut message = with_quoted("Check errored for ", invocation);
    message.append(": ");
    message.append(line);
    Outcome::notify(
        Notification::new(
            "Failed to perform check",
            code_block(report),
            Footer::BotError,
            Severity::Danger,
        ),
        LogRecord::error(message),
    )
}

/// A check refused the command and gave no reason: the invoker hears
/// nothing, the log notes the refusal.
pub open spec fn check_refused_outcome<T>(invocation: Seq<char>) -> OutcomeView<T> {
    logged(record(Level::Warn, "Check failed for "@ + debug_text(invocation)))
}

/// Plans the answer to a check that refused without a reason.
pub fn check_refused<T>(invocation: &str) -> (r: Outcome<T>)
    ensures
        r@ == check_refused_outcome::<T>(invocation@),
{
    Outcome::log_only(LogRecord::warn(with_quoted("Check failed for ", invocation)))
}

/// A callback that runs on messages failed: the chain on one line, then the
/// message it failed on.
pub open spec fn message_callback_outcome<T>(
    before: Seq<char>,
    line: Seq<char>,
    message: Seq<char>,
) -> OutcomeView<T> {
    logged(record(Level::Error, before + line + "\n"@ + message))
}

/// Plans the log record for a callback that failed on a message.
pub fn message_callback_failed<T>(before: &str, line: &str, message: &str) -> (r: Outcome<T>)
    ensures
        r@ == message_callback_outcome::<T>(before@, line@, message@),
{
    let mut text = followed_by(before, line);
    text.append("\n");
    text.append(message);
    Outcome::log_only(LogRecord::error(text))
}

/// The dynamic prefix callback failed.
pub open spec fn dynamic_prefix_outcome<T>(line: Seq<char>, message: Seq<char>) -> OutcomeView<T> {
    message_callback_outcome("Dynamic prefix failed for a message: "@, line, message)
}

/// The callback for messages that are no command failed.
pub open spec fn non_command_message_outcome<T>(
    line: Seq<char>,
    message: Seq<char>,
) -> OutcomeView<T> {
    message_callback_outcome(
        "An error occurred in the non-command message callback: "@,
        line,
        message,
    )
}

/// A known prefix was followed by no known command.
pub open spec fn unknown_command_outcome<T>(prefix: Seq<char>, content: Seq<char>) -> OutcomeView<T> {
    logged(
        record(
            Level::Warn,
            "Recognized prefix "@ + debug_text(prefix) + " but did not recognize command "@
                + debug_text(content),
        ),
    )
}

/// Plans the log record for a message that named no known command.
pub fn unknown_command<T>(prefix: &str, content: &str) -> (r: Outcome<T>)
    ensures
        r@ == unknown_command_outcome::<T>(prefix@, content@),
{
    let mut message = with_quoted("Recognized prefix ", prefix);
    message.append(" but did not recognize command ");
    message.append(debug_format(content).as_str());
    Outcome::log_only(LogRecord::warn(message))
}

/// An interaction named no known command.
pub open spec fn unknown_interaction_outcome<T>(name: Seq<char>) -> OutcomeView<T> {
    logged(
        record(Level::Warn, "Received interaction for an unknown command: "@ + debug_text(name)),
    )
}

/// Plans the log record for an interaction that named no known command.
pub fn unknown_interaction<T>(name: &str) -> (r: Outcome<T>)
    ensures
        r@ == unknown_interaction_outcome::<T>(name@),
{
    Outcome::log_only(
        LogRecord::warn(with_quoted("Received interaction for an unknown command: ", name)),
    )
}

/// Setting up the user data failed.
pub open spec fn setup_failed_outcome<T>(line: Seq<char>) -> OutcomeView<T> {
    logged(record(Level::Error, "Setup failed: "@ + line))
}

/// Plans the log record for a failed setup.
pub fn setup_failed<T>(line: &str) -> (r: Outcome<T>)
    ensures
        r@ == setup_failed_outcome::<T>(line@),
{
    Outcome::log_only(LogRecord::error(followed_by("Setup failed: ", line)))
}

/// The handler of an event failed.
pub open spec fn event_handler_outcome<T>(event: Seq<char>, line: Seq<char>) -> OutcomeView<T> {
    logged(
        record(Level::Error, "Event handler failed for "@ + debug_text(event) + ": "@ + line),
    )
}

/// Plans the log record for a failed event handler.
pub fn event_handler_failed<T>(event: &str, line: &str) -> (r: Outcome<T>)
    ensures
        r@ == event_handler_outcome::<T>(event@, line@),
{
    let mut message = with_quoted("Event handler failed for ", event);
    message.append(": ");
    message.append(line);
    Outcome::log_only(LogRecord::error(message))
}

/// Permissions could not be fetched: a fault of the system, told as one,
/// and logged with the invocation that ran into it.
pub open spec fn permission_fetch_outcome<T>(invocation: Seq<char>) -> OutcomeView<T> {
    notified(
        notice(
            "Failed to fetch permissions"@,
            "The bot attempted to fetch permissions for you or for the bot, but failed to do so."@,
            Footer::BotError.text(),
            Severity::Danger,
        ),
        record(Level::Error, "Failed to fetch permissions for "@ + debug_text(invocation)),
    )
}

/// Plans the answer to permissions that could not be fetched.
pub fn permission_fetch_failed<T>(invocation: &str) -> (r: Outcome<T>)
    ensures
        r@ == permission_fetch_outcome::<T>(invocation@),
{
    Outcome::notify(
        Notification::new(
            "Failed to fetch permissions",
            "The bot attempted to fetch permissions for you or for the bot, but failed to do so.".to_owned(),
            Footer::BotError,
            Severity::Danger,
        ),
        LogRecord::error(with_quoted("Failed to fetch permissions for ", invocation)),
    )
}

} // verus!
