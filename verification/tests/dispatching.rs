use poise_error::{
    conclude, dispatch, handling_failed, CausalChain, FailureEvent, Level, LogRecord,
    Notification, Outcome, Severity, UserError,
};

const MAYBE_BOT_ERROR_FOOTER: &str =
    "If you believe this is an error on the bot's end, please contact a developer.";
const BOT_ERROR_FOOTER: &str =
    "This isn't supposed to happen! If you have the time, please contact a developer.";

fn error_with_chain(items: &[&str]) -> anyhow::Error {
    let mut rev = items.iter().rev();
    let mut error = anyhow::Error::msg(rev.next().unwrap().to_string());
    for item in rev {
        error = error.context(item.to_string());
    }
    error
}

fn run(event: FailureEvent<()>) -> Outcome<()> {
    dispatch(event)
}

fn both(outcome: Outcome<()>) -> (Notification, LogRecord) {
    assert!(outcome.delegated.is_none());
    (outcome.notification.unwrap(), outcome.log.unwrap())
}

fn only_log(outcome: Outcome<()>) -> LogRecord {
    assert!(outcome.notification.is_none());
    assert!(outcome.delegated.is_none());
    outcome.log.unwrap()
}

fn assert_private(n: &Notification) {
    assert!(n.reply);
    assert!(n.ephemeral);
}

#[test]
fn user_error_end_to_end() {
    let event = FailureEvent::CommandExecutionFailed {
        chain: CausalChain::user(UserError::new(String::from("Name too long"))),
        invocation: String::from("/rename"),
    };
    let (n, log) = both(run(event));
    assert_eq!(n.title, "You seem to have made an error");
    assert_eq!(n.body, "Name too long");
    assert_eq!(n.severity, Severity::Warning);
    assert_eq!(n.footer.as_deref(), Some(MAYBE_BOT_ERROR_FOOTER));
    assert_private(&n);
    assert_eq!(log.level, Level::Warn);
    assert!(log.message.contains("/rename"));
    assert_eq!(
        log.message,
        "A user error occurred whilst executing \"/rename\": Name too long"
    );
}

#[test]
fn user_error_shows_only_the_root_cause_without_a_fence() {
    let event = FailureEvent::CommandExecutionFailed {
        chain: CausalChain::user(UserError::from(error_with_chain(&[
            "while renaming",
            "while renaming",
            "Name *too* long",
        ]))),
        invocation: String::from("/rename x"),
    };
    let (n, log) = both(run(event));
    assert_eq!(n.body, "Name *too* long");
    assert!(!n.body.contains("```"));
    assert_eq!(n.severity, Severity::Warning);
    assert_eq!(log.level, Level::Warn);
    assert_eq!(
        log.message,
        "A user error occurred whilst executing \"/rename x\": while renaming: Name *too* long"
    );
}

#[test]
fn internal_error_shows_the_reduced_chain_in_a_fence() {
    let event = FailureEvent::CommandExecutionFailed {
        chain: CausalChain::internal(error_with_chain(&["saving", "disk full", "disk full"])),
        invocation: String::from("/save"),
    };
    let (n, log) = both(run(event));
    assert_eq!(n.title, "An internal error has occurred");
    assert_eq!(n.severity, Severity::Danger);
    assert_eq!(n.footer.as_deref(), Some(BOT_ERROR_FOOTER));
    assert_private(&n);
    assert!(n.body.starts_with("```\nsaving\n\nCaused by:\n"));
    assert!(n.body.ends_with("\n```"));
    assert!(n.body.contains("disk full"));
    assert_eq!(n.body.matches("disk full").count(), 1);
    assert_eq!(log.level, Level::Error);
    assert_eq!(
        log.message,
        "An error occurred whilst executing \"/save\": saving: disk full"
    );
}

#[test]
fn internal_error_of_one_message_shows_it_alone_or_before_a_backtrace() {
    let event = FailureEvent::CommandExecutionFailed {
        chain: CausalChain::internal(error_with_chain(&["boom", "boom"])),
        invocation: String::from("/save"),
    };
    let (n, log) = both(run(event));
    assert!(n.body == "```\nboom\n```" || n.body.starts_with("```\nboom\n\n"));
    assert!(n.body.ends_with("\n```"));
    assert!(!n.body.contains("Caused by:"));
    assert_eq!(n.severity, Severity::Danger);
    assert_eq!(log.level, Level::Error);
    assert_eq!(log.message, "An error occurred whilst executing \"/save\": boom");
}

#[test]
fn cooldown_end_to_end() {
    let event = FailureEvent::CooldownHit { remaining_secs: 45, invocation: String::from("/draw") };
    let (n, log) = both(run(event));
    assert_eq!(n.title, "Cooldown hit");
    assert!(n.body.contains("45"));
    assert_eq!(
        n.body,
        "You must wait **~45 seconds** before you can use this command again."
    );
    assert_eq!(n.severity, Severity::Warning);
    assert_eq!(n.footer, None);
    assert_private(&n);
    assert_eq!(log.level, Level::Warn);
    assert!(log.message.contains("/draw"));
    assert_eq!(log.message, "User hit cooldown with \"/draw\"");
}

#[test]
fn subcommands_are_listed_behind_the_prefix() {
    let event = FailureEvent::SubcommandRequired {
        invocation: String::from("!config"),
        prefix: String::from("!"),
        bot_id: 42,
        subcommands: vec![String::from("config get"), String::from("config set")],
    };
    let (n, log) = both(run(event));
    assert_eq!(n.title, "Subcommand required");
    assert_eq!(
        n.body,
        "You must specify one of the following subcommands:\n\n- `!config get`\n- `!config set`"
    );
    assert_eq!(n.severity, Severity::Warning);
    assert_eq!(n.footer, None);
    assert_private(&n);
    assert_eq!(log.level, Level::Warn);
    assert_eq!(
        log.message,
        "User attempted to invoke a command, which requires a subcommand, without a subcommand: \"!config\""
    );
}

#[test]
fn subcommands_are_listed_behind_the_mention() {
    let event = FailureEvent::SubcommandRequired {
        invocation: String::from("<@42> config"),
        prefix: String::from("<@42>"),
        bot_id: 42,
        subcommands: vec![String::from("config get"), String::from("config set")],
    };
    let (n, _) = both(run(event));
    assert_eq!(
        n.body,
        "You must specify one of the following subcommands:\n\n- <@42> `config get`\n- <@42> `config set`"
    );
}

#[test]
fn subcommands_with_unknown_bot_id_use_the_prefix() {
    let event = FailureEvent::SubcommandRequired {
        invocation: String::from("/config"),
        prefix: String::from("/"),
        bot_id: 0,
        subcommands: vec![String::from("config get")],
    };
    let (n, _) = both(run(event));
    assert_eq!(n.body, "You must specify one of the following subcommands:\n\n- `/config get`");
    let none = FailureEvent::SubcommandRequired {
        invocation: String::from("/config"),
        prefix: String::from("/"),
        bot_id: 7,
        subcommands: Vec::new(),
    };
    let (n, _) = both(run(none));
    assert_eq!(n.body, "You must specify one of the following subcommands:\n\n");
}

#[test]
fn panic_is_notified_and_not_logged() {
    let outcome = run(FailureEvent::CommandPanicked { invocation: String::from("/boom") });
    assert!(outcome.log.is_none());
    assert!(outcome.delegated.is_none());
    let n = outcome.notification.unwrap();
    assert_eq!(n.title, "Panicked");
    assert_eq!(
        n.body,
        "A really bad error happened and the bot panicked! You should contact a bot developer and tell them to check the logs."
    );
    assert_eq!(n.severity, Severity::Danger);
    assert_eq!(n.footer, None);
    assert_private(&n);
}

#[test]
fn argument_parse_with_input() {
    let event = FailureEvent::ArgumentParseFailed {
        chain: CausalChain::internal(error_with_chain(&["invalid digit found in string"])),
        input: Some(String::from("abc")),
        invocation: String::from("/roll abc"),
    };
    let (n, log) = both(run(event));
    let expected =
        "Failed to parse \"abc\" from \"/roll abc\" into an argument: invalid digit found in string";
    assert_eq!(n.title, "Failed to parse argument");
    assert_eq!(n.body, expected);
    assert_eq!(n.severity, Severity::Warning);
    assert_eq!(n.footer.as_deref(), Some(MAYBE_BOT_ERROR_FOOTER));
    assert_private(&n);
    assert_eq!(log.level, Level::Warn);
    assert_eq!(log.message, expected);
}

#[test]
fn argument_parse_without_input() {
    let event = FailureEvent::ArgumentParseFailed {
        chain: CausalChain::internal(error_with_chain(&["too few arguments", "end of input"])),
        input: None,
        invocation: String::from("/roll"),
    };
    let (n, log) = both(run(event));
    let expected = "Failed to parse an argument from \"/roll\": too few arguments";
    assert_eq!(n.body, expected);
    assert_eq!(log.message, expected);
}

#[test]
fn structure_mismatch_is_an_internal_fault() {
    let event = FailureEvent::CommandStructureMismatch {
        description: String::from("expected 2 arguments"),
        command: String::from("config set"),
    };
    let (n, log) = both(run(event));
    assert_eq!(n.title, "Command structure mismatch");
    assert_eq!(n.body, "```\nexpected 2 arguments\n```");
    assert_eq!(n.severity, Severity::Danger);
    assert_eq!(n.footer.as_deref(), Some(BOT_ERROR_FOOTER));
    assert_private(&n);
    assert_eq!(log.level, Level::Error);
    assert_eq!(
        log.message,
        "Mismatch between registered command and poise command for `/config set`: expected 2 arguments"
    );
}

#[test]
fn missing_bot_permissions_are_named() {
    let event = FailureEvent::MissingBotPermissions {
        permissions: (1 << 1) | (1 << 2),
        invocation: String::from("/ban x"),
    };
    let (n, log) = both(run(event));
    assert_eq!(n.title, "Lacking bot permissions");
    assert_eq!(
        n.body,
        "The bot requires the following permissions to execute this command: **Kick Members and Ban Members**"
    );
    assert_eq!(n.severity, Severity::Warning);
    assert_eq!(n.footer, None);
    assert_private(&n);
    assert_eq!(log.level, Level::Warn);
    assert_eq!(
        log.message,
        "Bot is lacking permissions for \"/ban x\": Kick Members and Ban Members"
    );
}

#[test]
fn missing_user_permissions_reported() {
    let event = FailureEvent::MissingUserPermissions {
        permissions: Some(1 << 3),
        invocation: String::from("/purge"),
    };
    let (n, log) = both(run(event));
    assert_eq!(n.title, "Lacking user permissions");
    assert_eq!(
        n.body,
        "You must have the following permissions to execute this command: **Administrator**"
    );
    assert_eq!(n.severity, Severity::Warning);
    assert_eq!(n.footer, None);
    assert_private(&n);
    assert_eq!(log.level, Level::Warn);
    assert_eq!(log.message, "User is lacking permissions for \"/purge\": Administrator");
}

#[test]
fn missing_user_permissions_not_reported() {
    let event = FailureEvent::MissingUserPermissions {
        permissions: None,
        invocation: String::from("/purge"),
    };
    let (n, log) = both(run(event));
    assert_eq!(n.title, "Lacking user permissions");
    assert_eq!(n.body, "You do not have the permissions needed to execute this command");
    assert_eq!(n.severity, Severity::Warning);
    assert_private(&n);
    assert_eq!(log.level, Level::Warn);
    assert_eq!(log.message, "User is lacking permissions for \"/purge\"");
}

#[test]
fn not_an_owner_is_turned_away() {
    let (n, log) = both(run(FailureEvent::NotAnOwner { invocation: String::from("/shutdown") }));
    assert_eq!(n.title, "Owner only command");
    assert_eq!(n.body, "You must be an owner to use this command.");
    assert_eq!(n.severity, Severity::Warning);
    assert_eq!(n.footer, None);
    assert_private(&n);
    assert_eq!(log.level, Level::Warn);
    assert_eq!(log.message, "Non owner attempted to invoke \"/shutdown\"");
}

#[test]
fn guild_only_is_turned_away() {
    let (n, log) = both(run(FailureEvent::GuildOnly { invocation: String::from("/kick") }));
    assert_eq!(n.title, "Server only command");
    assert_eq!(n.body, "You cannot use this command outside of a server.");
    assert_eq!(n.severity, Severity::Warning);
    assert_private(&n);
    assert_eq!(log.level, Level::Warn);
    assert_eq!(log.message, "User attempted to invoke \"/kick\" outside of a guild");
}

#[test]
fn dm_only_is_turned_away() {
    let (n, log) = both(run(FailureEvent::DmOnly { invocation: String::from("/secret") }));
    assert_eq!(n.title, "DMs only command");
    assert_eq!(n.body, "You cannot use this command outside of DMs.");
    assert_eq!(n.severity, Severity::Warning);
    assert_private(&n);
    assert_eq!(log.level, Level::Warn);
    assert_eq!(log.message, "User attempted to invoke \"/secret\" outside of DMs");
}

#[test]
fn nsfw_only_is_turned_away() {
    let (n, log) = both(run(FailureEvent::NsfwOnly { invocation: String::from("/x") }));
    assert_eq!(n.title, "NSFW command");
    assert_eq!(n.body, "You cannot use this command outside of an NSFW channel.");
    assert_eq!(n.severity, Severity::Warning);
    assert_private(&n);
    assert_eq!(log.level, Level::Warn);
    assert_eq!(log.message, "User attempted to invoke \"/x\" outside of an NSFW channel");
}

#[test]
fn check_with_an_error_is_notified_and_logged() {
    let event = FailureEvent::CommandCheckFailed {
        chain: Some(CausalChain::internal(error_with_chain(&["lookup", "lookup", "timeout"]))),
        invocation: String::from("/vip"),
    };
    let (n, log) = both(run(event));
    assert_eq!(n.title, "Failed to perform check");
    assert!(n.body.starts_with("```\nlookup\n\nCaused by:\n"));
    assert!(n.body.ends_with("\n```"));
    assert!(n.body.contains("timeout"));
    assert_eq!(n.body.matches("lookup").count(), 1);
    assert_eq!(n.severity, Severity::Danger);
    assert_eq!(n.footer.as_deref(), Some(BOT_ERROR_FOOTER));
    assert_private(&n);
    assert_eq!(log.level, Level::Error);
    assert_eq!(log.message, "Check errored for \"/vip\": lookup: timeout");
}

#[test]
fn check_without_a_reason_is_only_logged() {
    let log = only_log(run(FailureEvent::CommandCheckFailed {
        chain: None,
        invocation: String::from("/vip"),
    }));
    assert_eq!(log.level, Level::Warn);
    assert_eq!(log.message, "Check failed for \"/vip\"");
}

#[test]
fn dynamic_prefix_failure_is_only_logged() {
    let log = only_log(run(FailureEvent::DynamicPrefixFailed {
        chain: CausalChain::internal(error_with_chain(&["db", "db", "refused"])),
        message: String::from("Message { id: 1 }"),
    }));
    assert_eq!(log.level, Level::Error);
    assert_eq!(
        log.message,
        "Dynamic prefix failed for a message: db: refused\nMessage { id: 1 }"
    );
}

#[test]
fn unknown_command_is_only_logged() {
    let log = only_log(run(FailureEvent::UnknownCommand {
        prefix: String::from("!"),
        content: String::from("frobnicate now"),
    }));
    assert_eq!(log.level, Level::Warn);
    assert_eq!(
        log.message,
        "Recognized prefix \"!\" but did not recognize command \"frobnicate now\""
    );
}

#[test]
fn unknown_interaction_is_only_logged() {
    let log = only_log(run(FailureEvent::UnknownInteraction { name: String::from("ghost") }));
    assert_eq!(log.level, Level::Warn);
    assert_eq!(log.message, "Received interaction for an unknown command: \"ghost\"");
}

#[test]
fn setup_failure_is_only_logged() {
    let log = only_log(run(FailureEvent::SetupFailed {
        chain: CausalChain::internal(error_with_chain(&["no token", "no token"])),
    }));
    assert_eq!(log.level, Level::Error);
    assert_eq!(log.message, "Setup failed: no token");
}

#[test]
fn event_handler_failure_is_only_logged() {
    let log = only_log(run(FailureEvent::EventHandlerFailed {
        chain: CausalChain::internal(error_with_chain(&["handler", "io"])),
        event: String::from("message_create"),
    }));
    assert_eq!(log.level, Level::Error);
    assert_eq!(log.message, "Event handler failed for \"message_create\": handler: io");
}

#[test]
fn permission_fetch_failure_is_an_internal_fault() {
    let (n, log) =
        both(run(FailureEvent::PermissionFetchFailed { invocation: String::from("/ban") }));
    assert_eq!(n.title, "Failed to fetch permissions");
    assert_eq!(
        n.body,
        "The bot attempted to fetch permissions for you or for the bot, but failed to do so."
    );
    assert_eq!(n.severity, Severity::Danger);
    assert_eq!(n.footer.as_deref(), Some(BOT_ERROR_FOOTER));
    assert_private(&n);
    assert_eq!(log.level, Level::Error);
    assert!(log.message.contains("/ban"));
    assert_eq!(log.message, "Failed to fetch permissions for \"/ban\"");
}

#[test]
fn non_command_message_failure_is_only_logged() {
    let log = only_log(run(FailureEvent::NonCommandMessageFailed {
        chain: CausalChain::internal(error_with_chain(&["callback", "callback", "oops"])),
        message: String::from("Message { id: 2 }"),
    }));
    assert_eq!(log.level, Level::Error);
    assert_eq!(
        log.message,
        "An error occurred in the non-command message callback: callback: oops\nMessage { id: 2 }"
    );
}

#[test]
fn unclassified_is_handed_on() {
    let outcome = dispatch(FailureEvent::Unclassified(String::from("payload")));
    assert!(outcome.notification.is_none());
    assert!(outcome.log.is_none());
    assert_eq!(outcome.delegated, Some(String::from("payload")));
}

#[test]
fn failed_default_handler_becomes_one_error_record() {
    let outcome = dispatch(FailureEvent::Unclassified(7u8));
    assert!(outcome.notification.is_none());
    assert!(outcome.log.is_none());
    assert_eq!(outcome.delegated, Some(7u8));
    let handled: Result<(), anyhow::Error> =
        Err(error_with_chain(&["default handler", "default handler", "no route"]));
    let log = conclude(handled).unwrap();
    assert_eq!(log.level, Level::Error);
    assert_eq!(log.message, "Failed to handle error: default handler: no route");
    assert_eq!(conclude(Ok(())), None);
}

#[test]
fn reply_target_follows_the_kind_of_event() {
    let with: FailureEvent<()> = FailureEvent::GuildOnly { invocation: String::from("/x") };
    assert!(with.reply_target());
    let refused: FailureEvent<()> =
        FailureEvent::CommandCheckFailed { chain: None, invocation: String::from("/x") };
    assert!(refused.reply_target());
    let without: FailureEvent<()> = FailureEvent::UnknownInteraction { name: String::from("x") };
    assert!(!without.reply_target());
    let setup: FailureEvent<()> =
        FailureEvent::SetupFailed { chain: CausalChain::internal(anyhow::Error::msg("x")) };
    assert!(!setup.reply_target());
    assert!(!FailureEvent::Unclassified(1u8).reply_target());
}

#[test]
fn failed_send_becomes_one_error_record() {
    let failure = error_with_chain(&["send failed", "send failed", "connection reset"]);
    let log = conclude(Err(failure)).unwrap();
    assert_eq!(log.level, Level::Error);
    assert_eq!(log.message, "Failed to handle error: send failed: connection reset");
}

#[test]
fn successful_send_needs_no_record() {
    assert_eq!(conclude(Ok(())), None);
}

#[test]
fn handling_failed_reduces_before_logging() {
    let log = handling_failed(error_with_chain(&["a", "a", "a"]));
    assert_eq!(log.level, Level::Error);
    assert_eq!(log.message, "Failed to handle error: a");
}

#[test]
fn only_the_answer_to_a_user_error_silences_mentions() {
    let user: FailureEvent<()> = FailureEvent::CommandExecutionFailed {
        chain: CausalChain::user(UserError::new(String::from("Hello <@1>"))),
        invocation: String::from("/greet"),
    };
    assert!(user.mentions_silenced());
    let internal: FailureEvent<()> = FailureEvent::CommandExecutionFailed {
        chain: CausalChain::internal(anyhow::Error::msg("boom")),
        invocation: String::from("/greet"),
    };
    assert!(!internal.mentions_silenced());
    let parse: FailureEvent<()> = FailureEvent::ArgumentParseFailed {
        chain: CausalChain::internal(anyhow::Error::msg("bad")),
        input: Some(String::from("<@1>")),
        invocation: String::from("/greet <@1>"),
    };
    assert!(!parse.mentions_silenced());
    assert!(!FailureEvent::Unclassified(0u8).mentions_silenced());
}
