//! What a dispatch produces: a notification for the invoker, a record for the
//! operator's log.

use vstd::prelude::*;

verus! {

/// How grave a notification is shown to be.
#[derive(Clone, Copy, Debug, PartialEq, Eq, Structural)]
pub enum Severity {
    Warning,
    Danger,
}

/// The level at which a record enters the log.
#[derive(Clone, Copy, Debug, PartialEq, Eq, Structural)]
pub enum Level {
    Warn,
    Error,
}

/// A message for the invoker.
#[derive(Debug, PartialEq, Eq)]
pub struct Notification {
    pub title: String,
    pub body: String,
    pub footer: Option<String>,
    pub severity: Severity,
    /// Attach the notification to the invoking message.
    pub reply: bool,
    /// Show the notification to the invoker only.
    pub ephemeral: bool,
}

/// A notification as plain text.
pub struct NotificationView {
    pub title: Seq<char>,
    pub body: Seq<char>,
    pub footer: Option<Seq<char>>,
    pub severity: Severity,
    pub reply: bool,
    pub ephemeral: bool,
}

/// The text of an optional string.
pub open spec fn text_of(s: Option<String>) -> Option<Seq<char>> {
    match s {
        Some(s) => Some(s@),
        None => None,
    }
}

impl View for Notification {
    type V = NotificationView;

    open spec fn view(&self) -> NotificationView {
        NotificationView {
            title: self.title@,
            body: self.body@,
            footer: text_of(self.footer),
            severity: self.severity,
            reply: self.reply,
            ephemeral: self.ephemeral,
        }
    }
}

/// The notification with the given texts. Every notification is a reply and
/// is shown to the invoker only.
pub open spec fn notice(
    title: Seq<char>,
    body: Seq<char>,
    footer: Option<Seq<char>>,
    severity: Severity,
) -> NotificationView {
    NotificationView { title, body, footer, severity, reply: true, ephemeral: true }
}

/// Closes a notification that admits the invoker may not be at fault.
pub open spec fn maybe_bot_error_footer() -> Seq<char> {
    "If you believe this is an error on the bot's end, please contact a developer."@
}

/// Closes a notification about a fault of the system.
pub open spec fn bot_error_footer() -> Seq<char> {
    "This isn't supposed to happen! If you have the time, please contact a developer."@
}

/// Which closing line a notification carries, if any.
#[derive(Clone, Copy, Debug, PartialEq, Eq, Structural)]
pub enum Footer {
    Absent,
    MaybeBotError,
    BotError,
}

impl Footer {
    /// The closing line as text.
    pub open spec fn text(self) -> Option<Seq<char>> {
        match self {
            Footer::Absent => None,
            Footer::MaybeBotError => Some(maybe_bot_error_footer()),
            Footer::BotError => Some(bot_error_footer()),
        }
    }

    /// The closing line as an owned string.
    pub fn render(self) -> (r: Option<String>)
        ensures
            text_of(r) == self.text(),
    {
        match self {
            Footer::Absent => None,
            Footer::MaybeBotError => Some(
                "If you believe this is an error on the bot's end, please contact a developer.".to_owned(),
            ),
            Footer::BotError => Some(
                "This isn't supposed to happen! If you have the time, please contact a developer.".to_owned(),
            ),
        }
    }
}

impl Clone for Notification {
    fn clone(&self) -> (r: Notification)
        ensures
            r@ == self@,
    {
        Notification {
            title: self.title.clone(),
            body: self.body.clone(),
            footer: match &self.footer {
                Some(footer) => Some(footer.clone()),
                None => None,
            },
            severity: self.severity,
            reply: self.reply,
            ephemeral: self.ephemeral,
        }
    }
}

impl Notification {
    /// A notification with the given texts, sent as a reply that only the
    /// invoker sees.
    pub fn new(title: &str, body: String, footer: Footer, severity: Severity) -> (r: Notification)
        ensures
            r@ == notice(title@, body@, footer.text(), severity),
    {
        Notification {
            title: title.to_owned(),
            body,
            footer: footer.render(),
            severity,
            reply: true,
            ephemeral: true,
        }
    }
}

/// An entry for the operator's log.
#[derive(Debug, PartialEq, Eq)]
pub struct LogRecord {
    pub level: Level,
    pub message: String,
}

/// A log record as plain text.
pub struct LogRecordView {
    pub level: Level,
    pub message: Seq<char>,
}

impl View for LogRecord {
    type V = LogRecordView;

    open spec fn view(&self) -> LogRecordView {
        LogRecordView { level: self.level, message: self.message@ }
    }
}

/// The record with the given level and message.
pub open spec fn record(level: Level, message: Seq<char>) -> LogRecordView {
    LogRecordView { level, message }
}

impl Clone for LogRecord {
    fn clone(&self) -> (r: LogRecord)
        ensures
            r@ == self@,
    {
        LogRecord { level: self.level, message: self.message.clone() }
    }
}

impl LogRecord {
    /// A record at the `Warn` level.
    pub fn warn(message: String) -> (r: LogRecord)
        ensures
            r@ == record(Level::Warn, message@),
    {
        LogRecord { level: Level::Warn, message }
    }

    /// A record at the `Error` level.
    pub fn error(message: String) -> (r: LogRecord)
        ensures
            r@ == record(Level::Error, message@),
    {
        LogRecord { level: Level::Error, message }
    }
}

/// What the caller of a dispatch has to carry out: at most one notification
/// to send and at most one record to log, or else the event itself, to be
/// left to the default handler.
#[derive(Debug)]
pub struct Outcome<T> {
    pub notification: Option<Notification>,
    pub log: Option<LogRecord>,
    pub delegated: Option<T>,
}

/// An outcome as plain text.
pub struct OutcomeView<T> {
    pub notification: Option<NotificationView>,
    pub log: Option<LogRecordView>,
    pub delegated: Option<T>,
}

impl<T> View for Outcome<T> {
    type V = OutcomeView<T>;

    open spec fn view(&self) -> OutcomeView<T> {
        OutcomeView {
            notification: match self.notification {
                Some(n) => Some(n@),
                None => None,
            },
            log: match self.log {
                Some(l) => Some(l@),
                None => None,
            },
            delegated: self.delegated,
        }
    }
}

/// A notification and a log record.
pub open spec fn notified<T>(notification: NotificationView, log: LogRecordView) -> OutcomeView<T> {
    OutcomeView { notification: Some(notification), log: Some(log), delegated: None }
}

/// A notification without a log record.
pub open spec fn notified_silently<T>(notification: NotificationView) -> OutcomeView<T> {
    OutcomeView { notification: Some(notification), log: None, delegated: None }
}

/// A log record and nothing for the invoker.
pub open spec fn logged<T>(log: LogRecordView) -> OutcomeView<T> {
    OutcomeView { notification: None, log: Some(log), delegated: None }
}

/// The event handed on to the default handler, and nothing else: no
/// notification, no log record.
pub open spec fn delegated<T>(event: T) -> OutcomeView<T> {
    OutcomeView { notification: None, log: None, delegated: Some(event) }
}

impl<T> Outcome<T> {
    /// Notify the invoker and log.
    pub fn notify(notification: Notification, log: LogRecord) -> (r: Outcome<T>)
        ensures
            r@ == notified::<T>(notification@, log@),
    {
        Outcome { notification: Some(notification), log: Some(log), delegated: None }
    }

    /// Notify the invoker; nothing for the log.
    pub fn notify_silently(notification: Notification) -> (r: Outcome<T>)
        ensures
            r@ == notified_silently::<T>(notification@),
    {
        Outcome { notification: Some(notification), log: None, delegated: None }
    }

    /// Log; nothing for the invoker.
    pub fn log_only(log: LogRecord) -> (r: Outcome<T>)
        ensures
            r@ == logged::<T>(log@),
    {
        Outcome { notification: None, log: Some(log), delegated: None }
    }

    /// Leave the event to the default handler, without a word of one's own.
    pub fn delegate(event: T) -> (r: Outcome<T>)
        ensures
            r@ == delegated(event),
    {
        Outcome { notification: None, log: None, delegated: Some(event) }
    }
}

} // verus!
