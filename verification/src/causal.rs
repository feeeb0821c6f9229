//! Who caused a failure, and the chain of messages that describes it.

use vstd::prelude::*;
use vstd::std_specs::convert::FromSpecImpl;
use crate::chain::{
    chain_length, chain_messages, chain_of, dedup_adjacent, dedup_error_chain, error_from_message,
    is_report_of, lemma_report_opens_with_first, render_line, render_report,
};
use crate::text::joined;

verus! {

/// Whether a failure is attributed to the invoking user or to the system.
#[derive(Clone, Copy, Debug, PartialEq, Eq, Structural)]
pub enum Cause {
    User,
    Internal,
}

/// An anticipated error made by a user.
///
/// A chain that enters the dispatcher through this wrapper is reported to the
/// invoker as their own mistake, not as a fault of the system. The wrapper
/// changes nothing in the chain itself.
#[derive(Debug)]
pub struct UserError(pub anyhow::Error);

impl UserError {
    /// The messages of the wrapped error, most specific first.
    pub open spec fn messages(&self) -> Seq<Seq<char>> {
        chain_of(self.0)
    }

    /// A user error that consists of `message` alone.
    pub fn new(message: String) -> (r: UserError)
        ensures
            r.messages() == seq![message@],
    {
        UserError(error_from_message(message))
    }

    /// A user error that consists of the text `s` alone.
    pub fn from_text(s: &str) -> (r: UserError)
        ensures
            r.messages() == seq![s@],
    {
        UserError::new(s.to_owned())
    }
}

impl From<String> for UserError {
    fn from(value: String) -> (r: UserError)
        ensures
            r.messages() == seq![value@],
    {
        UserError::new(value)
    }
}

// The message does not fix which error object comes back, only what its
// chain says: the contract stands on `from` itself.
impl FromSpecImpl<String> for UserError {
    open spec fn obeys_from_spec() -> bool {
        false
    }

    open spec fn from_spec(value: String) -> UserError {
        arbitrary()
    }
}

impl From<anyhow::Error> for UserError {
    fn from(error: anyhow::Error) -> (r: UserError)
        ensures
            r == UserError(error),
    {
        UserError(error)
    }
}

impl FromSpecImpl<anyhow::Error> for UserError {
    open spec fn obeys_from_spec() -> bool {
        true
    }

    open spec fn from_spec(error: anyhow::Error) -> UserError {
        UserError(error)
    }
}

impl std::str::FromStr for UserError {
    type Err = std::convert::Infallible;

    fn from_str(s: &str) -> (r: Result<UserError, std::convert::Infallible>)
        ensures
            r matches Ok(error) && error.messages() == seq![s@],
    {
        Ok(UserError::from_text(s))
    }
}

/// A causal chain together with the party it is attributed to.
///
/// The attribution is fixed when the chain is made and survives reduction.
#[derive(Debug)]
pub struct CausalChain {
    pub error: anyhow::Error,
    pub caused_by: Cause,
}

impl CausalChain {
    /// The messages of the chain, most specific first, root cause last.
    pub open spec fn messages(&self) -> Seq<Seq<char>> {
        chain_of(self.error)
    }

    /// A chain is never empty: it holds at least the message of the error
    /// it was made from.
    pub open spec fn wf(&self) -> bool {
        self.messages().len() >= 1
    }

    /// A chain attributed to the system.
    pub fn internal(error: anyhow::Error) -> (r: CausalChain)
        ensures
            r.wf(),
            r.error == error,
            r.caused_by == Cause::Internal,
    {
        let _ = chain_length(&error);
        CausalChain { error, caused_by: Cause::Internal }
    }

    /// A chain attributed to the invoking user.
    pub fn user(error: UserError) -> (r: CausalChain)
        ensures
            r.wf(),
            r.error == error.0,
            r.messages() == error.messages(),
            r.caused_by == Cause::User,
    {
        let _ = chain_length(&error.0);
        CausalChain { error: error.0, caused_by: Cause::User }
    }

    /// The number of messages in the chain.
    pub fn len(&self) -> (r: usize)
        ensures
            r == self.messages().len(),
            r >= 1,
    {
        chain_length(&self.error)
    }

    /// Whether the chain is attributed to the invoking user.
    pub fn is_user_caused(&self) -> (r: bool)
        ensures
            r == (self.caused_by == Cause::User),
    {
        match self.caused_by {
            Cause::User => true,
            Cause::Internal => false,
        }
    }

    /// The chain with repeated neighbours removed; the attribution stays.
    pub fn reduce(self) -> (r: CausalChain)
        ensures
            r.wf(),
            r.messages() == dedup_adjacent(self.messages()),
            r.caused_by == self.caused_by,
    {
        let mut error = self.error;
        dedup_error_chain(&mut error);
        let _ = chain_length(&error);
        CausalChain { error, caused_by: self.caused_by }
    }

    /// The messages as owned strings. A chain always has at least one.
    pub fn to_messages(&self) -> (r: Vec<String>)
        ensures
            r.deep_view() == self.messages(),
            r.len() >= 1,
    {
        chain_messages(&self.error)
    }

    /// The most specific message: the first of the chain.
    pub fn top_message(&self) -> (r: String)
        ensures
            r@ == self.messages().first(),
    {
        let messages = chain_messages(&self.error);
        messages[0].clone()
    }

    /// The root cause: the last message of the chain.
    pub fn root_message(&self) -> (r: String)
        ensures
            r@ == self.messages().last(),
    {
        let messages = chain_messages(&self.error);
        messages[messages.len() - 1].clone()
    }

    /// The whole chain on one line, each message after the first behind a
    /// colon and a space.
    pub fn line(&self) -> (r: String)
        ensures
            r@ == joined(self.messages(), ": "@),
    {
        render_line(&self.error)
    }

    /// The chain as a report for operators: the most specific message, then
    /// under a heading the causes, then a backtrace where one was captured.
    /// How the causes are laid out and what a backtrace says is left to the
    /// error's own formatting.
    pub fn report(&self) -> (r: String)
        ensures
            is_report_of(self.messages(), r@),
            self.messages().first().is_prefix_of(r@),
    {
        let report = render_report(&self.error);
        proof {
            lemma_report_opens_with_first(self.messages(), report@);
        }
        report
    }
}

} // verus!
