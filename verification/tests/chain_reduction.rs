use poise_error::chain::{dedup_messages, rebuild};
use poise_error::{dedup_error_chain, CausalChain, Cause, UserError};
use std::str::FromStr;

fn messages_of(error: &anyhow::Error) -> Vec<String> {
    error.chain().map(|link| link.to_string()).collect()
}

fn strings(items: &[&str]) -> Vec<String> {
    items.iter().map(|s| s.to_string()).collect()
}

/// Builds the error whose chain reads as `items`, most specific first.
fn error_with_chain(items: &[&str]) -> anyhow::Error {
    let mut rev = items.iter().rev();
    let mut error = anyhow::Error::msg(rev.next().unwrap().to_string());
    for item in rev {
        error = error.context(item.to_string());
    }
    error
}

#[test]
fn adjacent_duplicates_are_removed_and_distant_ones_kept() {
    let mut error = error_with_chain(&["A", "A", "B", "A"]);
    assert_eq!(messages_of(&error), strings(&["A", "A", "B", "A"]));
    dedup_error_chain(&mut error);
    assert_eq!(messages_of(&error), strings(&["A", "B", "A"]));
    assert_ne!(messages_of(&error), strings(&["A", "B"]));
}

#[test]
fn single_message_chain_is_unchanged() {
    let mut error = anyhow::Error::msg("X");
    dedup_error_chain(&mut error);
    assert_eq!(messages_of(&error), strings(&["X"]));
}

#[test]
fn reducing_twice_is_reducing_once() {
    let mut once = error_with_chain(&["a", "a", "a", "b", "b", "a", "c", "c"]);
    dedup_error_chain(&mut once);
    let after_once = messages_of(&once);
    assert_eq!(after_once, strings(&["a", "b", "a", "c"]));
    dedup_error_chain(&mut once);
    assert_eq!(messages_of(&once), after_once);
}

#[test]
fn a_run_of_one_message_collapses_to_it() {
    let mut error = error_with_chain(&["same", "same", "same"]);
    dedup_error_chain(&mut error);
    assert_eq!(messages_of(&error), strings(&["same"]));
}

#[test]
fn chain_without_repeats_is_unchanged() {
    let mut error = error_with_chain(&["top", "middle", "root"]);
    dedup_error_chain(&mut error);
    assert_eq!(messages_of(&error), strings(&["top", "middle", "root"]));
}

#[test]
fn reduced_error_prints_specific_to_root() {
    let mut error = error_with_chain(&["top", "top", "root"]);
    dedup_error_chain(&mut error);
    assert_eq!(format!("{}", error), "top");
    assert_eq!(format!("{:#}", error), "top: root");
    assert_eq!(error.root_cause().to_string(), "root");
}

#[test]
fn dedup_messages_on_plain_strings() {
    assert_eq!(dedup_messages(strings(&["A", "A", "B", "A"])), strings(&["A", "B", "A"]));
    assert_eq!(dedup_messages(strings(&["X"])), strings(&["X"]));
    assert_eq!(dedup_messages(Vec::new()), Vec::<String>::new());
    assert_eq!(dedup_messages(strings(&["", "", "x", ""])), strings(&["", "x", ""]));
}

#[test]
fn rebuild_lays_each_message_over_the_next() {
    let error = rebuild(strings(&["outer", "inner", "root"]));
    assert_eq!(messages_of(&error), strings(&["outer", "inner", "root"]));
    let single = rebuild(strings(&["only"]));
    assert_eq!(messages_of(&single), strings(&["only"]));
}

#[test]
fn user_error_from_string_holds_the_message() {
    let error = UserError::from(String::from("Name too long"));
    assert_eq!(messages_of(&error.0), strings(&["Name too long"]));
    let made = UserError::new(String::from("Too short"));
    assert_eq!(messages_of(&made.0), strings(&["Too short"]));
    let text = UserError::from_text("You *stink!*");
    assert_eq!(messages_of(&text.0), strings(&["You *stink!*"]));
}

#[test]
fn user_error_from_str_never_fails() {
    let error = UserError::from_str("You *stink!*").unwrap();
    assert_eq!(messages_of(&error.0), strings(&["You *stink!*"]));
    let empty = UserError::from_str("").unwrap();
    assert_eq!(messages_of(&empty.0), strings(&[""]));
}

#[test]
fn user_error_wraps_an_error_unchanged() {
    let error = UserError::from(error_with_chain(&["context", "cause"]));
    assert_eq!(messages_of(&error.0), strings(&["context", "cause"]));
}

#[test]
fn causal_chain_keeps_its_attribution_through_reduction() {
    let user = CausalChain::user(UserError::from(error_with_chain(&["a", "a", "b"])));
    assert_eq!(user.caused_by, Cause::User);
    assert!(user.is_user_caused());
    let reduced = user.reduce();
    assert_eq!(reduced.caused_by, Cause::User);
    assert_eq!(reduced.to_messages(), strings(&["a", "b"]));

    let internal = CausalChain::internal(error_with_chain(&["x", "y", "y"]));
    assert_eq!(internal.caused_by, Cause::Internal);
    assert!(!internal.is_user_caused());
    let reduced = internal.reduce();
    assert_eq!(reduced.caused_by, Cause::Internal);
    assert_eq!(reduced.to_messages(), strings(&["x", "y"]));
}

#[test]
fn causal_chain_renderings() {
    let chain = CausalChain::internal(error_with_chain(&["top", "middle", "root"]));
    assert_eq!(chain.to_messages(), strings(&["top", "middle", "root"]));
    assert_eq!(chain.top_message(), "top");
    assert_eq!(chain.root_message(), "root");
    assert_eq!(chain.line(), "top: middle: root");
    let report = chain.report();
    assert!(report.starts_with("top\n\nCaused by:\n"));
    assert!(report.contains("middle"));
    assert!(report.contains("root"));

    let single = CausalChain::internal(anyhow::Error::msg("alone"));
    assert_eq!(single.top_message(), "alone");
    assert_eq!(single.root_message(), "alone");
    assert_eq!(single.line(), "alone");
    let report = single.report();
    assert!(report == "alone" || report.starts_with("alone\n\n"));
    assert!(!report.contains("Caused by:"));
}

#[test]
fn causal_chain_counts_its_messages() {
    assert_eq!(CausalChain::internal(error_with_chain(&["a", "b", "b"])).len(), 3);
    assert_eq!(CausalChain::internal(anyhow::Error::msg("a")).len(), 1);
    assert_eq!(CausalChain::internal(error_with_chain(&["a", "b", "b"])).reduce().len(), 2);
}

#[test]
fn user_error_parses_from_any_text() {
    let parsed: UserError = "Pick a *shorter* name".parse().unwrap();
    assert_eq!(messages_of(&parsed.0), strings(&["Pick a *shorter* name"]));
}
