//! The two pieces of chat-platform text that messages quote: the names of a
//! set of permissions, and the mention of a user.

use vstd::prelude::*;
use crate::text::{decimal_text, same_text};

verus! {

/// The names of the permissions whose bits are set in `bits`, as the chat
/// library lists them: in its own order, separated by commas, the last one
/// introduced by "and".
pub uninterp spec fn permission_names(bits: u64) -> Seq<char>;

/// Trusted: the `Display` of `serenity::all::Permissions` for the set with
/// exactly the bits of `bits`. The text depends on the bits alone; the
/// contract names it.
#[verifier::external_body]
pub(crate) fn permissions_text(bits: u64) -> (r: String)
    ensures
        r@ == permission_names(bits),
{
    serenity::all::Permissions::from_bits_retain(bits).to_string()
}

/// The text that mentions the user with the given id.
pub open spec fn mention_of(user_id: u64) -> Seq<char> {
    "<@"@ + decimal_text(user_id as nat) + ">"@
}

/// Trusted: `serenity::all::Mentionable::mention` on a `UserId`, rendered
/// with its `Display`: the id in base ten between `<@` and `>`. An id of zero
/// is no id: `UserId::new` refuses it.
#[verifier::external_body]
pub(crate) fn mention_text(user_id: u64) -> (r: String)
    requires
        user_id != 0,
    ensures
        r@ == mention_of(user_id),
{
    serenity::all::Mentionable::mention(&serenity::all::UserId::new(user_id)).to_string()
}

/// Whether `prefix` is the mention of the user `user_id`. No prefix is the
/// mention of the id zero, which no user has.
pub open spec fn prefix_is_mention(prefix: Seq<char>, user_id: u64) -> bool {
    user_id != 0 && prefix == mention_of(user_id)
}

/// Tells whether a command prefix is the mention of the user `user_id`.
pub fn is_mention_prefix(prefix: &str, user_id: u64) -> (r: bool)
    ensures
        r == prefix_is_mention(prefix@, user_id),
{
    if user_id == 0 {
        false
    } else {
        let mention = mention_text(user_id);
        same_text(prefix, mention.as_str())
    }
}

} // verus!
