//! What serenity computes from Discord ids.

use vstd::prelude::*;

verus! {

/// The text that serenity's `Timestamp` `Display` (RFC 3339) writes for the
/// creation time of the account `user_id`, as `UserId::created_at` reads it
/// from the snowflake.
pub uninterp spec fn account_created_text(user_id: u64) -> Seq<char>;

/// When the account `user_id` was created, as text: serenity's
/// `UserId::new(user_id).created_at().to_string()`. `UserId::new` panics on 0,
/// which is no snowflake.
#[verifier::external_body]
pub fn account_created(user_id: u64) -> (text: String)
    requires
        user_id != 0,
    ensures
        text@ == account_created_text(user_id),
{
    serenity::model::id::UserId::new(user_id).created_at().to_string()
}

} // verus!
