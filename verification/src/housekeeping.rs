//! The periodic housekeeping: the inactivity warning posted in a session's
//! forum post, and the notice posted when the post cannot be deleted for lack
//! of permissions.

use vstd::prelude::*;
use crate::session::Session;
use crate::text::{user_mention, user_mention_text, message_link, message_link_text};

verus! {

/// Seconds between two housekeeping cycles.
pub const CYCLE_TIME_SECONDS: u64 = 60;

/// The warning posted in an inactive session's forum post: it pings the
/// author and links the completion button.
pub open spec fn warning_text(s: Session) -> Seq<char> {
    "Hey "@ + user_mention_text(s.author_id)
        + "\nThis post has been inactive for an hour. If I don't see any further activity in this forum post within the next 30 minutes, it will be deleted.\nPlease mark this post as completed if you are done here: "@
        + message_link_text(s.guild_id, s.post_id, s.complete_message_id)
        + "\n\n-# Send a message to mark this post as active"@
}

/// The inactivity warning for a session.
pub fn warning_message(session: &Session) -> (t: String)
    ensures
        t@ == warning_text(*session),
{
    let mut t = String::from_str("Hey ");
    let mention = user_mention(session.author_id);
    t.append(mention.as_str());
    t.append(
        "\nThis post has been inactive for an hour. If I don't see any further activity in this forum post within the next 30 minutes, it will be deleted.\nPlease mark this post as completed if you are done here: ",
    );
    let link = message_link(session.guild_id, session.post_id, session.complete_message_id);
    t.append(link.as_str());
    t.append("\n\n-# Send a message to mark this post as active");
    t
}

/// The error text of a deletion refused for lack of permissions.
pub open spec fn missing_permissions_error() -> Seq<char> {
    "Missing Permissions"@
}

/// The notice posted in a post that could not be deleted for lack of
/// permissions.
pub open spec fn permission_notice_text() -> Seq<char> {
    "Gather could not delete this post because it is missing permissions. Please ask an Administrator to check my permissions."@
}

/// After deleting a session's post failed with `error_text`: the notice to
/// post, when the failure was for lack of permissions and the session has
/// not had the notice yet; none otherwise.
pub fn permission_notice(session: &Session, error_text: &String) -> (r: Option<String>)
    ensures
        (r is Some) == (error_text@ == missing_permissions_error()
            && !session.permission_warning_sent),
        r matches Some(t) ==> t@ == permission_notice_text(),
{
    let missing = String::from_str("Missing Permissions");
    if *error_text == missing && !session.permission_warning_sent {
        Some(
            String::from_str(
                "Gather could not delete this post because it is missing permissions. Please ask an Administrator to check my permissions.",
            ),
        )
    } else {
        None
    }
}

} // verus!
