//! How Gather reacts to Discord events: the completion button, messages in
//! posts (activity), deleted posts and deleted forums. Each event leads to
//! store operations and Discord requests made by the caller; the decisions
//! between them are the step function here.

use vstd::prelude::*;
use crate::commands::FORUM_CHANNEL_KIND;
use crate::lfg::complete_button_id;
use crate::reply::{Reply, Embed, EmbedView, GATHER_COLOR, ephemeral, ephemeral_text};
use crate::session::Session;
use crate::text::{user_mention, user_mention_text};

verus! {

/// The events Gather acts on, with what it reads of them.
#[derive(Debug)]
pub enum BotEvent {
    /// A message component (the completion button) was used.
    ButtonPressed { channel_id: u64, message_id: u64, user_id: u64 },
    /// A message was posted.
    MessagePosted { channel_id: u64, author_is_bot: bool },
    /// A thread (a forum post) was deleted.
    ThreadDeleted { thread_id: u64 },
    /// A channel was deleted; `kind` is its Discord channel type number.
    ChannelDeleted { channel_id: u64, kind: u8 },
    /// Anything else.
    Other,
}

/// Where the handling of an event stands.
#[derive(Debug)]
pub enum EventState {
    /// Nothing done yet.
    Start,
    /// Waiting for the session of the post to be marked completed.
    Marking { channel_id: u64, message_id: u64, user_id: u64 },
    /// Waiting for the activity of the post to be recorded.
    Touching { channel_id: u64 },
    /// Waiting for the session of a deleted post.
    LookingUpThread { thread_id: u64 },
    /// Waiting for the sessions of a deleted forum.
    LookingUpForum { forum_id: u64 },
    /// The handling is over.
    Finished,
}

/// What the caller learned from the last operation.
#[derive(Debug)]
pub enum EventInput {
    /// The event arrived.
    Received { event: BotEvent },
    /// Marking completed found a session (`Some(true)`), found none
    /// (`Some(false)`) or failed (`None`).
    Marked { found: Option<bool> },
    /// The activity was recorded; the pending warning message, if any.
    ActivityUpdated { warning: Option<u64> },
    /// The session of the deleted post, if any.
    ThreadSession { session: Option<Session> },
    /// The sessions of the deleted forum.
    ForumSessions { sessions: Vec<Session> },
}

/// What the caller is to do next.
#[derive(Debug)]
pub enum EventAction {
    /// Mark the session of the post completed and report `Marked`.
    MarkCompleted { post_id: u64 },
    /// Edit the button's message to show the post completed (text, embed and
    /// the button `button_id`, disabled, labelled `button_label`), then
    /// acknowledge the press.
    ShowCompleted {
        channel_id: u64,
        message_id: u64,
        content: String,
        embed: Embed,
        button_id: String,
        button_label: String,
    },
    /// Answer the press with the reply.
    RespondToPress { reply: Reply },
    /// Record activity in the post and report `ActivityUpdated`.
    UpdateActivity { post_id: u64 },
    /// Delete the message (a failure is only logged).
    DeleteMessage { channel_id: u64, message_id: u64 },
    /// Look up the session of the post and report `ThreadSession`.
    LookupSession { post_id: u64 },
    /// Look up the sessions of the forum and report `ForumSessions`.
    LookupForum { forum_id: u64 },
    /// Delete the session's announcement, then remove the session.
    CloseSession { session: Session },
    /// Delete the announcement of every session, then remove the forum's
    /// sessions.
    CloseForum { forum_id: u64, sessions: Vec<Session> },
    /// Nothing more to do.
    Done,
}

/// The embed shown on a completed post's button message.
pub open spec fn completed_embed() -> EmbedView {
    EmbedView {
        color: GATHER_COLOR,
        title: Some("Completed"@),
        description: Some("Forum post marked as completed"@),
        fields: Seq::empty(),
        footer: None,
    }
}

/// The answer to a press in a post Gather has no session of.
pub open spec fn orphan_text() -> Seq<char> {
    "Gather does not know this LFG session. Please remove manually when done"@
}

/// One step of handling an event.
pub fn event_step(state: EventState, input: EventInput) -> (r: (EventState, EventAction))
    ensures
        match (state, input) {
            (EventState::Start, EventInput::Received { event }) => match event {
                BotEvent::ButtonPressed { channel_id, message_id, user_id } => r.0 == (
                EventState::Marking { channel_id, message_id, user_id }) && r.1 == (
                EventAction::MarkCompleted { post_id: channel_id }),
                BotEvent::MessagePosted { channel_id, author_is_bot } => if author_is_bot {
                    r.0 is Finished && r.1 is Done
                } else {
                    r.0 == (EventState::Touching { channel_id }) && r.1 == (
                    EventAction::UpdateActivity { post_id: channel_id })
                },
                BotEvent::ThreadDeleted { thread_id } => r.0 == (EventState::LookingUpThread {
                    thread_id,
                }) && r.1 == (EventAction::LookupSession { post_id: thread_id }),
                BotEvent::ChannelDeleted { channel_id, kind } => if kind == FORUM_CHANNEL_KIND {
                    r.0 == (EventState::LookingUpForum { forum_id: channel_id }) && r.1 == (
                    EventAction::LookupForum { forum_id: channel_id })
                } else {
                    r.0 is Finished && r.1 is Done
                },
                BotEvent::Other => r.0 is Finished && r.1 is Done,
            },
            (EventState::Marking { channel_id, message_id, user_id }, EventInput::Marked { found }) => {
                &&& r.0 is Finished
                &&& match found {
                    Some(true) => {
                        &&& r.1 matches EventAction::ShowCompleted {
                            channel_id: c,
                            message_id: m,
                            content,
                            embed,
                            button_id,
                            button_label,
                        }
                        &&& c == channel_id
                        &&& m == message_id
                        &&& content@ == "Completed by "@ + user_mention_text(user_id)
                        &&& embed@ == completed_embed()
                        &&& button_id@ == complete_button_id()
                        &&& button_label@ == "Completed"@
                    },
                    Some(false) => r.1 matches EventAction::RespondToPress { reply } && reply@
                        == ephemeral_text(orphan_text()),
                    None => r.1 is Done,
                }
            },
            (EventState::Touching { channel_id }, EventInput::ActivityUpdated { warning }) => {
                &&& r.0 is Finished
                &&& match warning {
                    Some(m) => r.1 == (EventAction::DeleteMessage { channel_id, message_id: m }),
                    None => r.1 is Done,
                }
            },
            (EventState::LookingUpThread { thread_id }, EventInput::ThreadSession { session }) => {
                &&& r.0 is Finished
                &&& match session {
                    Some(s) => r.1 == (EventAction::CloseSession { session: s }),
                    None => r.1 is Done,
                }
            },
            (EventState::LookingUpForum { forum_id }, EventInput::ForumSessions { sessions }) => {
                &&& r.0 is Finished
                &&& if sessions@.len() > 0 {
                    r.1 matches EventAction::CloseForum { forum_id: f, sessions: v } && f == forum_id
                        && v@ == sessions@
                } else {
                    r.1 is Done
                }
            },
            _ => r.0 is Finished && r.1 is Done,
        },
{
    match (state, input) {
        (EventState::Start, EventInput::Received { event }) => match event {
            BotEvent::ButtonPressed { channel_id, message_id, user_id } => (
                EventState::Marking { channel_id, message_id, user_id },
                EventAction::MarkCompleted { post_id: channel_id },
            ),
            BotEvent::MessagePosted { channel_id, author_is_bot } => if author_is_bot {
                (EventState::Finished, EventAction::Done)
            } else {
                (EventState::Touching { channel_id }, EventAction::UpdateActivity { post_id: channel_id })
            },
            BotEvent::ThreadDeleted { thread_id } => (
                EventState::LookingUpThread { thread_id },
                EventAction::LookupSession { post_id: thread_id },
            ),
            BotEvent::ChannelDeleted { channel_id, kind } => if kind == FORUM_CHANNEL_KIND {
                (
                    EventState::LookingUpForum { forum_id: channel_id },
                    EventAction::LookupForum { forum_id: channel_id },
                )
            } else {
                (EventState::Finished, EventAction::Done)
            },
            BotEvent::Other => (EventState::Finished, EventAction::Done),
        },
        (EventState::Marking { channel_id, message_id, user_id }, EventInput::Marked { found }) => {
            match found {
                Some(true) => {
                    let mut content = String::from_str("Completed by ");
                    let mention = user_mention(user_id);
                    content.append(mention.as_str());
                    let embed = Embed {
                        color: GATHER_COLOR,
                        title: Some(String::from_str("Completed")),
                        description: Some(String::from_str("Forum post marked as completed")),
                        fields: Vec::new(),
                        footer: None,
                    };
                    assert(embed@.fields =~= completed_embed().fields);
                    (
                        EventState::Finished,
                        EventAction::ShowCompleted {
                            channel_id,
                            message_id,
                            content,
                            embed,
                            button_id: String::from_str("gthr_complete"),
                            button_label: String::from_str("Completed"),
                        },
                    )
                },
                Some(false) => (
                    EventState::Finished,
                    EventAction::RespondToPress {
                        reply: ephemeral(
                            "Gather does not know this LFG session. Please remove manually when done",
                        ),
                    },
                ),
                None => (EventState::Finished, EventAction::Done),
            }
        },
        (EventState::Touching { channel_id }, EventInput::ActivityUpdated { warning }) => {
            match warning {
                Some(m) => (
                    EventState::Finished,
                    EventAction::DeleteMessage { channel_id, message_id: m },
                ),
                None => (EventState::Finished, EventAction::Done),
            }
        },
        (EventState::LookingUpThread { thread_id }, EventInput::ThreadSession { session }) => {
            match session {
                Some(s) => (EventState::Finished, EventAction::CloseSession { session: s }),
                None => (EventState::Finished, EventAction::Done),
            }
        },
        (EventState::LookingUpForum { forum_id }, EventInput::ForumSessions { sessions }) => {
            if sessions.len() > 0 {
                (EventState::Finished, EventAction::CloseForum { forum_id, sessions })
            } else {
                (EventState::Finished, EventAction::Done)
            }
        },
        _ => (EventState::Finished, EventAction::Done),
    }
}

} // verus!
