//! `/lfg-create`: the checks before a session is opened, the forum post and
//! the role announcement it creates, and what is undone when a later step
//! fails. The command alternates Discord requests with decisions; the
//! decisions are the step function here, the requests are made by the caller.

use vstd::prelude::*;
use crate::guild_config::{GuildConfigManager, role_of};
use crate::reply::{
    Reply, ReplyView, Embed, EmbedView, FieldView, GATHER_COLOR, ephemeral, ephemeral_text, field,
    field_is,
};
use crate::session::Session;
use crate::text::{channel_mention, channel_mention_text, user_mention, user_mention_text,
    role_mention, role_mention_text};

verus! {

/// What a member asked `/lfg-create` for.
#[derive(Debug)]
pub struct LfgRequest {
    /// The server the command was used in.
    pub guild_id: u64,
    /// The channel the command was used in; the announcement goes there.
    pub channel_id: u64,
    pub author_id: u64,
    pub author_name: String,
    pub lfg_type: String,
    pub players: String,
    pub message: Option<String>,
}

/// The opening message of a new forum post: its title, a welcome embed and
/// the button that marks the post as completed.
#[derive(Debug)]
pub struct ForumPost {
    pub title: String,
    pub embed: Embed,
    pub button_id: String,
    pub button_label: String,
}

/// Where the command stands.
#[derive(Debug)]
pub enum LfgState {
    /// Nothing done yet.
    Start,
    /// Waiting to learn whether the configured command channel exists.
    CheckingCommandChannel { channel_id: u64 },
    /// Waiting to learn whether the configured forum exists.
    CheckingForum { forum_id: u64 },
    /// Waiting for the forum post to be created.
    CreatingPost { forum_id: u64, role_id: u64 },
    /// Waiting for the announcement to be sent.
    Announcing { forum_id: u64, role_id: u64, post_id: u64, complete_message_id: u64 },
    /// Waiting to learn whether the new post still exists.
    CheckingPost { session: Session },
    /// Waiting for the session to be stored.
    Storing { session: Session },
    /// The command is over.
    Finished,
}

/// What the caller learned from the last request.
#[derive(Debug)]
pub enum LfgEvent {
    /// The command was invoked.
    Started,
    /// The channel asked for could be fetched (`true`) or not.
    ChannelFetched { ok: bool },
    /// The forum post was created; its first message holds the button.
    PostCreated { post_id: u64, complete_message_id: u64 },
    /// The announcement was sent as message `message_id`; `now` is the
    /// current time in seconds since the Unix epoch, the session's first
    /// activity.
    Announced { message_id: u64, now: i64 },
    /// The new post could still be fetched (`true`) or not.
    PostChecked { exists: bool },
    /// The session was stored (`true`) or storing it failed.
    Stored { ok: bool },
}

/// What the caller is to do next.
#[derive(Debug)]
pub enum LfgAction {
    /// Fetch the channel and report `ChannelFetched`.
    FetchChannel { channel_id: u64 },
    /// Create the post in the forum and report `PostCreated`.
    CreatePost { forum_id: u64, post: ForumPost },
    /// Send the announcement in the command's channel and report `Announced`.
    Announce { reply: Reply },
    /// Fetch the new post and report `PostChecked`.
    CheckPost { post_id: u64 },
    /// Store the session and report `Stored`.
    Store { session: Session },
    /// Send the reply; the command is over.
    Respond { reply: Reply },
    /// Send the reply and delete the session's announcement; the command is
    /// over.
    AbandonAnnouncement { reply: Reply, session: Session },
    /// Delete the session's announcement and its forum post, then send the
    /// reply; the command is over.
    AbandonSession { reply: Reply, session: Session },
    /// Nothing more to do.
    Done,
}

/// The reply when the server's channels are not (or no longer) configured.
pub open spec fn unconfigured_text() -> Seq<char> {
    "This server has no channels configured. Ask an administrator to configure channels using '/gthr-channel-config'"@
}

/// The reply when the command is used outside the configured channel.
pub open spec fn wrong_channel_text(channel_id: u64) -> Seq<char> {
    "Command can only be used inside "@ + channel_mention_text(channel_id)
}

/// The reply when the requested type is not known.
pub open spec fn unknown_type_text() -> Seq<char> {
    "Unknown LFG type, check autocomplete for available options"@
}

/// The reply when the forum vanished while the post was being created.
pub open spec fn forum_deleted_text() -> Seq<char> {
    "The LFG forum was deleted while creating your post. Ask an administrator to configure one using '/gthr-channel-config'"@
}

/// The reply when the session could not be stored.
pub open spec fn store_failed_text() -> Seq<char> {
    "Failed to create session. Please try again later"@
}

/// The title of the forum post: the type and the author's name.
pub open spec fn post_title(req: LfgRequest) -> Seq<char> {
    req.lfg_type@ + " "@ + req.author_name@
}

/// The welcome embed of a new forum post.
pub open spec fn welcome_embed() -> EmbedView {
    EmbedView {
        color: GATHER_COLOR,
        title: Some("Welcome!"@),
        description: Some(
            "When you are done, please use the button below to mark this forum post as completed"@,
        ),
        fields: Seq::empty(),
        footer: None,
    }
}

/// The id of the completion button.
pub open spec fn complete_button_id() -> Seq<char> {
    "gthr_complete"@
}

/// The announcement: the role ping and an embed with the host, the players
/// wanted, the post and the optional message.
pub open spec fn announcement_view(req: LfgRequest, role_id: u64, post_id: u64) -> ReplyView {
    ReplyView {
        content: Some(role_mention_text(role_id)),
        embed: Some(
            EmbedView {
                color: GATHER_COLOR,
                title: Some("\u{1F50D} Looking For Group: "@ + req.lfg_type@),
                description: None,
                fields: seq![
                    FieldView { name: "Host"@, value: user_mention_text(req.author_id), inline: false },
                    FieldView { name: "Players needed"@, value: req.players@, inline: false },
                    FieldView { name: "Forum Post"@, value: channel_mention_text(post_id), inline: false },
                ],
                footer: match req.message {
                    Some(m) => Some("More info: "@ + m@),
                    None => None,
                },
            },
        ),
        ephemeral: false,
    }
}

/// The announcement pings the role `role_id` and labels each value with its
/// name: the host is the author, the players wanted are what the member
/// asked for, and the forum post is the created post.
pub open spec fn announces(r: ReplyView, req: LfgRequest, role_id: u64, post_id: u64) -> bool {
    &&& r.content == Some(role_mention_text(role_id))
    &&& !r.ephemeral
    &&& r.embed matches Some(e) && {
        &&& field_is(e.fields, "Host"@, user_mention_text(req.author_id))
        &&& field_is(e.fields, "Players needed"@, req.players@)
        &&& field_is(e.fields, "Forum Post"@, channel_mention_text(post_id))
    }
}

/// The announcement for a created post pings the type's role and pairs each
/// field name with its value: "Host" with the author's mention, "Players
/// needed" with the players text the member gave, "Forum Post" with the
/// mention of the created post.
pub proof fn law_announcement_fields(req: LfgRequest, role_id: u64, post_id: u64)
    ensures
        announces(announcement_view(req, role_id, post_id), req, role_id, post_id),
{
    reveal_strlit("Host");
    reveal_strlit("Players needed");
    reveal_strlit("Forum Post");
    let e = announcement_view(req, role_id, post_id).embed->0;
    assert(e.fields[0].name == "Host"@);
    assert(e.fields[1].name == "Players needed"@);
    assert(e.fields[2].name == "Forum Post"@);
    assert("Host"@.len() != "Players needed"@.len());
    assert("Host"@.len() != "Forum Post"@.len());
    assert("Forum Post"@.len() != "Players needed"@.len());
}

/// The command ends with the reply `text`, seen only by its invoker.
pub open spec fn responds(r: (LfgState, LfgAction), text: Seq<char>) -> bool {
    &&& r.0 is Finished
    &&& r.1 matches LfgAction::Respond { reply }
    &&& reply@ == ephemeral_text(text)
}

fn unconfigured() -> (r: Reply)
    ensures
        r@ == ephemeral_text(unconfigured_text()),
{
    ephemeral(
        "This server has no channels configured. Ask an administrator to configure channels using '/gthr-channel-config'",
    )
}

fn forum_post(req: &LfgRequest) -> (p: ForumPost)
    ensures
        p.title@ == post_title(*req),
        p.embed@ == welcome_embed(),
        p.button_id@ == complete_button_id(),
        p.button_label@ == "Mark as complete \u{2611}\u{FE0F}"@,
{
    let mut title = req.lfg_type.clone();
    title.append(" ");
    title.append(req.author_name.as_str());
    let embed = Embed {
        color: GATHER_COLOR,
        title: Some(String::from_str("Welcome!")),
        description: Some(
            String::from_str(
                "When you are done, please use the button below to mark this forum post as completed",
            ),
        ),
        fields: Vec::new(),
        footer: None,
    };
    assert(embed@.fields =~= welcome_embed().fields);
    ForumPost {
        title,
        embed,
        button_id: String::from_str("gthr_complete"),
        button_label: String::from_str("Mark as complete \u{2611}\u{FE0F}"),
    }
}

fn announcement(req: &LfgRequest, role_id: u64, post_id: u64) -> (r: Reply)
    ensures
        r@ == announcement_view(*req, role_id, post_id),
        announces(r@, *req, role_id, post_id),
{
    proof {
        law_announcement_fields(*req, role_id, post_id);
    }
    let mut title = String::from_str("\u{1F50D} Looking For Group: ");
    title.append(req.lfg_type.as_str());
    let mut fields = Vec::new();
    fields.push(field("Host", user_mention(req.author_id), false));
    fields.push(field("Players needed", req.players.clone(), false));
    fields.push(field("Forum Post", channel_mention(post_id), false));
    let footer = match &req.message {
        Some(m) => {
            let mut f = String::from_str("More info: ");
            f.append(m.as_str());
            Some(f)
        },
        None => None,
    };
    let r = Reply {
        content: Some(role_mention(role_id)),
        embed: Some(
            Embed { color: GATHER_COLOR, title: Some(title), description: None, fields, footer },
        ),
        ephemeral: false,
    };
    assert(r@.embed->0.fields =~= announcement_view(*req, role_id, post_id).embed->0.fields);
    r
}

/// One step of `/lfg-create`: from where the command stands and what the last
/// request gave, the next state and what the caller is to do.
///
/// The command channel must be configured, reachable and the channel the
/// command was used in; the forum must be configured and reachable; the type
/// must be known. Then the post is created, the role is pinged, the session
/// is opened, and it is stored if the post still exists. A vanished post
/// withdraws the announcement; a failed store withdraws the announcement
/// and the post.
pub fn lfg_step(
    config: &GuildConfigManager,
    req: &LfgRequest,
    state: LfgState,
    event: LfgEvent,
) -> (r: (LfgState, LfgAction))
    ensures
        match (state, event) {
            (LfgState::Start, LfgEvent::Started) => match config.command_channel_of(req.guild_id) {
                None => responds(r, unconfigured_text()),
                Some(c) => r.0 == (LfgState::CheckingCommandChannel { channel_id: c }) && r.1 == (
                LfgAction::FetchChannel { channel_id: c }),
            },
            (LfgState::CheckingCommandChannel { channel_id }, LfgEvent::ChannelFetched { ok }) => {
                if !ok {
                    responds(r, unconfigured_text())
                } else if channel_id != req.channel_id {
                    responds(r, wrong_channel_text(channel_id))
                } else {
                    match config.forum_of(req.guild_id) {
                        None => responds(r, unconfigured_text()),
                        Some(f) => r.0 == (LfgState::CheckingForum { forum_id: f }) && r.1 == (
                        LfgAction::FetchChannel { channel_id: f }),
                    }
                }
            },
            (LfgState::CheckingForum { forum_id }, LfgEvent::ChannelFetched { ok }) => {
                if !ok {
                    responds(r, unconfigured_text())
                } else {
                    match role_of(config.types(), req.guild_id, req.lfg_type@) {
                        None => responds(r, unknown_type_text()),
                        Some(role_id) => {
                            &&& r.0 == (LfgState::CreatingPost { forum_id, role_id })
                            &&& r.1 matches LfgAction::CreatePost { forum_id: f, post }
                            &&& f == forum_id
                            &&& post.title@ == post_title(*req)
                            &&& post.embed@ == welcome_embed()
                            &&& post.button_id@ == complete_button_id()
                            &&& post.button_label@ == "Mark as complete \u{2611}\u{FE0F}"@
                        },
                    }
                }
            },
            (
                LfgState::CreatingPost { forum_id, role_id },
                LfgEvent::PostCreated { post_id, complete_message_id },
            ) => {
                &&& r.0 == (LfgState::Announcing { forum_id, role_id, post_id, complete_message_id })
                &&& r.1 matches LfgAction::Announce { reply }
                &&& reply@ == announcement_view(*req, role_id, post_id)
                &&& announces(reply@, *req, role_id, post_id)
            },
            (
                LfgState::Announcing { forum_id, role_id, post_id, complete_message_id },
                LfgEvent::Announced { message_id, now },
            ) => {
                &&& r.0 matches LfgState::CheckingPost { session }
                &&& session == Session::opened(
                    post_id,
                    req.guild_id,
                    forum_id,
                    req.author_id,
                    req.channel_id,
                    message_id,
                    complete_message_id,
                    now,
                )
                &&& r.1 == (LfgAction::CheckPost { post_id })
            },
            (LfgState::CheckingPost { session }, LfgEvent::PostChecked { exists }) => if exists {
                r.0 == (LfgState::Storing { session }) && r.1 == (LfgAction::Store { session })
            } else {
                &&& r.0 is Finished
                &&& r.1 matches LfgAction::AbandonAnnouncement { reply, session: s }
                &&& s == session
                &&& reply@ == ephemeral_text(forum_deleted_text())
            },
            (LfgState::Storing { session }, LfgEvent::Stored { ok }) => if ok {
                r.0 is Finished && r.1 is Done
            } else {
                &&& r.0 is Finished
                &&& r.1 matches LfgAction::AbandonSession { reply, session: s }
                &&& s == session
                &&& reply@ == ephemeral_text(store_failed_text())
            },
            _ => r.0 is Finished && r.1 is Done,
        },
{
    match (state, event) {
        (LfgState::Start, LfgEvent::Started) => match config.get_lfg_command_channel(req.guild_id) {
            None => (LfgState::Finished, LfgAction::Respond { reply: unconfigured() }),
            Some(c) => (
                LfgState::CheckingCommandChannel { channel_id: c },
                LfgAction::FetchChannel { channel_id: c },
            ),
        },
        (LfgState::CheckingCommandChannel { channel_id }, LfgEvent::ChannelFetched { ok }) => {
            if !ok {
                (LfgState::Finished, LfgAction::Respond { reply: unconfigured() })
            } else if channel_id != req.channel_id {
                let mut text = String::from_str("Command can only be used inside ");
                let mention = channel_mention(channel_id);
                text.append(mention.as_str());
                (
                    LfgState::Finished,
                    LfgAction::Respond { reply: crate::reply::ephemeral_string(text) },
                )
            } else {
                match config.get_forum_id(req.guild_id) {
                    None => (LfgState::Finished, LfgAction::Respond { reply: unconfigured() }),
                    Some(f) => (
                        LfgState::CheckingForum { forum_id: f },
                        LfgAction::FetchChannel { channel_id: f },
                    ),
                }
            }
        },
        (LfgState::CheckingForum { forum_id }, LfgEvent::ChannelFetched { ok }) => {
            if !ok {
                (LfgState::Finished, LfgAction::Respond { reply: unconfigured() })
            } else {
                match config.get_role_from_name(req.guild_id, req.lfg_type.clone()) {
                    None => (
                        LfgState::Finished,
                        LfgAction::Respond {
                            reply: ephemeral(
                                "Unknown LFG type, check autocomplete for available options",
                            ),
                        },
                    ),
                    Some(role_id) => (
                        LfgState::CreatingPost { forum_id, role_id },
                        LfgAction::CreatePost { forum_id, post: forum_post(req) },
                    ),
                }
            }
        },
        (
            LfgState::CreatingPost { forum_id, role_id },
            LfgEvent::PostCreated { post_id, complete_message_id },
        ) => (
            LfgState::Announcing { forum_id, role_id, post_id, complete_message_id },
            LfgAction::Announce { reply: announcement(req, role_id, post_id) },
        ),
        (
            LfgState::Announcing { forum_id, role_id, post_id, complete_message_id },
            LfgEvent::Announced { message_id, now },
        ) => {
            let session = Session::new_at(
                post_id,
                req.guild_id,
                forum_id,
                req.author_id,
                req.channel_id,
                message_id,
                complete_message_id,
                now,
            );
            (LfgState::CheckingPost { session }, LfgAction::CheckPost { post_id })
        },
        (LfgState::CheckingPost { session }, LfgEvent::PostChecked { exists }) => {
            if exists {
                (LfgState::Storing { session }, LfgAction::Store { session })
            } else {
                (
                    LfgState::Finished,
                    LfgAction::AbandonAnnouncement {
                        reply: ephemeral(
                            "The LFG forum was deleted while creating your post. Ask an administrator to configure one using '/gthr-channel-config'",
                        ),
                        session,
                    },
                )
            }
        },
        (LfgState::Storing { session }, LfgEvent::Stored { ok }) => {
            if ok {
                (LfgState::Finished, LfgAction::Done)
            } else {
                (
                    LfgState::Finished,
                    LfgAction::AbandonSession {
                        reply: ephemeral("Failed to create session. Please try again later"),
                        session,
                    },
                )
            }
        },
        _ => (LfgState::Finished, LfgAction::Done),
    }
}

} // verus!
