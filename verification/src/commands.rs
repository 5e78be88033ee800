//! The replies of the slash commands `/gthr-add-type`, `/gthr-remove-type`,
//! `/gthr-channel-config`, `/gthr-check-permissions` and `/help`, and the
//! checks they make before touching the configuration.

use vstd::prelude::*;
use crate::reply::{
    Reply, ReplyView, Embed, EmbedView, FieldView, GATHER_COLOR, ephemeral, ephemeral_string,
    ephemeral_text, field,
};

verus! {

/// Discord's channel type number of a text channel.
pub const TEXT_CHANNEL_KIND: u8 = 0;

/// Discord's channel type number of a forum channel.
pub const FORUM_CHANNEL_KIND: u8 = 15;

/// The error of a command used outside a server.
pub open spec fn server_only_text() -> Seq<char> {
    "Command can only be used in a server"@
}

/// The guild a command was used in; an error when it was used outside one.
pub fn require_guild(guild_id: Option<u64>) -> (r: Result<u64, String>)
    ensures
        match guild_id {
            Some(g) => r == Ok::<u64, String>(g),
            None => r matches Err(e) && e@ == server_only_text(),
        },
{
    match guild_id {
        Some(g) => Ok(g),
        None => Err(String::from_str("Command can only be used in a server")),
    }
}

/// The reply of `/gthr-add-type`: whether the type was stored.
pub fn add_type_reply(stored: bool) -> (r: Reply)
    ensures
        r@ == ephemeral_text(
            if stored {
                "Configuration updated"@
            } else {
                "Failed to add type. Please try again later"@
            },
        ),
{
    if stored {
        ephemeral("Configuration updated")
    } else {
        ephemeral("Failed to add type. Please try again later")
    }
}

/// The reply of `/gthr-remove-type` for the type `name`: `Some(removed)` when
/// the removal ran (`removed` is whether the type existed), `None` when it
/// failed.
pub fn remove_type_reply(name: &String, outcome: Option<bool>) -> (r: Reply)
    ensures
        r@ == ephemeral_text(
            match outcome {
                Some(true) => "Removed type '"@ + name@ + "'"@,
                Some(false) => "No type named '"@ + name@ + "' exists"@,
                None => "Failed to remove type. Please try again later"@,
            },
        ),
{
    match outcome {
        Some(true) => {
            let mut t = String::from_str("Removed type '");
            t.append(name.as_str());
            t.append("'");
            ephemeral_string(t)
        },
        Some(false) => {
            let mut t = String::from_str("No type named '");
            t.append(name.as_str());
            t.append("' exists");
            ephemeral_string(t)
        },
        None => ephemeral("Failed to remove type. Please try again later"),
    }
}

/// Why the channel given as LFG forum cannot be used: it is not a server
/// channel (`kind` is `None`) or not a forum. `None` when it can be used.
pub fn forum_channel_problem(kind: Option<u8>) -> (r: Option<Reply>)
    ensures
        match kind {
            None => r matches Some(x) && x@ == ephemeral_text(
                "Forum channel must be a server channel"@,
            ),
            Some(k) => if k == FORUM_CHANNEL_KIND {
                r is None
            } else {
                r matches Some(x) && x@ == ephemeral_text("Forum must be a forum channel"@)
            },
        },
{
    match kind {
        None => Some(ephemeral("Forum channel must be a server channel")),
        Some(k) => if k == FORUM_CHANNEL_KIND {
            None
        } else {
            Some(ephemeral("Forum must be a forum channel"))
        },
    }
}

/// Why the channel given as command channel cannot be used: it is not a
/// server channel (`kind` is `None`) or not a text channel. `None` when it can
/// be used.
pub fn command_channel_problem(kind: Option<u8>) -> (r: Option<Reply>)
    ensures
        match kind {
            None => r matches Some(x) && x@ == ephemeral_text(
                "Command channel must be a server channel"@,
            ),
            Some(k) => if k == TEXT_CHANNEL_KIND {
                r is None
            } else {
                r matches Some(x) && x@ == ephemeral_text(
                    "Command channel must be a text channel"@,
                )
            },
        },
{
    match kind {
        None => Some(ephemeral("Command channel must be a server channel")),
        Some(k) => if k == TEXT_CHANNEL_KIND {
            None
        } else {
            Some(ephemeral("Command channel must be a text channel"))
        },
    }
}

/// The reply of `/gthr-channel-config` once the channels are stored, given the
/// reply of the permission check: a confirmation when the check found nothing
/// missing (its reply has text content), otherwise the check's report with a
/// heading as its content.
pub fn channel_config_reply(check: Reply) -> (r: Reply)
    ensures
        if check@.content is Some {
            r@ == ephemeral_text("Configuration updated, permissions have been checked"@)
        } else {
            r@ == (ReplyView {
                content: Some("Configuration updated\n## However, you should know that..."@),
                ..check@
            })
        },
{
    match check.content {
        Some(_) => ephemeral("Configuration updated, permissions have been checked"),
        None => Reply {
            content: Some(
                String::from_str("Configuration updated\n## However, you should know that..."),
            ),
            embed: check.embed,
            ephemeral: check.ephemeral,
        },
    }
}

/// The reply of `/help`.
pub open spec fn help_view() -> ReplyView {
    ReplyView {
        content: None,
        embed: Some(
            EmbedView {
                color: GATHER_COLOR,
                title: Some("Available commands"@),
                description: Some("Gather consists of slash commands:"@),
                fields: seq![
                    FieldView { name: "User"@, value: "`/help`\n`/lfg-create`"@, inline: true },
                    FieldView {
                        name: "Admin"@,
                        value: "`/gthr-add-type`\n`/gthr-remove-type`\n`/gthr-channel-config`\n`/gthr-check-permissions`"@,
                        inline: true,
                    },
                    FieldView {
                        name: "Server Setup"@,
                        value: "Add a type and run the channel config to get started. It is highly recommended to run `/gthr-check-permissions` after each channel config change to ensure full functionality"@,
                        inline: false,
                    },
                    FieldView {
                        name: "Information"@,
                        value: "Forum posts are warned as inactive after one hour.\nAfter a warning, forum posts with no further activity are deleted in 30 minutes."@,
                        inline: false,
                    },
                ],
                footer: Some("/help"@),
            },
        ),
        ephemeral: true,
    }
}

/// The reply of `/help`: the commands, the setup steps and the inactivity
/// timers.
pub fn help_reply() -> (r: Reply)
    ensures
        r@ == help_view(),
{
    let mut fields = Vec::new();
    fields.push(field("User", String::from_str("`/help`\n`/lfg-create`"), true));
    fields.push(
        field(
            "Admin",
            String::from_str(
                "`/gthr-add-type`\n`/gthr-remove-type`\n`/gthr-channel-config`\n`/gthr-check-permissions`",
            ),
            true,
        ),
    );
    fields.push(
        field(
            "Server Setup",
            String::from_str(
                "Add a type and run the channel config to get started. It is highly recommended to run `/gthr-check-permissions` after each channel config change to ensure full functionality",
            ),
            false,
        ),
    );
    fields.push(
        field(
            "Information",
            String::from_str(
                "Forum posts are warned as inactive after one hour.\nAfter a warning, forum posts with no further activity are deleted in 30 minutes.",
            ),
            false,
        ),
    );
    let r = Reply {
        content: None,
        embed: Some(
            Embed {
                color: GATHER_COLOR,
                title: Some(String::from_str("Available commands")),
                description: Some(String::from_str("Gather consists of slash commands:")),
                fields,
                footer: Some(String::from_str("/help")),
            },
        ),
        ephemeral: true,
    };
    assert(r@.embed->0.fields =~= help_view().embed->0.fields);
    r
}

} // verus!
