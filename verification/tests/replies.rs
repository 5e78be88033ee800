use gather::commands::{
    add_type_reply, channel_config_reply, command_channel_problem, forum_channel_problem,
    help_reply, remove_type_reply, require_guild,
};
use gather::permissions::{
    channel_lookup_reply, missing_command_channel_permissions, missing_forum_permissions,
    permissions_report, ChannelLookup, CREATE_PUBLIC_THREADS, EMBED_LINKS, MANAGE_CHANNELS,
    MANAGE_MESSAGES, MANAGE_THREADS,
    MENTION_EVERYONE, READ_MESSAGE_HISTORY, SEND_MESSAGES, SEND_MESSAGES_IN_THREADS, VIEW_CHANNEL,
};
use gather::reply::{join, Reply, GATHER_COLOR};

fn text(r: &Reply) -> &str {
    r.content.as_deref().unwrap()
}

const ALL_FORUM: u64 = VIEW_CHANNEL
    | SEND_MESSAGES
    | SEND_MESSAGES_IN_THREADS
    | CREATE_PUBLIC_THREADS
    | MANAGE_CHANNELS
    | MANAGE_THREADS
    | EMBED_LINKS
    | READ_MESSAGE_HISTORY;
const ALL_COMMAND: u64 = VIEW_CHANNEL
    | SEND_MESSAGES
    | EMBED_LINKS
    | MANAGE_MESSAGES
    | MENTION_EVERYONE
    | READ_MESSAGE_HISTORY;

#[test]
fn permission_bits_are_discords() {
    assert_eq!(MANAGE_CHANNELS, 16);
    assert_eq!(VIEW_CHANNEL, 1024);
    assert_eq!(SEND_MESSAGES, 2048);
    assert_eq!(MANAGE_MESSAGES, 8192);
    assert_eq!(EMBED_LINKS, 16384);
    assert_eq!(MANAGE_THREADS, 1 << 34);
    assert_eq!(READ_MESSAGE_HISTORY, 65536);
    assert_eq!(MENTION_EVERYONE, 131072);
    assert_eq!(CREATE_PUBLIC_THREADS, 1 << 35);
    assert_eq!(SEND_MESSAGES_IN_THREADS, 1 << 38);
}

#[test]
fn join_lines() {
    assert_eq!(join(&vec![], "\n"), "");
    assert_eq!(join(&vec!["a"], "\n"), "a");
    assert_eq!(join(&vec!["a", "b", "c"], ", "), "a, b, c");
}

#[test]
fn missing_permission_lists() {
    assert!(missing_forum_permissions(ALL_FORUM).is_empty());
    assert!(missing_command_channel_permissions(ALL_COMMAND).is_empty());
    assert_eq!(
        missing_forum_permissions(0),
        vec![
            "- View Channel",
            "- Create Posts / Send Messages",
            "- Create Public Threads",
            "- Manage Channels",
            "- Manage Threads",
            "- Embed Links",
            "- Read Message History"
        ]
    );
    assert_eq!(
        missing_forum_permissions(ALL_FORUM & !SEND_MESSAGES_IN_THREADS),
        vec!["- Create Posts / Send Messages"]
    );
    assert_eq!(
        missing_command_channel_permissions(0),
        vec![
            "- View Channel",
            "- Send Messages",
            "- Embed Links",
            "- Manage Messages",
            "- Mention @everyone, @here and All Roles",
            "- Read Message History"
        ]
    );
}

#[test]
fn report_with_everything_granted() {
    let r = permissions_report(1, u64::MAX, 2, u64::MAX);
    assert_eq!(text(&r), "Gather has all necessary permissions");
    assert!(r.embed.is_none());
    assert!(r.ephemeral);
}

#[test]
fn report_confirms_exactly_the_needed_permissions() {
    let r = permissions_report(1, ALL_FORUM, 2, ALL_COMMAND);
    assert_eq!(text(&r), "Gather has all necessary permissions");
    assert!(r.embed.is_none());
    let r = permissions_report(1, ALL_FORUM & !VIEW_CHANNEL, 2, ALL_COMMAND);
    assert!(r.content.is_none());
    let e = r.embed.unwrap();
    assert_eq!(e.fields.len(), 1);
    assert_eq!(e.fields[0].name, "LFG Forum Channel");
}

#[test]
fn report_requires_manage_threads_and_embed_links() {
    let r = permissions_report(11, ALL_FORUM & !MANAGE_THREADS & !EMBED_LINKS, 22, ALL_COMMAND);
    assert!(r.content.is_none());
    let e = r.embed.unwrap();
    assert_eq!(e.fields.len(), 1);
    assert_eq!(e.fields[0].value, "Link: <#11>\n- Manage Threads\n- Embed Links");
    let r = permissions_report(11, ALL_FORUM, 22, ALL_COMMAND & !EMBED_LINKS);
    let e = r.embed.unwrap();
    assert_eq!(e.fields.len(), 1);
    assert_eq!(e.fields[0].name, "LFG Command Channel");
    assert_eq!(e.fields[0].value, "Link: <#22>\n- Embed Links");
}

#[test]
fn report_names_each_channel_and_what_it_lacks() {
    let r = permissions_report(11, ALL_FORUM & !MANAGE_CHANNELS, 22, VIEW_CHANNEL);
    assert!(r.content.is_none());
    assert!(r.ephemeral);
    let e = r.embed.unwrap();
    assert_eq!(e.color, GATHER_COLOR);
    assert_eq!(e.title.as_deref(), Some("Gather is missing permissions!"));
    assert_eq!(
        e.footer.as_deref(),
        Some("Try re-adding Gather to your server or check the channel overrides")
    );
    assert_eq!(e.fields.len(), 2);
    assert_eq!(e.fields[0].name, "LFG Forum Channel");
    assert_eq!(e.fields[0].value, "Link: <#11>\n- Manage Channels");
    assert!(e.fields[0].inline);
    assert_eq!(e.fields[1].name, "LFG Command Channel");
    assert_eq!(
        e.fields[1].value,
        "Link: <#22>\n- Send Messages\n- Embed Links\n- Manage Messages\n- Mention @everyone, @here and All Roles\n- Read Message History"
    );
}

#[test]
fn report_with_only_the_command_channel_lacking() {
    let r = permissions_report(11, ALL_FORUM, 22, ALL_COMMAND & !READ_MESSAGE_HISTORY);
    let e = r.embed.unwrap();
    assert_eq!(e.fields.len(), 1);
    assert_eq!(e.fields[0].name, "LFG Command Channel");
    assert_eq!(e.fields[0].value, "Link: <#22>\n- Read Message History");
}

#[test]
fn channel_lookup_replies() {
    assert!(channel_lookup_reply(ChannelLookup::GuildChannel).is_none());
    let none = "This server has no channels configured. Configure channels using '/gthr-channel-config'";
    assert_eq!(text(&channel_lookup_reply(ChannelLookup::NotConfigured).unwrap()), none);
    assert_eq!(text(&channel_lookup_reply(ChannelLookup::NotAGuildChannel).unwrap()), none);
    let failed = channel_lookup_reply(ChannelLookup::FetchFailed { error: "Unknown Channel".to_string() }).unwrap();
    assert_eq!(
        text(&failed),
        "Unknown Channel. Check the 'View Channel' permission on your configured channels"
    );
    assert!(failed.ephemeral);
}

#[test]
fn guild_is_required() {
    assert_eq!(require_guild(Some(5)), Ok(5));
    assert_eq!(require_guild(None), Err("Command can only be used in a server".to_string()));
}

#[test]
fn type_command_replies() {
    assert_eq!(text(&add_type_reply(true)), "Configuration updated");
    assert_eq!(text(&add_type_reply(false)), "Failed to add type. Please try again later");
    let name = "raid".to_string();
    assert_eq!(text(&remove_type_reply(&name, Some(true))), "Removed type 'raid'");
    assert_eq!(text(&remove_type_reply(&name, Some(false))), "No type named 'raid' exists");
    assert_eq!(
        text(&remove_type_reply(&name, None)),
        "Failed to remove type. Please try again later"
    );
    assert!(remove_type_reply(&name, None).ephemeral);
}

#[test]
fn channel_kind_checks() {
    assert!(forum_channel_problem(Some(15)).is_none());
    assert_eq!(text(&forum_channel_problem(Some(0)).unwrap()), "Forum must be a forum channel");
    assert_eq!(text(&forum_channel_problem(None).unwrap()), "Forum channel must be a server channel");
    assert!(command_channel_problem(Some(0)).is_none());
    assert_eq!(
        text(&command_channel_problem(Some(15)).unwrap()),
        "Command channel must be a text channel"
    );
    assert_eq!(
        text(&command_channel_problem(None).unwrap()),
        "Command channel must be a server channel"
    );
}

#[test]
fn channel_config_replies() {
    let fine = permissions_report(1, u64::MAX, 2, u64::MAX);
    let r = channel_config_reply(fine);
    assert_eq!(text(&r), "Configuration updated, permissions have been checked");
    assert!(r.embed.is_none());
    let lacking = permissions_report(1, 0, 2, u64::MAX);
    let r = channel_config_reply(lacking);
    assert_eq!(text(&r), "Configuration updated\n## However, you should know that...");
    assert_eq!(r.embed.unwrap().fields[0].name, "LFG Forum Channel");
    assert!(r.ephemeral);
}

#[test]
fn help_lists_the_commands() {
    let r = help_reply();
    assert!(r.ephemeral);
    assert!(r.content.is_none());
    let e = r.embed.unwrap();
    assert_eq!(e.title.as_deref(), Some("Available commands"));
    assert_eq!(e.description.as_deref(), Some("Gather consists of slash commands:"));
    assert_eq!(e.footer.as_deref(), Some("/help"));
    let names: Vec<&str> = e.fields.iter().map(|f| f.name.as_str()).collect();
    assert_eq!(names, vec!["User", "Admin", "Server Setup", "Information"]);
    assert_eq!(e.fields[0].value, "`/help`\n`/lfg-create`");
    assert!(e.fields[1].inline && !e.fields[2].inline);
    assert_eq!(
        e.fields[3].value,
        "Forum posts are warned as inactive after one hour.\nAfter a warning, forum posts with no further activity are deleted in 30 minutes."
    );
}
