//! The permission check: which of the permissions Gather needs are missing in
//! the configured forum and command channel, and the report it replies with.

use vstd::prelude::*;
use crate::reply::{
    Reply, ReplyView, Embed, EmbedView, FieldView, GATHER_COLOR, ephemeral, ephemeral_string,
    ephemeral_text, field, join, joined, strs,
};
use crate::text::{channel_mention, channel_mention_text};

verus! {

/// Discord's "Manage Channels" permission bit.
pub const MANAGE_CHANNELS: u64 = 1u64 << 4u64;

/// Discord's "View Channel" permission bit.
pub const VIEW_CHANNEL: u64 = 1u64 << 10u64;

/// Discord's "Send Messages" permission bit.
pub const SEND_MESSAGES: u64 = 1u64 << 11u64;

/// Discord's "Embed Links" permission bit.
pub const EMBED_LINKS: u64 = 1u64 << 14u64;

/// Discord's "Manage Messages" permission bit.
pub const MANAGE_MESSAGES: u64 = 1u64 << 13u64;

/// Discord's "Read Message History" permission bit.
pub const READ_MESSAGE_HISTORY: u64 = 1u64 << 16u64;

/// Discord's "Mention @everyone, @here and All Roles" permission bit.
pub const MENTION_EVERYONE: u64 = 1u64 << 17u64;

/// Discord's "Create Public Threads" permission bit.
pub const CREATE_PUBLIC_THREADS: u64 = 1u64 << 35u64;

/// Discord's "Manage Threads" permission bit.
pub const MANAGE_THREADS: u64 = 1u64 << 34u64;

/// Discord's "Send Messages in Threads" permission bit.
pub const SEND_MESSAGES_IN_THREADS: u64 = 1u64 << 38u64;

/// The permission set `bits` holds every bit of `flag` (serenity's
/// `Permissions::contains`, behind `view_channel()` and the like).
pub open spec fn grants(bits: u64, flag: u64) -> bool {
    bits & flag == flag
}

fn permits(bits: u64, flag: u64) -> (b: bool)
    ensures
        b == grants(bits, flag),
{
    bits & flag == flag
}

/// One line when `missing`, none otherwise.
pub open spec fn line_if(missing: bool, text: Seq<char>) -> Seq<Seq<char>> {
    if missing {
        seq![text]
    } else {
        Seq::empty()
    }
}

/// The lines naming what the forum lacks, in report order.
pub open spec fn forum_missing(bits: u64) -> Seq<Seq<char>> {
    line_if(!grants(bits, VIEW_CHANNEL), "- View Channel"@) + line_if(
        !grants(bits, SEND_MESSAGES) || !grants(bits, SEND_MESSAGES_IN_THREADS),
        "- Create Posts / Send Messages"@,
    ) + line_if(!grants(bits, CREATE_PUBLIC_THREADS), "- Create Public Threads"@) + line_if(
        !grants(bits, MANAGE_CHANNELS),
        "- Manage Channels"@,
    ) + line_if(!grants(bits, MANAGE_THREADS), "- Manage Threads"@) + line_if(
        !grants(bits, EMBED_LINKS),
        "- Embed Links"@,
    ) + line_if(!grants(bits, READ_MESSAGE_HISTORY), "- Read Message History"@)
}

/// The lines naming what the command channel lacks, in report order.
pub open spec fn command_channel_missing(bits: u64) -> Seq<Seq<char>> {
    line_if(!grants(bits, VIEW_CHANNEL), "- View Channel"@) + line_if(
        !grants(bits, SEND_MESSAGES),
        "- Send Messages"@,
    ) + line_if(!grants(bits, EMBED_LINKS), "- Embed Links"@) + line_if(
        !grants(bits, MANAGE_MESSAGES),
        "- Manage Messages"@,
    ) + line_if(
        !grants(bits, MENTION_EVERYONE),
        "- Mention @everyone, @here and All Roles"@,
    ) + line_if(!grants(bits, READ_MESSAGE_HISTORY), "- Read Message History"@)
}

/// Each line the forum report can hold is present exactly when the
/// permission it names is missing.
pub open spec fn forum_lines_right(lines: Seq<Seq<char>>, bits: u64) -> bool {
    &&& lines.contains("- View Channel"@) <==> !grants(bits, VIEW_CHANNEL)
    &&& lines.contains("- Create Posts / Send Messages"@) <==> (!grants(bits, SEND_MESSAGES)
        || !grants(bits, SEND_MESSAGES_IN_THREADS))
    &&& lines.contains("- Create Public Threads"@) <==> !grants(bits, CREATE_PUBLIC_THREADS)
    &&& lines.contains("- Manage Channels"@) <==> !grants(bits, MANAGE_CHANNELS)
    &&& lines.contains("- Manage Threads"@) <==> !grants(bits, MANAGE_THREADS)
    &&& lines.contains("- Embed Links"@) <==> !grants(bits, EMBED_LINKS)
    &&& lines.contains("- Read Message History"@) <==> !grants(bits, READ_MESSAGE_HISTORY)
}

/// Each line the command channel report can hold is present exactly when
/// the permission it names is missing.
pub open spec fn command_channel_lines_right(lines: Seq<Seq<char>>, bits: u64) -> bool {
    &&& lines.contains("- View Channel"@) <==> !grants(bits, VIEW_CHANNEL)
    &&& lines.contains("- Send Messages"@) <==> !grants(bits, SEND_MESSAGES)
    &&& lines.contains("- Embed Links"@) <==> !grants(bits, EMBED_LINKS)
    &&& lines.contains("- Manage Messages"@) <==> !grants(bits, MANAGE_MESSAGES)
    &&& lines.contains("- Mention @everyone, @here and All Roles"@) <==> !grants(
        bits,
        MENTION_EVERYONE,
    )
    &&& lines.contains("- Read Message History"@) <==> !grants(bits, READ_MESSAGE_HISTORY)
}

proof fn lemma_line_if_contains(missing: bool, text: Seq<char>, x: Seq<char>)
    ensures
        line_if(missing, text).contains(x) <==> (missing && text == x),
{
    if missing {
        assert(line_if(missing, text)[0] == text);
    }
}

proof fn lemma_plus_line_contains(a: Seq<Seq<char>>, missing: bool, text: Seq<char>, x: Seq<char>)
    ensures
        (a + line_if(missing, text)).contains(x) <==> (a.contains(x) || (missing && text == x)),
{
    let s = a + line_if(missing, text);
    if missing {
        assert(s =~= a.push(text));
        assert(s[a.len() as int] == text);
        if s.contains(x) {
            let i = choose|i: int| 0 <= i < s.len() && s[i] == x;
            if i < a.len() {
                assert(a[i] == x);
            }
        }
        if a.contains(x) {
            let i = choose|i: int| 0 <= i < a.len() && a[i] == x;
            assert(s[i] == x);
        }
    } else {
        assert(s =~= a);
    }
}

/// The forum report names a permission exactly when the forum lacks it:
/// every line is checked against its own permission bit.
pub proof fn law_forum_lines(bits: u64)
    ensures
        forum_lines_right(forum_missing(bits), bits),
{
    let b1 = !grants(bits, VIEW_CHANNEL);
    let b2 = !grants(bits, SEND_MESSAGES) || !grants(bits, SEND_MESSAGES_IN_THREADS);
    let b3 = !grants(bits, CREATE_PUBLIC_THREADS);
    let b4 = !grants(bits, MANAGE_CHANNELS);
    let b5 = !grants(bits, MANAGE_THREADS);
    let b6 = !grants(bits, EMBED_LINKS);
    let b7 = !grants(bits, READ_MESSAGE_HISTORY);
    let t1 = "- View Channel"@;
    let t2 = "- Create Posts / Send Messages"@;
    let t3 = "- Create Public Threads"@;
    let t4 = "- Manage Channels"@;
    let t5 = "- Manage Threads"@;
    let t6 = "- Embed Links"@;
    let t7 = "- Read Message History"@;
    let l1 = line_if(b1, t1);
    let l2 = l1 + line_if(b2, t2);
    let l3 = l2 + line_if(b3, t3);
    let l4 = l3 + line_if(b4, t4);
    let l5 = l4 + line_if(b5, t5);
    let l6 = l5 + line_if(b6, t6);
    let l7 = l6 + line_if(b7, t7);
    assert(l7 == forum_missing(bits));
    reveal_strlit("- View Channel");
    reveal_strlit("- Create Posts / Send Messages");
    reveal_strlit("- Create Public Threads");
    reveal_strlit("- Manage Channels");
    reveal_strlit("- Manage Threads");
    reveal_strlit("- Embed Links");
    reveal_strlit("- Read Message History");
    assert(t1.len() == 14);
    assert(t2.len() == 30);
    assert(t3.len() == 23);
    assert(t4.len() == 17);
    assert(t5.len() == 16);
    assert(t6.len() == 13);
    assert(t7.len() == 22);
    assert forall|x: Seq<char>| #[trigger] l7.contains(x) <==> ((b1 && t1 == x) || (b2 && t2 == x)
        || (b3 && t3 == x) || (b4 && t4 == x) || (b5 && t5 == x) || (b6 && t6 == x) || (b7 && t7
        == x)) by {
        lemma_line_if_contains(b1, t1, x);
        lemma_plus_line_contains(l1, b2, t2, x);
        lemma_plus_line_contains(l2, b3, t3, x);
        lemma_plus_line_contains(l3, b4, t4, x);
        lemma_plus_line_contains(l4, b5, t5, x);
        lemma_plus_line_contains(l5, b6, t6, x);
        lemma_plus_line_contains(l6, b7, t7, x);
    }
    assert(l7.contains(t1) <==> b1);
    assert(l7.contains(t2) <==> b2);
    assert(l7.contains(t3) <==> b3);
    assert(l7.contains(t4) <==> b4);
    assert(l7.contains(t5) <==> b5);
    assert(l7.contains(t6) <==> b6);
    assert(l7.contains(t7) <==> b7);
}

/// The command channel report names a permission exactly when the channel
/// lacks it: every line is checked against its own permission bit.
pub proof fn law_command_channel_lines(bits: u64)
    ensures
        command_channel_lines_right(command_channel_missing(bits), bits),
{
    let b1 = !grants(bits, VIEW_CHANNEL);
    let b2 = !grants(bits, SEND_MESSAGES);
    let b3 = !grants(bits, EMBED_LINKS);
    let b4 = !grants(bits, MANAGE_MESSAGES);
    let b5 = !grants(bits, MENTION_EVERYONE);
    let b6 = !grants(bits, READ_MESSAGE_HISTORY);
    let t1 = "- View Channel"@;
    let t2 = "- Send Messages"@;
    let t3 = "- Embed Links"@;
    let t4 = "- Manage Messages"@;
    let t5 = "- Mention @everyone, @here and All Roles"@;
    let t6 = "- Read Message History"@;
    let l1 = line_if(b1, t1);
    let l2 = l1 + line_if(b2, t2);
    let l3 = l2 + line_if(b3, t3);
    let l4 = l3 + line_if(b4, t4);
    let l5 = l4 + line_if(b5, t5);
    let l6 = l5 + line_if(b6, t6);
    assert(l6 == command_channel_missing(bits));
    reveal_strlit("- View Channel");
    reveal_strlit("- Send Messages");
    reveal_strlit("- Embed Links");
    reveal_strlit("- Manage Messages");
    reveal_strlit("- Mention @everyone, @here and All Roles");
    reveal_strlit("- Read Message History");
    assert(t1.len() == 14);
    assert(t2.len() == 15);
    assert(t3.len() == 13);
    assert(t4.len() == 17);
    assert(t5.len() == 40);
    assert(t6.len() == 22);
    assert forall|x: Seq<char>| #[trigger] l6.contains(x) <==> ((b1 && t1 == x) || (b2 && t2 == x)
        || (b3 && t3 == x) || (b4 && t4 == x) || (b5 && t5 == x) || (b6 && t6 == x)) by {
        lemma_line_if_contains(b1, t1, x);
        lemma_plus_line_contains(l1, b2, t2, x);
        lemma_plus_line_contains(l2, b3, t3, x);
        lemma_plus_line_contains(l3, b4, t4, x);
        lemma_plus_line_contains(l4, b5, t5, x);
        lemma_plus_line_contains(l5, b6, t6, x);
    }
    assert(l6.contains(t1) <==> b1);
    assert(l6.contains(t2) <==> b2);
    assert(l6.contains(t3) <==> b3);
    assert(l6.contains(t4) <==> b4);
    assert(l6.contains(t5) <==> b5);
    assert(l6.contains(t6) <==> b6);
}

fn push_if(v: &mut Vec<&'static str>, missing: bool, text: &'static str)
    ensures
        strs(final(v)@) == strs(old(v)@) + line_if(missing, text@),
{
    let ghost before = v@;
    if missing {
        v.push(text);
        assert(strs(v@) =~= strs(before) + line_if(missing, text@));
    } else {
        assert(strs(v@) =~= strs(before) + line_if(missing, text@));
    }
}

/// What the forum lacks of the permissions Gather needs there.
pub fn missing_forum_permissions(bits: u64) -> (v: Vec<&'static str>)
    ensures
        strs(v@) == forum_missing(bits),
        forum_lines_right(strs(v@), bits),
{
    proof {
        law_forum_lines(bits);
    }
    let mut v: Vec<&'static str> = Vec::new();
    assert(strs(v@) =~= Seq::<Seq<char>>::empty());
    push_if(&mut v, !permits(bits, VIEW_CHANNEL), "- View Channel");
    push_if(
        &mut v,
        !permits(bits, SEND_MESSAGES) || !permits(bits, SEND_MESSAGES_IN_THREADS),
        "- Create Posts / Send Messages",
    );
    push_if(&mut v, !permits(bits, CREATE_PUBLIC_THREADS), "- Create Public Threads");
    push_if(&mut v, !permits(bits, MANAGE_CHANNELS), "- Manage Channels");
    push_if(&mut v, !permits(bits, MANAGE_THREADS), "- Manage Threads");
    push_if(&mut v, !permits(bits, EMBED_LINKS), "- Embed Links");
    push_if(&mut v, !permits(bits, READ_MESSAGE_HISTORY), "- Read Message History");
    assert(strs(v@) =~= forum_missing(bits));
    v
}

/// What the command channel lacks of the permissions Gather needs there.
pub fn missing_command_channel_permissions(bits: u64) -> (v: Vec<&'static str>)
    ensures
        strs(v@) == command_channel_missing(bits),
        command_channel_lines_right(strs(v@), bits),
{
    proof {
        law_command_channel_lines(bits);
    }
    let mut v: Vec<&'static str> = Vec::new();
    assert(strs(v@) =~= Seq::<Seq<char>>::empty());
    push_if(&mut v, !permits(bits, VIEW_CHANNEL), "- View Channel");
    push_if(&mut v, !permits(bits, SEND_MESSAGES), "- Send Messages");
    push_if(&mut v, !permits(bits, EMBED_LINKS), "- Embed Links");
    push_if(&mut v, !permits(bits, MANAGE_MESSAGES), "- Manage Messages");
    push_if(
        &mut v,
        !permits(bits, MENTION_EVERYONE),
        "- Mention @everyone, @here and All Roles",
    );
    push_if(&mut v, !permits(bits, READ_MESSAGE_HISTORY), "- Read Message History");
    assert(strs(v@) =~= command_channel_missing(bits));
    v
}

/// The field that names a channel and what it lacks.
pub open spec fn report_field(label: Seq<char>, channel_id: u64, missing: Seq<Seq<char>>) -> FieldView {
    FieldView {
        name: label,
        value: "Link: "@ + channel_mention_text(channel_id) + "\n"@ + joined(missing, "\n"@),
        inline: true,
    }
}

/// The reply of the permission check for the forum `forum_id` with the
/// permission set `forum_bits` and the command channel `command_channel_id`
/// with `command_bits`.
pub open spec fn report_view(
    forum_id: u64,
    forum_bits: u64,
    command_channel_id: u64,
    command_bits: u64,
) -> ReplyView {
    let fm = forum_missing(forum_bits);
    let cm = command_channel_missing(command_bits);
    if fm.len() > 0 || cm.len() > 0 {
        ReplyView {
            content: None,
            embed: Some(
                EmbedView {
                    color: GATHER_COLOR,
                    title: Some("Gather is missing permissions!"@),
                    description: None,
                    fields: (if fm.len() > 0 {
                        seq![report_field("LFG Forum Channel"@, forum_id, fm)]
                    } else {
                        Seq::empty()
                    }) + (if cm.len() > 0 {
                        seq![report_field("LFG Command Channel"@, command_channel_id, cm)]
                    } else {
                        Seq::empty()
                    }),
                    footer: Some(
                        "Try re-adding Gather to your server or check the channel overrides"@,
                    ),
                },
            ),
            ephemeral: true,
        }
    } else {
        ephemeral_text("Gather has all necessary permissions"@)
    }
}

fn report_value(channel_id: u64, missing: &Vec<&'static str>) -> (s: String)
    ensures
        s@ == "Link: "@ + channel_mention_text(channel_id) + "\n"@ + joined(strs(missing@), "\n"@),
{
    let mut s = String::from_str("Link: ");
    let mention = channel_mention(channel_id);
    s.append(mention.as_str());
    s.append("\n");
    let lines = join(missing, "\n");
    s.append(lines.as_str());
    s
}

/// The reply of the permission check: an embed naming each channel that
/// lacks permissions and what it lacks, or a confirmation when nothing is
/// missing.
pub fn permissions_report(
    forum_id: u64,
    forum_bits: u64,
    command_channel_id: u64,
    command_bits: u64,
) -> (r: Reply)
    ensures
        r@ == report_view(forum_id, forum_bits, command_channel_id, command_bits),
{
    let forum_missing_lines = missing_forum_permissions(forum_bits);
    let command_missing_lines = missing_command_channel_permissions(command_bits);
    if forum_missing_lines.len() > 0 || command_missing_lines.len() > 0 {
        let mut fields = Vec::new();
        if forum_missing_lines.len() > 0 {
            fields.push(
                field("LFG Forum Channel", report_value(forum_id, &forum_missing_lines), true),
            );
        }
        let ghost first = fields@;
        if command_missing_lines.len() > 0 {
            fields.push(
                field(
                    "LFG Command Channel",
                    report_value(command_channel_id, &command_missing_lines),
                    true,
                ),
            );
        }
        let embed = Embed {
            color: GATHER_COLOR,
            title: Some(String::from_str("Gather is missing permissions!")),
            description: None,
            fields,
            footer: Some(
                String::from_str(
                    "Try re-adding Gather to your server or check the channel overrides",
                ),
            ),
        };
        let r = Reply { content: None, embed: Some(embed), ephemeral: true };
        assert(r@.embed->0.fields =~= report_view(
            forum_id,
            forum_bits,
            command_channel_id,
            command_bits,
        ).embed->0.fields);
        r
    } else {
        ephemeral("Gather has all necessary permissions")
    }
}

/// Every permission Gather needs in the forum.
pub open spec fn forum_complete(bits: u64) -> bool {
    &&& grants(bits, VIEW_CHANNEL)
    &&& grants(bits, SEND_MESSAGES)
    &&& grants(bits, SEND_MESSAGES_IN_THREADS)
    &&& grants(bits, CREATE_PUBLIC_THREADS)
    &&& grants(bits, MANAGE_CHANNELS)
    &&& grants(bits, MANAGE_THREADS)
    &&& grants(bits, EMBED_LINKS)
    &&& grants(bits, READ_MESSAGE_HISTORY)
}

/// Every permission Gather needs in the command channel.
pub open spec fn command_channel_complete(bits: u64) -> bool {
    &&& grants(bits, VIEW_CHANNEL)
    &&& grants(bits, SEND_MESSAGES)
    &&& grants(bits, EMBED_LINKS)
    &&& grants(bits, MANAGE_MESSAGES)
    &&& grants(bits, MENTION_EVERYONE)
    &&& grants(bits, READ_MESSAGE_HISTORY)
}

spec fn count_if(missing: bool) -> int {
    if missing {
        1
    } else {
        0
    }
}

proof fn lemma_line_if_len(missing: bool, text: Seq<char>)
    ensures
        line_if(missing, text).len() == count_if(missing),
{
}

proof fn lemma_forum_missing_empty(bits: u64)
    ensures
        forum_missing(bits).len() == 0 <==> forum_complete(bits),
{
    let a = !grants(bits, VIEW_CHANNEL);
    let b = !grants(bits, SEND_MESSAGES) || !grants(bits, SEND_MESSAGES_IN_THREADS);
    let c = !grants(bits, CREATE_PUBLIC_THREADS);
    let d = !grants(bits, MANAGE_CHANNELS);
    let e = !grants(bits, MANAGE_THREADS);
    let f = !grants(bits, EMBED_LINKS);
    let g = !grants(bits, READ_MESSAGE_HISTORY);
    lemma_line_if_len(a, "- View Channel"@);
    lemma_line_if_len(b, "- Create Posts / Send Messages"@);
    lemma_line_if_len(c, "- Create Public Threads"@);
    lemma_line_if_len(d, "- Manage Channels"@);
    lemma_line_if_len(e, "- Manage Threads"@);
    lemma_line_if_len(f, "- Embed Links"@);
    lemma_line_if_len(g, "- Read Message History"@);
    assert(forum_missing(bits).len() == count_if(a) + count_if(b) + count_if(c) + count_if(d)
        + count_if(e) + count_if(f) + count_if(g));
}

proof fn lemma_command_channel_missing_empty(bits: u64)
    ensures
        command_channel_missing(bits).len() == 0 <==> command_channel_complete(bits),
{
    let a = !grants(bits, VIEW_CHANNEL);
    let b = !grants(bits, SEND_MESSAGES);
    let c = !grants(bits, EMBED_LINKS);
    let d = !grants(bits, MANAGE_MESSAGES);
    let e = !grants(bits, MENTION_EVERYONE);
    let f = !grants(bits, READ_MESSAGE_HISTORY);
    lemma_line_if_len(a, "- View Channel"@);
    lemma_line_if_len(b, "- Send Messages"@);
    lemma_line_if_len(c, "- Embed Links"@);
    lemma_line_if_len(d, "- Manage Messages"@);
    lemma_line_if_len(e, "- Mention @everyone, @here and All Roles"@);
    lemma_line_if_len(f, "- Read Message History"@);
    assert(command_channel_missing(bits).len() == count_if(a) + count_if(b) + count_if(c)
        + count_if(d) + count_if(e) + count_if(f));
}

/// The names of an embed's fields, in order.
pub open spec fn field_names(fields: Seq<FieldView>) -> Seq<Seq<char>> {
    fields.map_values(|f: FieldView| f.name)
}

/// The check confirms that nothing is missing exactly when both channels
/// grant every permission Gather needs; otherwise it reports, with one field
/// for each channel that lacks something, the forum first.
pub proof fn law_report_confirms_iff_complete(
    forum_id: u64,
    forum_bits: u64,
    command_channel_id: u64,
    command_bits: u64,
)
    ensures
        ({
            let r = report_view(forum_id, forum_bits, command_channel_id, command_bits);
            let complete = forum_complete(forum_bits) && command_channel_complete(command_bits);
            &&& (r.content is Some) <==> complete
            &&& (r.embed is Some) <==> !complete
            &&& r.embed matches Some(e) ==> field_names(e.fields) == line_if(
                !forum_complete(forum_bits),
                "LFG Forum Channel"@,
            ) + line_if(!command_channel_complete(command_bits), "LFG Command Channel"@)
        }),
{
    lemma_forum_missing_empty(forum_bits);
    lemma_command_channel_missing_empty(command_bits);
    let r = report_view(forum_id, forum_bits, command_channel_id, command_bits);
    if let Some(e) = r.embed {
        assert(field_names(e.fields) =~= line_if(
            !forum_complete(forum_bits),
            "LFG Forum Channel"@,
        ) + line_if(!command_channel_complete(command_bits), "LFG Command Channel"@));
    }
}

/// What became of looking up a configured channel for the permission check.
#[derive(Debug)]
pub enum ChannelLookup {
    /// No channel is configured.
    NotConfigured,
    /// Fetching the channel failed with the given error text.
    FetchFailed { error: String },
    /// The channel exists but is not a server channel.
    NotAGuildChannel,
    /// The channel is a server channel.
    GuildChannel,
}

/// The text sent when the check finds no usable channel configuration.
pub open spec fn no_channels_text() -> Seq<char> {
    "This server has no channels configured. Configure channels using '/gthr-channel-config'"@
}

/// The reply that ends the permission check when a configured channel
/// cannot be used; none when it is a server channel.
pub fn channel_lookup_reply(lookup: ChannelLookup) -> (r: Option<Reply>)
    ensures
        match lookup {
            ChannelLookup::GuildChannel => r is None,
            ChannelLookup::NotConfigured | ChannelLookup::NotAGuildChannel => r matches Some(x)
                && x@ == ephemeral_text(no_channels_text()),
            ChannelLookup::FetchFailed { error } => r matches Some(x) && x@ == ephemeral_text(
                error@ + ". Check the 'View Channel' permission on your configured channels"@,
            ),
        },
{
    match lookup {
        ChannelLookup::GuildChannel => None,
        ChannelLookup::NotConfigured | ChannelLookup::NotAGuildChannel => Some(
            ephemeral(
                "This server has no channels configured. Configure channels using '/gthr-channel-config'",
            ),
        ),
        ChannelLookup::FetchFailed { error } => {
            let mut text = error;
            text.append(". Check the 'View Channel' permission on your configured channels");
            Some(ephemeral_string(text))
        },
    }
}

} // verus!
