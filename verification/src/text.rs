//! Decimal rendering of identifiers and the Discord mention and link forms
//! built from it.

use vstd::prelude::*;

verus! {

/// The character of one decimal digit.
pub open spec fn digit_char(d: nat) -> char {
    if d == 0 { '0' }
    else if d == 1 { '1' }
    else if d == 2 { '2' }
    else if d == 3 { '3' }
    else if d == 4 { '4' }
    else if d == 5 { '5' }
    else if d == 6 { '6' }
    else if d == 7 { '7' }
    else if d == 8 { '8' }
    else { '9' }
}

/// The decimal representation of `n`, most significant digit first, without
/// leading zeros (`0` is written as a single `0`).
pub open spec fn decimal(n: nat) -> Seq<char>
    decreases n,
{
    if n < 10 {
        seq![digit_char(n)]
    } else {
        decimal(n / 10).push(digit_char(n % 10))
    }
}

fn digit_str(d: u64) -> (s: &'static str)
    requires
        d < 10,
    ensures
        s@ == seq![digit_char(d as nat)],
{
    proof {
        reveal_strlit("0");
        reveal_strlit("1");
        reveal_strlit("2");
        reveal_strlit("3");
        reveal_strlit("4");
        reveal_strlit("5");
        reveal_strlit("6");
        reveal_strlit("7");
        reveal_strlit("8");
        reveal_strlit("9");
    }
    if d == 0 { "0" }
    else if d == 1 { "1" }
    else if d == 2 { "2" }
    else if d == 3 { "3" }
    else if d == 4 { "4" }
    else if d == 5 { "5" }
    else if d == 6 { "6" }
    else if d == 7 { "7" }
    else if d == 8 { "8" }
    else { "9" }
}

/// Writes `n` in decimal, as `Display` does for an identifier.
pub fn decimal_string(n: u64) -> (s: String)
    ensures
        s@ == decimal(n as nat),
    decreases n,
{
    if n < 10 {
        String::from_str(digit_str(n))
    } else {
        let mut s = decimal_string(n / 10);
        s.append(digit_str(n % 10));
        s
    }
}


/// `<@id>`: how Discord writes a mention of a user.
pub open spec fn user_mention_text(id: u64) -> Seq<char> {
    "<@"@ + decimal(id as nat) + ">"@
}

/// `<#id>`: how Discord writes a mention of a channel.
pub open spec fn channel_mention_text(id: u64) -> Seq<char> {
    "<#"@ + decimal(id as nat) + ">"@
}

/// `<@&id>`: how Discord writes a mention of a role.
pub open spec fn role_mention_text(id: u64) -> Seq<char> {
    "<@&"@ + decimal(id as nat) + ">"@
}

/// The link to a message of a guild channel.
pub open spec fn message_link_text(guild_id: u64, channel_id: u64, message_id: u64) -> Seq<char> {
    "https://discord.com/channels/"@ + decimal(guild_id as nat) + "/"@ + decimal(channel_id as nat)
        + "/"@ + decimal(message_id as nat)
}

fn wrapped(open: &str, id: u64, close: &str) -> (s: String)
    ensures
        s@ == open@ + decimal(id as nat) + close@,
{
    let mut s = String::from_str(open);
    let digits = decimal_string(id);
    s.append(digits.as_str());
    s.append(close);
    s
}

/// The mention of a user, as serenity's `Mention` displays it.
pub fn user_mention(id: u64) -> (s: String)
    ensures
        s@ == user_mention_text(id),
{
    wrapped("<@", id, ">")
}

/// The mention of a channel, as serenity's `Mention` displays it.
pub fn channel_mention(id: u64) -> (s: String)
    ensures
        s@ == channel_mention_text(id),
{
    wrapped("<#", id, ">")
}

/// The mention of a role, as serenity's `Mention` displays it.
pub fn role_mention(id: u64) -> (s: String)
    ensures
        s@ == role_mention_text(id),
{
    wrapped("<@&", id, ">")
}

/// The link to a message of a guild channel, as serenity's `MessageId::link`
/// writes it when the guild is known.
pub fn message_link(guild_id: u64, channel_id: u64, message_id: u64) -> (s: String)
    ensures
        s@ == message_link_text(guild_id, channel_id, message_id),
{
    let mut s = String::from_str("https://discord.com/channels/");
    let g = decimal_string(guild_id);
    s.append(g.as_str());
    s.append("/");
    let c = decimal_string(channel_id);
    s.append(c.as_str());
    s.append("/");
    let m = decimal_string(message_id);
    s.append(m.as_str());
    s
}

} // verus!
