//! The texts the bot writes from templates: greetings, level-ups, mentions and links.

use crate::models::Guild;
use crate::text::{decimal, decimal_of, digits, digits_of, push_all, push_text, substitute, substituted};
use crate::voice::protocol::text_of;
use vstd::prelude::*;

verus! {

/// The template, or the default where there is none.
pub open spec fn template_or(template: Option<Seq<char>>, default: Seq<char>) -> Seq<char> {
    match template {
        Some(t) => t,
        None => default,
    }
}

/// The greeting of a new member: the guild's template, or the default one, with the member's
/// mention for `{user}` and then the server's name for `{server}`.
pub open spec fn welcome_text(
    template: Option<Seq<char>>,
    mention: Seq<char>,
    server: Seq<char>,
) -> Seq<char> {
    substituted(
        substituted(template_or(template, "Welcome {user} to {server}!"@), "{user}"@, mention),
        "{server}"@,
        server,
    )
}

/// The farewell of a member who left: the guild's template, or the default one, with the
/// member's name for `{user}`.
pub open spec fn goodbye_text(template: Option<Seq<char>>, user_name: Seq<char>) -> Seq<char> {
    substituted(template_or(template, "Goodbye {user}!"@), "{user}"@, user_name)
}

/// The announcement of a level reached: the guild's template, or the default one, with the
/// member's mention for `{user}` and then the level, in decimal, for `{level}`.
pub open spec fn level_up_text(
    template: Option<Seq<char>>,
    mention: Seq<char>,
    level: i64,
) -> Seq<char> {
    substituted(
        substituted(
            template_or(template, "Congratulations {user}! You reached level {level}!"@),
            "{user}"@,
            mention,
        ),
        "{level}"@,
        decimal(level as int),
    )
}

/// Writes the greeting of a new member.
pub fn welcome_message(template: &Option<String>, mention: &str, server: &str) -> (message: String)
    ensures
        message@ == welcome_text(text_of(*template), mention@, server@),
{
    let with_user = match template {
        Some(t) => substitute(t.as_str(), "{user}", mention),
        None => substitute("Welcome {user} to {server}!", "{user}", mention),
    };
    substitute(with_user.as_str(), "{server}", server)
}

/// Writes the farewell of a member who left.
pub fn goodbye_message(template: &Option<String>, user_name: &str) -> (message: String)
    ensures
        message@ == goodbye_text(text_of(*template), user_name@),
{
    match template {
        Some(t) => substitute(t.as_str(), "{user}", user_name),
        None => substitute("Goodbye {user}!", "{user}", user_name),
    }
}

/// Writes the announcement of a level reached.
pub fn level_up_message(template: &Option<String>, mention: &str, level: i64) -> (message: String)
    ensures
        message@ == level_up_text(text_of(*template), mention@, level),
{
    let with_user = match template {
        Some(t) => substitute(t.as_str(), "{user}", mention),
        None => substitute(
            "Congratulations {user}! You reached level {level}!",
            "{user}",
            mention,
        ),
    };
    let mut written = String::new();
    let level_chars = decimal_of(level);
    push_all(&mut written, &level_chars);
    assert(written@ == decimal(level as int));
    substitute(with_user.as_str(), "{level}", written.as_str())
}

impl Guild {
    /// The channel in which new members are greeted, where greetings are switched on and a
    /// channel is set.
    pub fn welcome_channel(&self) -> (channel: Option<i64>)
        ensures
            channel == if self.welcome_enabled != 0 {
                self.welcome_channel_id
            } else {
                None
            },
    {
        if self.welcome_enabled != 0 {
            self.welcome_channel_id
        } else {
            None
        }
    }

    /// The channel in which departures are announced, where farewells are switched on and a
    /// channel is set.
    pub fn goodbye_channel(&self) -> (channel: Option<i64>)
        ensures
            channel == if self.goodbye_enabled != 0 {
                self.goodbye_channel_id
            } else {
                None
            },
    {
        if self.goodbye_enabled != 0 {
            self.goodbye_channel_id
        } else {
            None
        }
    }

    /// The channel in which a level reached is announced: none unless the member's level
    /// rose, levels are switched on and a channel is set.
    pub fn level_up_channel(&self, old_level: i64, new_level: i64) -> (channel: Option<i64>)
        ensures
            channel == if new_level > old_level && self.level_enabled != 0 {
                self.level_channel_id
            } else {
                None
            },
    {
        if new_level > old_level && self.level_enabled != 0 {
            self.level_channel_id
        } else {
            None
        }
    }
}

/// The reason given, or the words that stand for none.
pub fn reason_or_default(reason: Option<String>) -> (written: String)
    ensures
        written@ == match reason {
            Some(r) => r@,
            None => "No reason provided"@,
        },
{
    match reason {
        Some(r) => r,
        None => {
            let mut written = String::new();
            push_text(&mut written, "No reason provided");
            written
        },
    }
}

/// The link to an avatar in another image format: the link with `format` for every `webp`.
pub fn avatar_link(url: &str, format: &str) -> (link: String)
    ensures
        link@ == substituted(url@, "webp"@, format@),
{
    substitute(url, "webp", format)
}

/// The mention of a role.
pub open spec fn role_mention_text(role_id: i64) -> Seq<char> {
    "<@&"@ + decimal(role_id as int) + ">"@
}

/// The mentions of the roles, one on each line.
pub open spec fn role_mentions_text(role_ids: Seq<i64>) -> Seq<char>
    decreases role_ids.len(),
{
    if role_ids.len() == 0 {
        Seq::empty()
    } else if role_ids.len() == 1 {
        role_mention_text(role_ids[0])
    } else {
        role_mentions_text(role_ids.drop_last()) + "\n"@ + role_mention_text(role_ids.last())
    }
}

/// Writes the mentions of the roles, one on each line.
pub fn role_mentions(role_ids: &Vec<i64>) -> (written: String)
    ensures
        written@ == role_mentions_text(role_ids@),
{
    let mut written = String::new();
    let mut i: usize = 0;
    assert(role_ids@.take(0) == Seq::<i64>::empty());
    while i < role_ids.len()
        invariant
            i <= role_ids.len(),
            written@ == role_mentions_text(role_ids@.take(i as int)),
        decreases role_ids.len() - i,
    {
        if i > 0 {
            push_text(&mut written, "\n");
        }
        push_text(&mut written, "<@&");
        let id_chars = decimal_of(role_ids[i]);
        push_all(&mut written, &id_chars);
        push_text(&mut written, ">");
        proof {
            let upto = role_ids@.take(i + 1);
            assert(upto.drop_last() == role_ids@.take(i as int));
            assert(upto.last() == role_ids@[i as int]);
            assert(upto.len() == 1 ==> upto[0] == role_ids@[i as int]);
            assert(written@ == role_mentions_text(upto));
        }
        i += 1;
    }
    assert(role_ids@.take(role_ids.len() as int) == role_ids@);
    written
}

/// The link by which the bot is invited: its client identifier and the permissions it asks
/// for, both in decimal.
pub open spec fn invite_text(bot_id: u64, permissions: u64) -> Seq<char> {
    "https://discord.com/api/oauth2/authorize?client_id="@ + digits(bot_id as nat)
        + "&permissions="@ + digits(permissions as nat) + "&scope=bot%20applications.commands"@
}

/// Writes the link by which the bot is invited.
pub fn invite_url(bot_id: u64, permissions: u64) -> (url: String)
    ensures
        url@ == invite_text(bot_id, permissions),
{
    let mut url = String::new();
    push_text(&mut url, "https://discord.com/api/oauth2/authorize?client_id=");
    let id_chars = digits_of(bot_id);
    push_all(&mut url, &id_chars);
    push_text(&mut url, "&permissions=");
    let permission_chars = digits_of(permissions);
    push_all(&mut url, &permission_chars);
    push_text(&mut url, "&scope=bot%20applications.commands");
    url
}

} // verus!
