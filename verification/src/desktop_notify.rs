use vstd::prelude::*;

use crate::dashboard::DashboardState;
use crate::events::AppEvent;
use crate::keyed::{find_index, lookup};
use crate::notifications::{UtcInstant, utc_now};
use crate::text::{
    chars_of, decimal_spec, is_whitespace, is_whitespace_spec, push_chars, push_decimal, push_str,
    trim_chars, trim_spec,
};

verus! {

/// A notification for the desktop: a title and a one-line body.
#[derive(Clone, Debug)]
pub struct DesktopNotification {
    pub title: String,
    pub body: String,
}

/// The text with every run of whitespace written as one space.
pub open spec fn squeeze_whitespace_spec(s: Seq<char>) -> Seq<char>
    decreases s.len(),
{
    if s.len() == 0 {
        s
    } else {
        let prev = squeeze_whitespace_spec(s.drop_last());
        if is_whitespace_spec(s.last()) {
            if s.drop_last().len() > 0 && is_whitespace_spec(s.drop_last().last()) {
                prev
            } else {
                prev.push(' ')
            }
        } else {
            prev.push(s.last())
        }
    }
}

/// The first `max` characters of the text, followed by `...` when some were left out.
pub open spec fn truncate_spec(s: Seq<char>, max: nat) -> Seq<char> {
    if s.len() <= max {
        s
    } else {
        s.take(max as int) + seq!['.', '.', '.']
    }
}

/// The body of a notification for a message: its text on one line, at most 200 characters;
/// for a message without text, what it carries.
pub open spec fn notification_body_spec(
    content: Option<Seq<char>>,
    sticker_count: nat,
    attachment_count: nat,
    embed_count: nat,
) -> Seq<char> {
    let text = trim_spec(
        match content {
            Some(c) => c,
            None => Seq::empty(),
        },
    );
    if text.len() > 0 {
        truncate_spec(squeeze_whitespace_spec(text), 200)
    } else if attachment_count > 0 {
        "sent "@ + decimal_spec(attachment_count) + " attachment(s)"@
    } else if sticker_count > 0 {
        "sent "@ + decimal_spec(sticker_count) + " sticker(s)"@
    } else if embed_count > 0 {
        "sent "@ + decimal_spec(embed_count) + " embed(s)"@
    } else {
        "sent a message"@
    }
}

/// The title of a notification: the author, and for a guild message the guild and channel.
pub open spec fn notification_title_spec(
    author: Seq<char>,
    guild_name: Option<Seq<char>>,
    channel_name: Option<Seq<char>>,
) -> Seq<char> {
    match guild_name {
        Some(g) => author + " in "@ + g + " #"@ + match channel_name {
            Some(c) => c,
            None => "unknown-channel"@,
        },
        None => author,
    }
}

/// The text with every run of whitespace written as one space.
pub fn squeeze_whitespace(chars: &[char]) -> (out: Vec<char>)
    ensures
        out@ == squeeze_whitespace_spec(chars@),
{
    let mut out: Vec<char> = Vec::new();
    let mut i: usize = 0;
    while i < chars.len()
        invariant
            i <= chars@.len(),
            out@ == squeeze_whitespace_spec(chars@.take(i as int)),
        decreases chars@.len() - i,
    {
        let ghost prefix = chars@.take(i + 1);
        assert(prefix.drop_last() =~= chars@.take(i as int));
        if is_whitespace(chars[i]) {
            if i > 0 && is_whitespace(chars[i - 1]) {
                assert(prefix.drop_last().last() == chars@[i - 1]);
            } else {
                out.push(' ');
            }
        } else {
            out.push(chars[i]);
        }
        i = i + 1;
    }
    assert(chars@.take(chars@.len() as int) =~= chars@);
    out
}

/// The first `max` characters of the text, followed by `...` when some were left out.
pub fn truncate_chars(chars: &[char], max: usize) -> (out: Vec<char>)
    ensures
        out@ == truncate_spec(chars@, max as nat),
{
    if chars.len() <= max {
        crate::text::chars_between(chars, 0, chars.len())
    } else {
        let mut out = crate::text::chars_between(chars, 0, max);
        out.push('.');
        out.push('.');
        out.push('.');
        assert(out@ =~= chars@.take(max as int) + seq!['.', '.', '.']);
        out
    }
}

/// The body of a notification for a message (see `notification_body_spec`).
pub fn message_notification_body(
    content: Option<&str>,
    sticker_count: usize,
    attachment_count: usize,
    embed_count: usize,
) -> (body: String)
    ensures
        body@ == notification_body_spec(
            match content {
                Some(c) => Some(c@),
                None => None,
            },
            sticker_count as nat,
            attachment_count as nat,
            embed_count as nat,
        ),
{
    let raw = match content {
        Some(c) => chars_of(c),
        None => Vec::new(),
    };
    let text = trim_chars(raw.as_slice());
    let mut body = String::new();
    if text.len() > 0 {
        let line = squeeze_whitespace(text.as_slice());
        let short = truncate_chars(line.as_slice(), 200);
        push_chars(&mut body, short.as_slice());
        return body;
    }
    if attachment_count > 0 {
        push_str(&mut body, "sent ");
        push_decimal(&mut body, attachment_count as u64);
        push_str(&mut body, " attachment(s)");
    } else if sticker_count > 0 {
        push_str(&mut body, "sent ");
        push_decimal(&mut body, sticker_count as u64);
        push_str(&mut body, " sticker(s)");
    } else if embed_count > 0 {
        push_str(&mut body, "sent ");
        push_decimal(&mut body, embed_count as u64);
        push_str(&mut body, " embed(s)");
    } else {
        push_str(&mut body, "sent a message");
    }
    body
}

impl DashboardState {
    /// The notification a new message asks for at `now`, as (title, body): none while
    /// notifications are off, for the open channel, or for a message that does not notify
    /// the user.
    pub open spec fn notification_for_spec(self, event: AppEvent, now: UtcInstant) -> Option<
        (Seq<char>, Seq<char>),
    > {
        match event {
            AppEvent::MessageCreate {
                guild_id,
                channel_id,
                author,
                content,
                sticker_names,
                attachments,
                embed_count,
                ..
            } => if !self.display_options.desktop_notifications || self.active_channel_id == Some(
                channel_id,
            ) || !self.discord.event_triggers_spec(event, now) {
                None
            } else {
                let channel = self.discord.channel_spec(channel_id);
                let gid = match guild_id {
                    Some(g) => Some(g),
                    None => match channel {
                        Some(c) => c.guild_id,
                        None => None,
                    },
                };
                let guild_name = match gid {
                    Some(g) => match lookup(self.discord.guilds@, g) {
                        Some(gs) => Some(gs.name@),
                        None => None,
                    },
                    None => None,
                };
                let channel_name = match channel {
                    Some(c) => Some(c.name@),
                    None => None,
                };
                Some(
                    (
                        notification_title_spec(author@, guild_name, channel_name),
                        notification_body_spec(
                            match content {
                                Some(c) => Some(c@),
                                None => None,
                            },
                            sticker_names@.len(),
                            attachments@.len(),
                            embed_count as nat,
                        ),
                    ),
                )
            },
            _ => None,
        }
    }

    /// The desktop notification for an event at `now` (see `notification_for_spec`).
    pub fn desktop_notification_for_event_at(&self, event: &AppEvent, now: UtcInstant) -> (n:
        Option<DesktopNotification>)
        ensures
            match n {
                Some(d) => self.notification_for_spec(*event, now) == Some((d.title@, d.body@)),
                None => self.notification_for_spec(*event, now) is None,
            },
    {
        match event {
            AppEvent::MessageCreate {
                guild_id,
                channel_id,
                author,
                content,
                sticker_names,
                attachments,
                embed_count,
                ..
            } => {
                if !self.display_options.desktop_notifications || self.active_channel_id == Some(
                    *channel_id,
                ) {
                    return None;
                }
                if !self.discord.message_event_triggers_notification_at(event, now) {
                    return None;
                }
                let channel = match find_index(&self.discord.channels, *channel_id) {
                    Some(i) => Some(&self.discord.channels[i]),
                    None => None,
                };
                let gid = match guild_id {
                    Some(g) => Some(*g),
                    None => match channel {
                        Some(c) => c.guild_id,
                        None => None,
                    },
                };
                let guild = match gid {
                    Some(g) => match find_index(&self.discord.guilds, g) {
                        Some(i) => Some(&self.discord.guilds[i]),
                        None => None,
                    },
                    None => None,
                };
                let mut title = String::new();
                push_str(&mut title, author.as_str());
                match guild {
                    Some(g) => {
                        push_str(&mut title, " in ");
                        push_str(&mut title, g.name.as_str());
                        push_str(&mut title, " #");
                        match channel {
                            Some(c) => push_str(&mut title, c.name.as_str()),
                            None => push_str(&mut title, "unknown-channel"),
                        }
                    },
                    None => {},
                }
                let text = match content {
                    Some(c) => Some(c.as_str()),
                    None => None,
                };
                let body = message_notification_body(
                    text,
                    sticker_names.len(),
                    attachments.len(),
                    *embed_count,
                );
                Some(DesktopNotification { title, body })
            },
            _ => None,
        }
    }

    /// The desktop notification for an event now; whether mutes have run out is read from
    /// the clock, so nothing more is claimed of the result than that it is the notification
    /// for some instant.
    pub fn desktop_notification_for_event(&self, event: &AppEvent) -> (n: Option<DesktopNotification>)
        ensures
            exists|now: UtcInstant|
                match n {
                    Some(d) => self.notification_for_spec(*event, now) == Some((d.title@, d.body@)),
                    None => self.notification_for_spec(*event, now) is None,
                },
    {
        let now = utc_now();
        self.desktop_notification_for_event_at(event, now)
    }
}

} // verus!
