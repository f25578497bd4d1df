use vstd::prelude::*;

use crate::dashboard::DashboardState;
use crate::discord_state::{ChannelKind, ChannelState, DiscordState, MessageState};
use crate::keyed::find_index;
use crate::desktop_notify::{squeeze_whitespace, squeeze_whitespace_spec};
use crate::message_format::{render_mentions, render_mentions_spec};
use crate::text::{
    chars_of, is_blank, is_blank_spec, push_str, str_eq, string_from_chars, trim_chars, trim_spec,
};

verus! {

/// Discord's message type for "a thread was started from this channel".
pub const THREAD_CREATED_MESSAGE_KIND: u8 = 18;

/// The highest id among `ms`.
pub open spec fn newest_id(ms: Seq<MessageState>) -> Option<u64>
    decreases ms.len(),
{
    if ms.len() == 0 {
        None
    } else {
        match newest_id(ms.drop_last()) {
            Some(x) => if ms.last().id > x {
                Some(ms.last().id)
            } else {
                Some(x)
            },
            None => Some(ms.last().id),
        }
    }
}

/// Whether `c` is a thread of `guild` under channel `parent` named `name` that the user may
/// see.
pub open spec fn is_named_thread(c: ChannelState, guild: Option<u64>, parent: u64, name: Seq<char>) -> bool {
    &&& c.guild_id == guild
    &&& c.viewable
    &&& c.kind == ChannelKind::Thread
    &&& c.parent_id == Some(parent)
    &&& c.name@ == name
}

/// The first of `cs` that `is_named_thread`.
pub open spec fn first_named_thread(cs: Seq<ChannelState>, guild: Option<u64>, parent: u64, name: Seq<char>) -> Option<
    ChannelState,
>
    decreases cs.len(),
{
    if cs.len() == 0 {
        None
    } else if is_named_thread(cs[0], guild, parent, name) {
        Some(cs[0])
    } else {
        first_named_thread(cs.drop_first(), guild, parent, name)
    }
}

/// The thread a "thread created" message announces: the thread it refers to when the user
/// may see it, else the first visible thread of the message's channel named as the message
/// says (its text, trimmed); none for other messages.
pub open spec fn thread_for_message(d: DiscordState, m: MessageState) -> Option<ChannelState> {
    if m.message_kind != THREAD_CREATED_MESSAGE_KIND {
        None
    } else {
        let referenced = match m.reference {
            Some(r) => match r.channel_id {
                Some(c) => match d.channel_spec(c) {
                    Some(ch) => if ch.kind == ChannelKind::Thread && ch.viewable {
                        Some(ch)
                    } else {
                        None
                    },
                    None => None,
                },
                None => None,
            },
            None => None,
        };
        match referenced {
            Some(ch) => Some(ch),
            None => match m.content {
                Some(text) => {
                    let name = trim_spec(text@);
                    if name.len() == 0 {
                        None
                    } else {
                        first_named_thread(d.channels@, m.guild_id, m.channel_id, name)
                    }
                },
                None => None,
            },
        }
    }
}

/// The load a message's thread preview waits for: the thread and its newest message, when
/// that message is known (from the thread, or else from its loaded messages) but is not the
/// newest one loaded.
pub open spec fn preview_request(d: DiscordState, m: MessageState) -> Option<(u64, u64)> {
    match thread_for_message(d, m) {
        Some(ch) => {
            let newest = newest_id(d.channel_messages_spec(ch.id));
            let latest = match ch.last_message_id {
                Some(l) => Some(l),
                None => newest,
            };
            match latest {
                Some(l) => if newest == Some(l) {
                    None
                } else {
                    Some((ch.id, l))
                },
                None => None,
            }
        },
        None => None,
    }
}

/// The loads the thread previews of `ms` wait for, in order.
pub open spec fn preview_requests(d: DiscordState, ms: Seq<MessageState>) -> Seq<(u64, u64)>
    decreases ms.len(),
{
    if ms.len() == 0 {
        Seq::empty()
    } else {
        let prev = preview_requests(d, ms.drop_last());
        match preview_request(d, ms.last()) {
            Some(r) => prev.push(r),
            None => prev,
        }
    }
}

fn newest_message_id(ms: &[MessageState]) -> (newest: Option<u64>)
    ensures
        newest == newest_id(ms@),
{
    let mut newest: Option<u64> = None;
    let mut i: usize = 0;
    while i < ms.len()
        invariant
            i <= ms@.len(),
            newest == newest_id(ms@.take(i as int)),
        decreases ms@.len() - i,
    {
        assert(ms@.take(i + 1).drop_last() =~= ms@.take(i as int));
        let id = ms[i].id;
        newest = match newest {
            Some(x) => if id > x {
                Some(id)
            } else {
                Some(x)
            },
            None => Some(id),
        };
        i = i + 1;
    }
    assert(ms@.take(i as int) =~= ms@);
    newest
}

impl DiscordState {
    fn loaded_messages_of(&self, channel_id: u64) -> (messages: &[MessageState])
        ensures
            messages@ == self.channel_messages_spec(channel_id),
    {
        match find_index(&self.messages, channel_id) {
            Some(i) => self.messages[i].messages.as_slice(),
            None => &[],
        }
    }

    /// The first channel that `is_named_thread`, as its id and newest message.
    fn named_thread(&self, guild: Option<u64>, parent: u64, name: &String) -> (found: Option<usize>)
        ensures
            match first_named_thread(self.channels@, guild, parent, name@) {
                Some(ch) => found matches Some(i) && i < self.channels@.len() && self.channels@[i as int] == ch,
                None => found is None,
            },
    {
        let mut i: usize = 0;
        assert(self.channels@.skip(0) =~= self.channels@);
        while i < self.channels.len()
            invariant
                i <= self.channels@.len(),
                first_named_thread(self.channels@, guild, parent, name@) == first_named_thread(
                    self.channels@.skip(i as int),
                    guild,
                    parent,
                    name@,
                ),
            decreases self.channels@.len() - i,
        {
            let c = &self.channels[i];
            assert(self.channels@.skip(i as int)[0] == self.channels@[i as int]);
            if c.guild_id == guild && c.viewable && c.kind == ChannelKind::Thread && c.parent_id
                == Some(parent) && str_eq(c.name.as_str(), name.as_str()) {
                return Some(i);
            }
            assert(self.channels@.skip(i as int).drop_first() =~= self.channels@.skip(i + 1));
            i = i + 1;
        }
        None
    }

    /// The thread a message announces (`thread_for_message`), by its place in the channel list.
    fn thread_of_message(&self, m: &MessageState) -> (found: Option<usize>)
        ensures
            match thread_for_message(*self, *m) {
                Some(ch) => found matches Some(i) && i < self.channels@.len() && self.channels@[i as int] == ch,
                None => found is None,
            },
    {
        if m.message_kind != THREAD_CREATED_MESSAGE_KIND {
            return None;
        }
        if let Some(r) = &m.reference {
            if let Some(c) = r.channel_id {
                if let Some(i) = find_index(&self.channels, c) {
                    let ch = &self.channels[i];
                    if ch.kind == ChannelKind::Thread && ch.viewable {
                        return Some(i);
                    }
                }
            }
        }
        match &m.content {
            Some(text) => {
                let raw = chars_of(text.as_str());
                let trimmed = trim_chars(raw.as_slice());
                if trimmed.len() == 0 {
                    return None;
                }
                let name = string_from_chars(trimmed.as_slice());
                self.named_thread(m.guild_id, m.channel_id, &name)
            },
            None => None,
        }
    }

    /// The load a message's thread preview waits for (`preview_request`).
    pub fn thread_preview_request(&self, m: &MessageState) -> (request: Option<(u64, u64)>)
        ensures
            request == preview_request(*self, *m),
    {
        let (thread_id, last) = match self.thread_of_message(m) {
            Some(i) => (self.channels[i].id, self.channels[i].last_message_id),
            None => {
                return None;
            },
        };
        let newest = newest_message_id(self.loaded_messages_of(thread_id));
        let latest = match last {
            Some(l) => Some(l),
            None => newest,
        };
        match latest {
            Some(l) => if newest == Some(l) {
                None
            } else {
                Some((thread_id, l))
            },
            None => None,
        }
    }
}

impl DashboardState {
    /// The thread previews on screen that wait for their newest message: for each visible
    /// "thread created" message whose thread's newest message is known but not loaded, the
    /// thread and that message.
    pub fn missing_thread_preview_load_requests(&self) -> (requests: Vec<(u64, u64)>)
        ensures
            requests@ == preview_requests(self.discord, self.visible_messages_spec()),
    {
        let visible = self.visible_messages();
        let mut out: Vec<(u64, u64)> = Vec::new();
        let mut i: usize = 0;
        while i < visible.len()
            invariant
                i <= visible@.len(),
                out@ == preview_requests(self.discord, visible@.take(i as int)),
            decreases visible@.len() - i,
        {
            assert(visible@.take(i + 1).drop_last() =~= visible@.take(i as int));
            match self.discord.thread_preview_request(&visible[i]) {
                Some(r) => out.push(r),
                None => {},
            }
            i = i + 1;
        }
        assert(visible@.take(i as int) =~= visible@);
        out
    }
}

/// The newest message a thread preview shows: the first of its author and text.
#[derive(Clone, Debug)]
pub struct ThreadMessagePreview {
    pub author: String,
    pub content: String,
}

/// What a "thread created" message shows of its thread.
#[derive(Clone, Debug)]
pub struct ThreadSummary {
    pub channel_id: u64,
    pub name: String,
    pub message_count: Option<u32>,
    pub total_message_sent: Option<u32>,
    pub archived: Option<bool>,
    pub locked: Option<bool>,
    pub latest_message_id: Option<u64>,
    pub latest_message_preview: Option<ThreadMessagePreview>,
}

/// The loaded message with the highest id; of equal ids the later one.
pub open spec fn newest_message(ms: Seq<MessageState>) -> Option<MessageState>
    decreases ms.len(),
{
    if ms.len() == 0 {
        None
    } else {
        match newest_message(ms.drop_last()) {
            Some(prev) => if ms.last().id >= prev.id {
                Some(ms.last())
            } else {
                Some(prev)
            },
            None => Some(ms.last()),
        }
    }
}

/// The text a message offers for a preview: its text when that is not blank, else its
/// first sticker as `[Sticker: name]`.
pub open spec fn message_preview_text_spec(content: Option<String>, stickers: Seq<String>) -> Option<
    Seq<char>,
> {
    match content {
        Some(c) if !is_blank_spec(c@) => Some(c@),
        _ => if stickers.len() > 0 {
            Some("[Sticker: "@ + stickers[0]@ + "]"@)
        } else {
            None
        },
    }
}

/// A thread's newest message as its preview says it: the preview text with mentions named
/// and runs of whitespace made single spaces, trimmed; `[attachment]` for a message with only
/// files; `<empty message>` for an empty one; `<message content unavailable>` when its text
/// is not known.
pub open spec fn thread_preview_text_spec(d: DiscordState, m: MessageState) -> Seq<char> {
    match message_preview_text_spec(m.content, m.sticker_names@) {
        Some(t) => trim_spec(
            squeeze_whitespace_spec(render_mentions_spec(t, Some(d), m.guild_id, m.mentions@)),
        ),
        None => if m.attachments@.len() > 0 {
            "[attachment]"@
        } else if m.content is Some {
            "<empty message>"@
        } else {
            "<message content unavailable>"@
        },
    }
}

/// The newest message a thread is known to have: the thread's own record of it, else its
/// newest loaded message.
pub open spec fn thread_latest_id(d: DiscordState, ch: ChannelState) -> Option<u64> {
    match ch.last_message_id {
        Some(l) => Some(l),
        None => match newest_message(d.channel_messages_spec(ch.id)) {
            Some(m) => Some(m.id),
            None => None,
        },
    }
}

/// Whether `p` previews the newest loaded message of thread `ch`: there is one, it is the
/// thread's newest known message, and `p` holds its author and preview text.
pub open spec fn preview_matches(d: DiscordState, ch: ChannelState, p: Option<ThreadMessagePreview>) -> bool {
    match newest_message(d.channel_messages_spec(ch.id)) {
        Some(m) => if Some(m.id) == thread_latest_id(d, ch) {
            p matches Some(q) && q.author@ == m.author@ && q.content@ == thread_preview_text_spec(d, m)
        } else {
            p is None
        },
        None => p is None,
    }
}

fn newest_loaded_message(ms: &[MessageState]) -> (newest: Option<usize>)
    ensures
        match newest_message(ms@) {
            Some(m) => newest matches Some(i) && i < ms@.len() && ms@[i as int] == m,
            None => newest is None,
        },
{
    let mut best: Option<usize> = None;
    let mut i: usize = 0;
    while i < ms.len()
        invariant
            i <= ms@.len(),
            match newest_message(ms@.take(i as int)) {
                Some(m) => best matches Some(b) && b < i && ms@[b as int] == m,
                None => best is None,
            },
        decreases ms@.len() - i,
    {
        assert(ms@.take(i + 1).drop_last() =~= ms@.take(i as int));
        assert(ms@.take(i + 1).last() == ms@[i as int]);
        best = match best {
            Some(b) => if ms[i].id >= ms[b].id {
                Some(i)
            } else {
                Some(b)
            },
            None => Some(i),
        };
        i = i + 1;
    }
    assert(ms@.take(i as int) =~= ms@);
    best
}

fn message_preview_text(content: &Option<String>, stickers: &Vec<String>) -> (text: Option<String>)
    ensures
        match message_preview_text_spec(*content, stickers@) {
            Some(t) => text matches Some(s) && s@ == t,
            None => text is None,
        },
{
    if let Some(c) = content {
        if !is_blank(c.as_str()) {
            return Some(c.clone());
        }
    }
    if stickers.len() > 0 {
        let mut out = String::new();
        push_str(&mut out, "[Sticker: ");
        push_str(&mut out, stickers[0].as_str());
        push_str(&mut out, "]");
        Some(out)
    } else {
        None
    }
}

impl DiscordState {
    fn thread_preview_text(&self, m: &MessageState) -> (text: String)
        ensures
            text@ == thread_preview_text_spec(*self, *m),
    {
        match message_preview_text(&m.content, &m.sticker_names) {
            Some(t) => {
                let chars = chars_of(t.as_str());
                let rendered = render_mentions(chars.as_slice(), Some(self), m.guild_id, &m.mentions);
                let squeezed = squeeze_whitespace(rendered.as_slice());
                let trimmed = trim_chars(squeezed.as_slice());
                string_from_chars(trimmed.as_slice())
            },
            None => {
                let mut out = String::new();
                if m.attachments.len() > 0 {
                    push_str(&mut out, "[attachment]");
                } else if m.content.is_some() {
                    push_str(&mut out, "<empty message>");
                } else {
                    push_str(&mut out, "<message content unavailable>");
                }
                out
            },
        }
    }
}

impl DashboardState {
    /// What a "thread created" message shows of its thread (`thread_for_message`): the
    /// thread's id, name, counts and archived and locked flags, its newest known message, and
    /// a preview of that message when it is the newest one loaded; none for other messages or
    /// when no such thread is known.
    pub fn thread_summary_for_message(&self, message: &MessageState) -> (summary: Option<ThreadSummary>)
        ensures
            match thread_for_message(self.discord, *message) {
                Some(ch) => summary matches Some(t) && {
                    &&& t.channel_id == ch.id
                    &&& t.name@ == ch.name@
                    &&& t.message_count == ch.message_count
                    &&& t.total_message_sent == ch.total_message_sent
                    &&& t.archived == ch.thread_archived
                    &&& t.locked == ch.thread_locked
                    &&& t.latest_message_id == thread_latest_id(self.discord, ch)
                    &&& preview_matches(self.discord, ch, t.latest_message_preview)
                },
                None => summary is None,
            },
    {
        let i = match self.discord.thread_of_message(message) {
            Some(i) => i,
            None => {
                return None;
            },
        };
        let channel = &self.discord.channels[i];
        let loaded = self.discord.loaded_messages_of(channel.id);
        let newest = newest_loaded_message(loaded);
        let latest_message_id = match channel.last_message_id {
            Some(l) => Some(l),
            None => match newest {
                Some(n) => Some(loaded[n].id),
                None => None,
            },
        };
        let latest_message_preview = match newest {
            Some(n) => if Some(loaded[n].id) == latest_message_id {
                Some(
                    ThreadMessagePreview {
                        author: loaded[n].author.clone(),
                        content: self.discord.thread_preview_text(&loaded[n]),
                    },
                )
            } else {
                None
            },
            None => None,
        };
        Some(
            ThreadSummary {
                channel_id: channel.id,
                name: channel.name.clone(),
                message_count: channel.message_count,
                total_message_sent: channel.total_message_sent,
                archived: channel.thread_archived,
                locked: channel.thread_locked,
                latest_message_id,
                latest_message_preview,
            },
        )
    }
}

} // verus!
