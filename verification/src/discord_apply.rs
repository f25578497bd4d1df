use vstd::prelude::*;

use crate::discord::{
    AttachmentInfo, ChannelInfo, MemberInfo, MentionInfo, MessageInfo, MessageReferenceInfo,
    MessageSnapshotInfo,
    PresenceStatus,
};
use crate::discord_state::{
    ChannelKind, ChannelMessages, ChannelState, DiscordState, GuildMemberState, GuildMembers,
    GuildRoles, GuildState, MessageState, ReadState,
};
use crate::events::AppEvent;
use crate::keyed::{
    Keyed, append_unseen, dedup_by_key, find_index, keys_of, lemma_lookup_update, lookup,
    lookup_index, lemma_lookup_index, swap_at, upsert,
};
use crate::text::str_eq;

verus! {

/// The kind of a channel from the name the gateway gives it; unknown names are text
/// channels.
pub open spec fn kind_from_name(name: Seq<char>) -> ChannelKind {
    if name == "GuildVoice"@ || name == "voice"@ {
        ChannelKind::GuildVoice
    } else if name == "GuildCategory"@ || name == "category"@ {
        ChannelKind::GuildCategory
    } else if name == "GuildForum"@ || name == "forum"@ {
        ChannelKind::GuildForum
    } else if name == "thread"@ || name == "public_thread"@ || name == "private_thread"@ {
        ChannelKind::Thread
    } else if name == "dm"@ || name == "DirectMessage"@ {
        ChannelKind::DirectMessage
    } else if name == "group_dm"@ || name == "GroupDirectMessage"@ {
        ChannelKind::GroupDirectMessage
    } else {
        ChannelKind::GuildText
    }
}

pub fn channel_kind_of(name: &str) -> (kind: ChannelKind)
    ensures
        kind == kind_from_name(name@),
{
    if str_eq(name, "GuildVoice") || str_eq(name, "voice") {
        ChannelKind::GuildVoice
    } else if str_eq(name, "GuildCategory") || str_eq(name, "category") {
        ChannelKind::GuildCategory
    } else if str_eq(name, "GuildForum") || str_eq(name, "forum") {
        ChannelKind::GuildForum
    } else if str_eq(name, "thread") || str_eq(name, "public_thread") || str_eq(
        name,
        "private_thread",
    ) {
        ChannelKind::Thread
    } else if str_eq(name, "dm") || str_eq(name, "DirectMessage") {
        ChannelKind::DirectMessage
    } else if str_eq(name, "group_dm") || str_eq(name, "GroupDirectMessage") {
        ChannelKind::GroupDirectMessage
    } else {
        ChannelKind::GuildText
    }
}

/// The state kept for a channel Discord described; until permissions say otherwise the
/// user may see it, post and attach there.
pub open spec fn channel_from_info(info: ChannelInfo) -> ChannelState {
    ChannelState {
        id: info.channel_id,
        guild_id: info.guild_id,
        parent_id: info.parent_id,
        last_message_id: info.last_message_id,
        name: info.name,
        kind: kind_from_name(info.kind@),
        viewable: true,
        can_send: true,
        can_attach: true,
        message_count: info.message_count,
        total_message_sent: info.total_message_sent,
        thread_archived: info.thread_archived,
        thread_locked: info.thread_locked,
    }
}

/// The state kept for a message Discord described.
pub open spec fn message_from_info(info: MessageInfo) -> MessageState {
    MessageState {
        id: info.message_id,
        guild_id: info.guild_id,
        channel_id: info.channel_id,
        author_id: info.author_id,
        author: info.author,
        content: info.content,
        message_kind: info.message_kind,
        reference: info.reference,
        sticker_names: info.sticker_names,
        mentions: info.mentions,
        pinned: info.pinned,
        attachments: info.attachments,
        forwarded_snapshots: info.forwarded_snapshots,
    }
}

/// A message from a page of history: pinned when Discord says so or when it is among the
/// channel's loaded pinned messages, so that a later page does not lose what the pins said.
pub open spec fn message_from_history(info: MessageInfo, pinned_ids: Seq<u64>) -> MessageState {
    MessageState {
        pinned: info.pinned || pinned_ids.contains(info.message_id),
        ..message_from_info(info)
    }
}

pub fn channel_state_from_info(info: ChannelInfo) -> (c: ChannelState)
    ensures
        c == channel_from_info(info),
{
    let kind = channel_kind_of(info.kind.as_str());
    ChannelState {
        id: info.channel_id,
        guild_id: info.guild_id,
        parent_id: info.parent_id,
        last_message_id: info.last_message_id,
        name: info.name,
        kind,
        viewable: true,
        can_send: true,
        can_attach: true,
        message_count: info.message_count,
        total_message_sent: info.total_message_sent,
        thread_archived: info.thread_archived,
        thread_locked: info.thread_locked,
    }
}

pub fn message_state_from_info(info: MessageInfo) -> (m: MessageState)
    ensures
        m == message_from_info(info),
{
    MessageState {
        id: info.message_id,
        guild_id: info.guild_id,
        channel_id: info.channel_id,
        author_id: info.author_id,
        author: info.author,
        content: info.content,
        message_kind: info.message_kind,
        reference: info.reference,
        sticker_names: info.sticker_names,
        mentions: info.mentions,
        pinned: info.pinned,
        attachments: info.attachments,
        forwarded_snapshots: info.forwarded_snapshots,
    }
}

/// The loaded messages of a channel after a new message arrived: it is added at the end
/// unless a message with its id is loaded already.
pub open spec fn with_new_message(old: Seq<MessageState>, m: MessageState) -> Seq<MessageState> {
    if keys_of(old).contains(m.id) {
        old
    } else {
        old.push(m)
    }
}

/// The loaded messages of a channel after a page of history arrived: the newest page
/// replaces them; an older page goes in front of them. A message loaded twice is kept once,
/// where it first occurs.
pub open spec fn with_history_page(old: Seq<MessageState>, before: Option<u64>, page: Seq<MessageState>) -> Seq<
    MessageState,
> {
    match before {
        None => dedup_by_key(page),
        Some(_) => dedup_by_key(page + old),
    }
}

/// A keyed list after `x` went in: in the place of the first value with its id, or at the end.
pub open spec fn upserted<T: Keyed>(s: Seq<T>, x: T) -> Seq<T> {
    match lookup_index(s, x.key_spec()) {
        Some(i) => s.update(i, x),
        None => s.push(x),
    }
}

/// A keyed list after each of `xs` went in, in order.
pub open spec fn upserted_all<T: Keyed>(s: Seq<T>, xs: Seq<T>) -> Seq<T>
    decreases xs.len(),
{
    if xs.len() == 0 {
        s
    } else {
        upserted(upserted_all(s, xs.drop_last()), xs.last())
    }
}

/// A channel with its newest message set.
pub open spec fn with_last_message(c: ChannelState, message_id: u64) -> ChannelState {
    ChannelState { last_message_id: Some(message_id), ..c }
}

/// The message state for a message Discord announced.
pub open spec fn message_from_create(
    guild_id: Option<u64>,
    channel_id: u64,
    message_id: u64,
    author_id: u64,
    author: String,
    content: Option<String>,
    message_kind: u8,
    reference: Option<MessageReferenceInfo>,
    sticker_names: Vec<String>,
    mentions: Vec<MentionInfo>,
    attachments: Vec<AttachmentInfo>,
    forwarded_snapshots: Vec<MessageSnapshotInfo>,
) -> MessageState {
    MessageState {
        id: message_id,
        guild_id,
        channel_id,
        author_id,
        author,
        content,
        message_kind,
        reference,
        sticker_names,
        mentions,
        pinned: false,
        attachments,
        forwarded_snapshots,
    }
}

/// The state kept for a member Discord described; presence is not known yet.
pub open spec fn member_from_info(info: MemberInfo) -> GuildMemberState {
    GuildMemberState {
        user_id: info.user_id,
        display_name: info.display_name,
        username: info.username,
        is_bot: info.is_bot,
        avatar_url: info.avatar_url,
        role_ids: info.role_ids,
        status: PresenceStatus::Unknown,
    }
}

pub fn member_state_from_info(info: MemberInfo) -> (m: GuildMemberState)
    ensures
        m == member_from_info(info),
{
    GuildMemberState {
        user_id: info.user_id,
        display_name: info.display_name,
        username: info.username,
        is_bot: info.is_bot,
        avatar_url: info.avatar_url,
        role_ids: info.role_ids,
        status: PresenceStatus::Unknown,
    }
}

fn ids_of_messages(messages: &Vec<MessageState>) -> (ids: Vec<u64>)
    ensures
        ids@ == keys_of(messages@),
{
    let mut ids: Vec<u64> = Vec::new();
    let mut i: usize = 0;
    while i < messages.len()
        invariant
            i <= messages@.len(),
            ids@ == keys_of(messages@.take(i as int)),
        decreases messages@.len() - i,
    {
        ids.push(messages[i].id);
        assert(keys_of(messages@.take(i + 1)) =~= keys_of(messages@.take(i as int)).push(
            messages@[i as int].id,
        ));
        i = i + 1;
    }
    assert(messages@.take(messages@.len() as int) =~= messages@);
    ids
}

fn contains_id(ids: &Vec<u64>, id: u64) -> (found: bool)
    ensures
        found == ids@.contains(id),
{
    crate::keyed::ids_contain(ids, id)
}

impl DiscordState {
    /// Everything but the loaded messages is unchanged.
    pub open spec fn same_but_messages(self, other: DiscordState) -> bool {
        &&& self.guilds == other.guilds
        &&& self.channels == other.channels
        &&& self.read_states == other.read_states
        &&& self.pinned_messages == other.pinned_messages
        &&& self.notification_settings == other.notification_settings
        &&& self.private_notification_settings == other.private_notification_settings
        &&& self.members == other.members
        &&& self.roles == other.roles
        &&& self.current_user_id == other.current_user_id
        &&& self.current_user == other.current_user
    }

    /// Takes the entry of a channel out of a keyed list of message lists, leaving an empty
    /// list with the same key in its place.
    fn take_channel_messages(list: &mut Vec<ChannelMessages>, channel_id: u64) -> (taken: Vec<
        MessageState,
    >)
        ensures
            taken@ == (match lookup(old(list)@, channel_id) {
                Some(e) => e.messages@,
                None => Seq::empty(),
            }),
            lookup(final(list)@, channel_id) is Some,
            forall|c: u64| c != channel_id ==> lookup(final(list)@, c) == lookup(old(list)@, c),
    {
        match find_index(list, channel_id) {
            Some(i) => {
                let ghost before = list@;
                let placeholder = ChannelMessages { channel_id, messages: Vec::new() };
                let ghost ph = placeholder;
                let entry = swap_at(list, i, placeholder);
                proof {
                    lemma_lookup_index(before, channel_id);
                    assert forall|c: u64| c != channel_id implies lookup(list@, c) == lookup(
                        before,
                        c,
                    ) by {
                        lemma_lookup_update(before, i as int, ph, c);
                    }
                    crate::keyed::lemma_lookup_some(list@, channel_id, i as int);
                }
                entry.messages
            },
            None => {
                upsert(list, ChannelMessages { channel_id, messages: Vec::new() });
                Vec::new()
            },
        }
    }

    /// Adds a message to its channel's loaded messages unless one with its id is loaded.
    pub fn insert_message(&mut self, m: MessageState)
        ensures
            final(self).channel_messages_spec(m.channel_id) == with_new_message(
                old(self).channel_messages_spec(m.channel_id),
                m,
            ),
            forall|c: u64| c != m.channel_id ==> final(self).channel_messages_spec(c) == old(self).channel_messages_spec(c),
            final(self).same_but_messages(*old(self)),
    {
        let channel_id = m.channel_id;
        let mut messages = Self::take_channel_messages(&mut self.messages, channel_id);
        let ids = ids_of_messages(&messages);
        if !contains_id(&ids, m.id) {
            messages.push(m);
        }
        upsert(&mut self.messages, ChannelMessages { channel_id, messages });
    }

    /// Records a page of a channel's history.
    pub fn record_history_page(&mut self, channel_id: u64, before: Option<u64>, page: Vec<MessageInfo>)
        ensures
            final(self).channel_messages_spec(channel_id) == with_history_page(
                old(self).channel_messages_spec(channel_id),
                before,
                page@.map_values(
                    |i: MessageInfo|
                        message_from_history(i, keys_of(old(self).pinned_messages_spec(channel_id))),
                ),
            ),
            forall|c: u64| c != channel_id ==> final(self).channel_messages_spec(c) == old(self).channel_messages_spec(c),
            final(self).same_but_messages(*old(self)),
    {
        let pinned_ids = match find_index(&self.pinned_messages, channel_id) {
            Some(i) => ids_of_messages(&self.pinned_messages[i].messages),
            None => Vec::new(),
        };
        let ghost pids = keys_of(self.pinned_messages_spec(channel_id));
        assert(pinned_ids@ =~= pids);
        let old_messages = Self::take_channel_messages(&mut self.messages, channel_id);
        let mut converted: Vec<MessageState> = Vec::new();
        let ghost pg = page@;
        for info in it: page.into_iter()
            invariant
                it.seq() == pg,
                pinned_ids@ == pids,
                converted@ == it.seq().take(it.index() as int).map_values(
                    |i: MessageInfo| message_from_history(i, pids),
                ),
        {
            let ghost k = it.index() as int;
            let ghost inf = info;
            let mut m = message_state_from_info(info);
            if !m.pinned && contains_id(&pinned_ids, m.id) {
                m.pinned = true;
            }
            assert(m == message_from_history(inf, pids));
            converted.push(m);
            assert(it.seq().take(k + 1).map_values(|i: MessageInfo| message_from_history(i, pids))
                =~= it.seq().take(k).map_values(|i: MessageInfo| message_from_history(i, pids)).push(
                message_from_history(inf, pids),
            ));
        }
        assert(pg.take(pg.len() as int) =~= pg);
        let ghost page_states = converted@;
        assert(page_states == pg.map_values(|i: MessageInfo| message_from_history(i, pids)));
        let mut merged: Vec<MessageState> = Vec::new();
        let mut seen: Vec<u64> = Vec::new();
        proof {
            assert(dedup_by_key(Seq::<MessageState>::empty()) =~= Seq::<MessageState>::empty());
            assert(keys_of(merged@) =~= Seq::<u64>::empty());
        }
        append_unseen(&mut merged, &mut seen, converted, Ghost(Seq::empty()));
        assert(Seq::<MessageState>::empty() + page_states =~= page_states);
        if before.is_some() {
            append_unseen(&mut merged, &mut seen, old_messages, Ghost(page_states));
        }
        upsert(&mut self.messages, ChannelMessages { channel_id, messages: merged });
    }

    /// Everything but the channels is unchanged.
    pub open spec fn same_but_channels(self, other: DiscordState) -> bool {
        &&& self.guilds == other.guilds
        &&& self.read_states == other.read_states
        &&& self.messages == other.messages
        &&& self.pinned_messages == other.pinned_messages
        &&& self.notification_settings == other.notification_settings
        &&& self.private_notification_settings == other.private_notification_settings
        &&& self.members == other.members
        &&& self.roles == other.roles
        &&& self.current_user_id == other.current_user_id
        &&& self.current_user == other.current_user
    }

    /// Records the channels Discord described, in order.
    pub fn upsert_channel_infos(&mut self, infos: Vec<ChannelInfo>)
        ensures
            final(self).channels@ == upserted_all(
                old(self).channels@,
                infos@.map_values(|i: ChannelInfo| channel_from_info(i)),
            ),
            final(self).same_but_channels(*old(self)),
    {
        let ghost start = self.channels@;
        let ghost all = infos@;
        for info in it: infos.into_iter()
            invariant
                it.seq() == all,
                self.channels@ == upserted_all(
                    start,
                    all.take(it.index() as int).map_values(|i: ChannelInfo| channel_from_info(i)),
                ),
                self.same_but_channels(*old(self)),
        {
            let ghost k = it.index() as int;
            let c = channel_state_from_info(info);
            upsert(&mut self.channels, c);
            assert(all.take(k + 1).map_values(|i: ChannelInfo| channel_from_info(i)).drop_last()
                =~= all.take(k).map_values(|i: ChannelInfo| channel_from_info(i)));
        }
        assert(all.take(all.len() as int) =~= all);
    }

    /// Sets the newest message of a known channel.
    pub fn set_channel_last_message(&mut self, channel_id: u64, message_id: u64)
        ensures
            final(self).channels@ == (match lookup_index(old(self).channels@, channel_id) {
                Some(i) => old(self).channels@.update(
                    i,
                    with_last_message(old(self).channels@[i], message_id),
                ),
                None => old(self).channels@,
            }),
            final(self).same_but_channels(*old(self)),
    {
        match find_index(&self.channels, channel_id) {
            Some(i) => {
                proof {
                    lemma_lookup_index(self.channels@, channel_id);
                }
                let placeholder = ChannelState {
                    id: channel_id,
                    guild_id: None,
                    parent_id: None,
                    last_message_id: None,
                    name: String::new(),
                    kind: ChannelKind::GuildText,
                    viewable: false,
                    can_send: false,
                    can_attach: false,
                    message_count: None,
                    total_message_sent: None,
                    thread_archived: None,
                    thread_locked: None,
                };
                let mut channel = swap_at(&mut self.channels, i, placeholder);
                channel.last_message_id = Some(message_id);
                self.channels.set(i, channel);
            },
            None => {},
        }
    }

    /// Replaces the loaded pinned messages of a channel.
    pub fn record_pinned_messages(&mut self, channel_id: u64, page: Vec<MessageInfo>)
        ensures
            final(self).pinned_messages_spec(channel_id) == page@.map_values(
                |i: MessageInfo| message_from_info(i),
            ),
            forall|c: u64| c != channel_id ==> final(self).pinned_messages_spec(c) == old(self).pinned_messages_spec(c),
            final(self).guilds == old(self).guilds,
            final(self).channels == old(self).channels,
            final(self).read_states == old(self).read_states,
            final(self).messages == old(self).messages,
            final(self).notification_settings == old(self).notification_settings,
            final(self).private_notification_settings == old(self).private_notification_settings,
            final(self).members == old(self).members,
            final(self).roles == old(self).roles,
            final(self).current_user_id == old(self).current_user_id,
            final(self).current_user == old(self).current_user,
    {
        let _ = Self::take_channel_messages(&mut self.pinned_messages, channel_id);
        let mut converted: Vec<MessageState> = Vec::new();
        let ghost pg = page@;
        for info in it: page.into_iter()
            invariant
                it.seq() == pg,
                converted@ == it.seq().take(it.index() as int).map_values(
                    |i: MessageInfo| message_from_info(i),
                ),
        {
            let ghost k = it.index() as int;
            converted.push(message_state_from_info(info));
            assert(it.seq().take(k + 1).map_values(|i: MessageInfo| message_from_info(i))
                =~= it.seq().take(k).map_values(|i: MessageInfo| message_from_info(i)).push(
                message_from_info(info),
            ));
        }
        assert(pg.take(pg.len() as int) =~= pg);
        upsert(&mut self.pinned_messages, ChannelMessages { channel_id, messages: converted });
    }


    /// `self` is `old` after `event`: the user's identity from `Ready`; a guild and its
    /// channels from `GuildCreate`; a new message, and its channel's newest message, from
    /// `MessageCreate`; a page of history or of pinned messages; the posts of a forum page.
    /// Other events change nothing here.
    pub open spec fn applied(self, old: DiscordState, event: AppEvent) -> bool {
        match event {
            AppEvent::Ready { user, user_id } => {
                &&& self.current_user == Some(user)
                &&& self.current_user_id == user_id
                &&& self.guilds == old.guilds
                &&& self.channels == old.channels
                &&& self.messages == old.messages
                &&& self.pinned_messages == old.pinned_messages
                &&& self.read_states == old.read_states
                &&& self.members == old.members
                &&& self.roles == old.roles
                &&& self.notification_settings == old.notification_settings
                &&& self.private_notification_settings == old.private_notification_settings
            },
            AppEvent::GuildCreate { guild_id, name, channels, members, roles } => {
                &&& self.guilds@ == upserted(old.guilds@, GuildState { id: guild_id, name })
                &&& self.channels@ == upserted_all(
                    old.channels@,
                    channels@.map_values(|i: ChannelInfo| channel_from_info(i)),
                )
                &&& self.guild_members_spec(guild_id) == dedup_by_key(
                    members@.map_values(|i: MemberInfo| member_from_info(i)),
                )
                &&& forall|g: u64| g != guild_id ==> self.guild_members_spec(g)
                    == old.guild_members_spec(g)
                &&& lookup(self.roles@, guild_id) matches Some(r) && r.roles == roles
                &&& forall|g: u64| g != guild_id ==> lookup(self.roles@, g) == lookup(old.roles@, g)
                &&& self.messages == old.messages
                &&& self.pinned_messages == old.pinned_messages
                &&& self.read_states == old.read_states
                &&& self.notification_settings == old.notification_settings
                &&& self.private_notification_settings == old.private_notification_settings
                &&& self.current_user == old.current_user
                &&& self.current_user_id == old.current_user_id
            },
            AppEvent::MessageCreate {
                guild_id,
                channel_id,
                message_id,
                author_id,
                author,
                content,
                message_kind,
                reference,
                mentions,
                sticker_names,
                attachments,
                forwarded_snapshots,
                ..
            } => {
                let m = message_from_create(
                    guild_id,
                    channel_id,
                    message_id,
                    author_id,
                    author,
                    content,
                    message_kind,
                    reference,
                    sticker_names,
                    mentions,
                    attachments,
                    forwarded_snapshots,
                );
                &&& self.channel_messages_spec(channel_id) == with_new_message(
                    old.channel_messages_spec(channel_id),
                    m,
                )
                &&& forall|c: u64| c != channel_id ==> self.channel_messages_spec(c)
                    == old.channel_messages_spec(c)
                &&& self.channels@ == (match lookup_index(old.channels@, channel_id) {
                    Some(i) => old.channels@.update(
                        i,
                        with_last_message(old.channels@[i], message_id),
                    ),
                    None => old.channels@,
                })
                &&& self.guilds == old.guilds
                &&& self.pinned_messages == old.pinned_messages
                &&& self.members == old.members
                &&& self.roles == old.roles
                &&& self.notification_settings == old.notification_settings
                &&& self.private_notification_settings == old.private_notification_settings
                &&& self.current_user == old.current_user
                &&& self.current_user_id == old.current_user_id
            },
            AppEvent::ChannelUpsert(info) => {
                &&& self.channels@ == upserted(old.channels@, channel_from_info(info))
                &&& self.same_but_channels(old)
            },
            AppEvent::GuildMemberUpsert { guild_id, member } => {
                &&& self.guild_members_spec(guild_id) == upserted(
                    old.guild_members_spec(guild_id),
                    member_from_info(member),
                )
                &&& forall|g: u64| g != guild_id ==> self.guild_members_spec(g)
                    == old.guild_members_spec(g)
                &&& self.guilds == old.guilds
                &&& self.channels == old.channels
                &&& self.messages == old.messages
                &&& self.pinned_messages == old.pinned_messages
                &&& self.read_states == old.read_states
                &&& self.roles == old.roles
                &&& self.notification_settings == old.notification_settings
                &&& self.private_notification_settings == old.private_notification_settings
                &&& self.current_user == old.current_user
                &&& self.current_user_id == old.current_user_id
            },
            AppEvent::MessageHistoryLoaded { channel_id, before, messages } => {
                &&& self.channel_messages_spec(channel_id) == with_history_page(
                    old.channel_messages_spec(channel_id),
                    before,
                    messages@.map_values(
                        |i: MessageInfo|
                            message_from_history(i, keys_of(old.pinned_messages_spec(channel_id))),
                    ),
                )
                &&& forall|c: u64| c != channel_id ==> self.channel_messages_spec(c)
                    == old.channel_messages_spec(c)
                &&& self.same_but_messages(old)
            },
            AppEvent::PinnedMessagesLoaded { channel_id, messages } => {
                &&& self.pinned_messages_spec(channel_id) == messages@.map_values(
                    |i: MessageInfo| message_from_info(i),
                )
                &&& forall|c: u64| c != channel_id ==> self.pinned_messages_spec(c)
                    == old.pinned_messages_spec(c)
                &&& self.guilds == old.guilds
                &&& self.channels == old.channels
                &&& self.messages == old.messages
                &&& self.read_states == old.read_states
                &&& self.members == old.members
                &&& self.roles == old.roles
                &&& self.notification_settings == old.notification_settings
                &&& self.private_notification_settings == old.private_notification_settings
                &&& self.current_user == old.current_user
                &&& self.current_user_id == old.current_user_id
            },
            AppEvent::ForumPostsLoaded { posts, .. } => {
                &&& self.channels@ == upserted_all(
                    old.channels@,
                    posts@.map_values(|i: ChannelInfo| channel_from_info(i)),
                )
                &&& self.same_but_channels(old)
            },
            _ => {
                &&& self.guilds == old.guilds
                &&& self.channels == old.channels
                &&& self.messages == old.messages
                &&& self.pinned_messages == old.pinned_messages
                &&& self.members == old.members
                &&& self.roles == old.roles
                &&& self.notification_settings == old.notification_settings
                &&& self.private_notification_settings == old.private_notification_settings
                &&& self.current_user == old.current_user
                &&& self.current_user_id == old.current_user_id
            },
        }
    }

    /// Applies an event to what the client knows.
    pub fn apply_event(&mut self, event: AppEvent)
        ensures
            final(self).applied(*old(self), event),
            final(self).read_states == old(self).read_states,
    {
        match event {
            AppEvent::Ready { user, user_id } => {
                self.current_user = Some(user);
                self.current_user_id = user_id;
            },
            AppEvent::GuildCreate { guild_id, name, channels, members, roles } => {
                let ghost start = *self;
                let ghost rs = roles;
                upsert(&mut self.guilds, GuildState { id: guild_id, name });
                self.upsert_channel_infos(channels);
                let ghost mid = *self;
                self.replace_guild_members(guild_id, members);
                let ghost after_members = *self;
                upsert(&mut self.roles, GuildRoles { guild_id, roles });
                assert(self.members == after_members.members);
                assert(mid.members == start.members);
                assert forall|g: u64| g != guild_id implies self.guild_members_spec(g)
                    == start.guild_members_spec(g) by {
                    assert(self.guild_members_spec(g) == after_members.guild_members_spec(g));
                    assert(after_members.guild_members_spec(g) == mid.guild_members_spec(g));
                }
            },
            AppEvent::ChannelUpsert(info) => {
                let c = channel_state_from_info(info);
                upsert(&mut self.channels, c);
            },
            AppEvent::GuildMemberUpsert { guild_id, member } => {
                self.upsert_guild_member(guild_id, member_state_from_info(member));
            },
            AppEvent::MessageCreate {
                guild_id,
                channel_id,
                message_id,
                author_id,
                author,
                content,
                message_kind,
                reference,
                mentions,
                sticker_names,
                attachments,
                forwarded_snapshots,
                ..
            } => {
                let m = MessageState {
                    id: message_id,
                    guild_id,
                    channel_id,
                    author_id,
                    author,
                    content,
                    message_kind,
                    reference,
                    sticker_names,
                    mentions,
                    pinned: false,
                    attachments,
                    forwarded_snapshots,
                };
                self.insert_message(m);
                self.set_channel_last_message(channel_id, message_id);
            },
            AppEvent::MessageHistoryLoaded { channel_id, before, messages } => {
                self.record_history_page(channel_id, before, messages);
            },
            AppEvent::PinnedMessagesLoaded { channel_id, messages } => {
                self.record_pinned_messages(channel_id, messages);
            },
            AppEvent::ForumPostsLoaded { posts, .. } => {
                self.upsert_channel_infos(posts);
            },
            _ => {},
        }
    }


    /// Everything but the read states is as in `other`.
    pub open spec fn same_but_reads(self, other: DiscordState) -> bool {
        &&& self.guilds == other.guilds
        &&& self.channels == other.channels
        &&& self.messages == other.messages
        &&& self.pinned_messages == other.pinned_messages
        &&& self.members == other.members
        &&& self.roles == other.roles
        &&& self.notification_settings == other.notification_settings
        &&& self.private_notification_settings == other.private_notification_settings
        &&& self.current_user == other.current_user
        &&& self.current_user_id == other.current_user_id
    }

    /// `self` is `old` with channel `channel_id` read up to message `m` and its counts cleared.
    pub open spec fn read_after_ack(self, old: DiscordState, channel_id: u64, m: u64) -> bool {
        &&& lookup(self.read_states@, channel_id) == Some(
            ReadState {
                channel_id,
                last_acked_message_id: Some(m),
                mention_count: 0,
                notification_count: 0,
            },
        )
        &&& forall|c: u64| c != channel_id ==> lookup(self.read_states@, c) == lookup(
            old.read_states@,
            c,
        )
        &&& self.guilds == old.guilds
        &&& self.channels == old.channels
        &&& self.messages == old.messages
        &&& self.pinned_messages == old.pinned_messages
        &&& self.members == old.members
        &&& self.roles == old.roles
        &&& self.notification_settings == old.notification_settings
        &&& self.private_notification_settings == old.private_notification_settings
        &&& self.current_user == old.current_user
        &&& self.current_user_id == old.current_user_id
    }

    /// Marks a channel read up to its newest known message, and clears its counts; hands
    /// back that message, or nothing (and changes nothing) when none is known.
    pub fn ack_channel_read(&mut self, channel_id: u64) -> (acked: Option<u64>)
        ensures
            acked == (match lookup(old(self).channels@, channel_id) {
                Some(c) => c.last_message_id,
                None => None,
            }),
            acked matches Some(m) ==> lookup(final(self).read_states@, channel_id) == Some(
                ReadState {
                    channel_id,
                    last_acked_message_id: Some(m),
                    mention_count: 0,
                    notification_count: 0,
                },
            ),
            acked is None ==> final(self).read_states == old(self).read_states,
            forall|c: u64| c != channel_id ==> lookup(final(self).read_states@, c) == lookup(
                old(self).read_states@,
                c,
            ),
            final(self).guilds == old(self).guilds,
            final(self).channels == old(self).channels,
            final(self).messages == old(self).messages,
            final(self).pinned_messages == old(self).pinned_messages,
            final(self).members == old(self).members,
            final(self).roles == old(self).roles,
            final(self).notification_settings == old(self).notification_settings,
            final(self).private_notification_settings == old(self).private_notification_settings,
            final(self).current_user == old(self).current_user,
            final(self).current_user_id == old(self).current_user_id,
    {
        let latest = match find_index(&self.channels, channel_id) {
            Some(i) => self.channels[i].last_message_id,
            None => None,
        };
        match latest {
            Some(m) => {
                upsert(
                    &mut self.read_states,
                    ReadState {
                        channel_id,
                        last_acked_message_id: Some(m),
                        mention_count: 0,
                        notification_count: 0,
                    },
                );
                Some(m)
            },
            None => None,
        }
    }


    /// The loaded members of a guild; empty when none are loaded.
    pub open spec fn guild_members_spec(self, guild_id: u64) -> Seq<GuildMemberState> {
        match lookup(self.members@, guild_id) {
            Some(entry) => entry.members@,
            None => Seq::empty(),
        }
    }

    /// Everything but the members is unchanged.
    pub open spec fn same_but_members(self, other: DiscordState) -> bool {
        &&& self.guilds == other.guilds
        &&& self.channels == other.channels
        &&& self.messages == other.messages
        &&& self.pinned_messages == other.pinned_messages
        &&& self.read_states == other.read_states
        &&& self.roles == other.roles
        &&& self.notification_settings == other.notification_settings
        &&& self.private_notification_settings == other.private_notification_settings
        &&& self.current_user == other.current_user
        &&& self.current_user_id == other.current_user_id
    }

    fn take_guild_members(list: &mut Vec<GuildMembers>, guild_id: u64) -> (taken: Vec<GuildMemberState>)
        ensures
            taken@ == (match lookup(old(list)@, guild_id) {
                Some(e) => e.members@,
                None => Seq::empty(),
            }),
            lookup(final(list)@, guild_id) is Some,
            forall|g: u64| g != guild_id ==> lookup(final(list)@, g) == lookup(old(list)@, g),
    {
        match find_index(list, guild_id) {
            Some(i) => {
                let ghost before = list@;
                let placeholder = GuildMembers { guild_id, members: Vec::new() };
                let ghost ph = placeholder;
                let entry = swap_at(list, i, placeholder);
                proof {
                    lemma_lookup_index(before, guild_id);
                    assert forall|g: u64| g != guild_id implies lookup(list@, g) == lookup(before, g) by {
                        lemma_lookup_update(before, i as int, ph, g);
                    }
                    crate::keyed::lemma_lookup_some(list@, guild_id, i as int);
                }
                entry.members
            },
            None => {
                upsert(list, GuildMembers { guild_id, members: Vec::new() });
                Vec::new()
            },
        }
    }

    /// Replaces the members of a guild with those Discord listed, each kept once.
    pub fn replace_guild_members(&mut self, guild_id: u64, members: Vec<MemberInfo>)
        ensures
            final(self).guild_members_spec(guild_id) == dedup_by_key(
                members@.map_values(|i: MemberInfo| member_from_info(i)),
            ),
            forall|g: u64| g != guild_id ==> final(self).guild_members_spec(g) == old(self).guild_members_spec(g),
            final(self).same_but_members(*old(self)),
    {
        let _ = Self::take_guild_members(&mut self.members, guild_id);
        let mut converted: Vec<GuildMemberState> = Vec::new();
        let ghost all = members@;
        for info in it: members.into_iter()
            invariant
                it.seq() == all,
                converted@ == it.seq().take(it.index() as int).map_values(
                    |i: MemberInfo| member_from_info(i),
                ),
        {
            let ghost k = it.index() as int;
            converted.push(member_state_from_info(info));
            assert(it.seq().take(k + 1).map_values(|i: MemberInfo| member_from_info(i))
                =~= it.seq().take(k).map_values(|i: MemberInfo| member_from_info(i)).push(
                member_from_info(info),
            ));
        }
        assert(all.take(all.len() as int) =~= all);
        let mut kept: Vec<GuildMemberState> = Vec::new();
        let mut seen: Vec<u64> = Vec::new();
        proof {
            assert(dedup_by_key(Seq::<GuildMemberState>::empty()) =~= Seq::<GuildMemberState>::empty());
            assert(keys_of(kept@) =~= Seq::<u64>::empty());
        }
        let ghost states = converted@;
        append_unseen(&mut kept, &mut seen, converted, Ghost(Seq::empty()));
        assert(Seq::<GuildMemberState>::empty() + states =~= states);
        upsert(&mut self.members, GuildMembers { guild_id, members: kept });
    }

    /// Records one member of a guild, in place of the one with the same user.
    pub fn upsert_guild_member(&mut self, guild_id: u64, member: GuildMemberState)
        ensures
            final(self).guild_members_spec(guild_id) == upserted(
                old(self).guild_members_spec(guild_id),
                member,
            ),
            forall|g: u64| g != guild_id ==> final(self).guild_members_spec(g) == old(self).guild_members_spec(g),
            final(self).same_but_members(*old(self)),
    {
        let mut list = Self::take_guild_members(&mut self.members, guild_id);
        upsert(&mut list, member);
        upsert(&mut self.members, GuildMembers { guild_id, members: list });
    }

}

} // verus!
