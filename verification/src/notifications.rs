use vstd::prelude::*;

use crate::discord::{MentionInfo, NotificationLevel};
use crate::discord_state::{
    ChannelKind, ChannelNotificationOverrideInfo, ChannelNotificationSettingsState, ChannelState,
    DiscordState, GuildMemberState, GuildMembers, GuildNotificationEntry,
    GuildNotificationSettingsInfo, GuildNotificationSettingsState, MessageState, ReadState,
};

use crate::events::AppEvent;
use crate::keyed::{Keyed, find_index, lookup, upsert};
use crate::text::{chars_of, chars_contain, contains_spec, decimal_spec, push_decimal, push_str, string_push};

verus! {

/// How unread a channel (or a guild, or the direct messages) is.
#[derive(Clone, Copy, Debug, PartialEq, Eq, Structural)]
pub enum ChannelUnreadState {
    Seen,
    Unread,
    Mentioned(u32),
    Notified(u32),
}

/// What a new message asks of the current user.
#[derive(Clone, Copy, Debug, PartialEq, Eq, Structural)]
pub enum MessageNotificationKind {
    Nothing,
    Mention,
    Notify,
}

// ---------------------------------------------------------------------------
// Time
// ---------------------------------------------------------------------------

/// An instant in UTC: whole seconds since the Unix epoch and the nanoseconds past them.
pub type UtcInstant = (i64, u32);

/// Whether instant `a` lies after instant `b`.
pub open spec fn instant_after(a: UtcInstant, b: UtcInstant) -> bool {
    a.0 > b.0 || (a.0 == b.0 && a.1 > b.1)
}

/// The instant an RFC 3339 timestamp denotes, or none when the text is not one.
pub uninterp spec fn rfc3339_instant(text: Seq<char>) -> Option<UtcInstant>;

/// Parses an RFC 3339 timestamp with `chrono::DateTime::parse_from_rfc3339` and gives its
/// instant as (`timestamp()`, `timestamp_subsec_nanos()`). The result is claimed to be a
/// function of the text alone; its value is not stated.
#[verifier::external_body]
fn parse_rfc3339_instant(text: &str) -> (instant: Option<UtcInstant>)
    ensures
        instant == rfc3339_instant(text@),
{
    chrono::DateTime::parse_from_rfc3339(text).ok().map(
        |time| (time.timestamp(), time.timestamp_subsec_nanos()),
    )
}

/// The current instant from the system clock (`std::time::SystemTime::now`), as whole seconds
/// and nanoseconds since the Unix epoch. Nothing is claimed of the value: it depends on the
/// clock. A clock set before 1970 gives the epoch itself, so the call cannot panic.
#[verifier::external_body]
pub(crate) fn utc_now() -> (now: UtcInstant) {
    match std::time::SystemTime::now().duration_since(std::time::UNIX_EPOCH) {
        Ok(elapsed) => (elapsed.as_secs() as i64, elapsed.subsec_nanos()),
        Err(_) => (0, 0),
    }
}

/// A mute is in force when it is set and either has no end, has an end that cannot be read,
/// or ends after `now`.
pub open spec fn setting_muted_spec(muted: bool, end_time: Option<String>, now: UtcInstant) -> bool {
    muted && match end_time {
        None => true,
        Some(end) => match rfc3339_instant(end@) {
            None => true,
            Some(end) => instant_after(end, now),
        },
    }
}

/// Whether a mute setting is in force at `now`.
pub fn notification_setting_muted(muted: bool, end_time: &Option<String>, now: UtcInstant) -> (r:
    bool)
    ensures
        r == setting_muted_spec(muted, *end_time, now),
{
    if !muted {
        return false;
    }
    match end_time {
        None => true,
        Some(end) => match parse_rfc3339_instant(end.as_str()) {
            None => true,
            Some(end) => end.0 > now.0 || (end.0 == now.0 && end.1 > now.1),
        },
    }
}

/// A count as a `u32`, saturating at `u32::MAX`.
pub open spec fn saturating_u32_spec(count: nat) -> u32 {
    if count > u32::MAX {
        u32::MAX
    } else {
        count as u32
    }
}

pub fn saturating_u32_count(count: usize) -> (r: u32)
    ensures
        r == saturating_u32_spec(count as nat),
{
    if count > u32::MAX as usize {
        u32::MAX
    } else {
        count as u32
    }
}

/// `a + b`, saturating at `u32::MAX`.
pub open spec fn sat_add_u32(a: u32, b: u32) -> u32 {
    if a + b > u32::MAX {
        u32::MAX
    } else {
        (a + b) as u32
    }
}

/// The text of a role mention: `<@&ID>`.
pub open spec fn role_mention_text(role_id: u64) -> Seq<char> {
    "<@&"@ + decimal_spec(role_id as nat) + ">"@
}

/// Whether the text mentions one of the roles.
pub open spec fn any_role_mentioned(content: Seq<char>, roles: Seq<u64>) -> bool
    decreases roles.len(),
{
    roles.len() > 0 && (any_role_mentioned(content, roles.drop_last()) || contains_spec(
        content,
        role_mention_text(roles.last()),
    ))
}

proof fn lemma_role_prefix_mentioned(content: Seq<char>, roles: Seq<u64>, k: int)
    requires
        0 <= k <= roles.len(),
        any_role_mentioned(content, roles.take(k)),
    ensures
        any_role_mentioned(content, roles),
    decreases roles.len(),
{
    if k < roles.len() {
        assert(roles.drop_last().take(k) =~= roles.take(k));
        lemma_role_prefix_mentioned(content, roles.drop_last(), k);
    } else {
        assert(roles.take(k) =~= roles);
    }
}

/// The text of an optional content, empty when there is none.
pub open spec fn content_text(content: Option<String>) -> Seq<char> {
    match content {
        Some(c) => c@,
        None => Seq::empty(),
    }
}

/// A level that defers to its parent counts as no level.
pub open spec fn explicit_level(level: Option<NotificationLevel>) -> Option<NotificationLevel> {
    match level {
        Some(NotificationLevel::ParentDefault) => None,
        other => other,
    }
}

/// A copy of an optional string.
pub fn clone_opt_string(value: &Option<String>) -> (copy: Option<String>)
    ensures
        copy == *value,
{
    match value {
        Some(v) => Some(v.clone()),
        None => None,
    }
}

/// The override Discord sent last for a channel, as it is kept.
pub open spec fn last_override(overrides: Seq<ChannelNotificationOverrideInfo>, channel_id: u64) -> Option<
    ChannelNotificationSettingsState,
>
    decreases overrides.len(),
{
    if overrides.len() == 0 {
        None
    } else if overrides.last().channel_id == channel_id {
        Some(
            ChannelNotificationSettingsState {
                channel_id,
                message_notifications: overrides.last().message_notifications,
                muted: overrides.last().muted,
                mute_end_time: overrides.last().mute_end_time,
            },
        )
    } else {
        last_override(overrides.drop_last(), channel_id)
    }
}

/// Keys the channel overrides by channel; a later override for a channel replaces an
/// earlier one.
pub fn notification_override_map(overrides: &[ChannelNotificationOverrideInfo]) -> (map: Vec<
    ChannelNotificationSettingsState,
>)
    ensures
        forall|k: u64| lookup(map@, k) == last_override(overrides@, k),
{
    let mut map: Vec<ChannelNotificationSettingsState> = Vec::new();
    let mut i: usize = 0;
    while i < overrides.len()
        invariant
            i <= overrides@.len(),
            forall|k: u64| lookup(map@, k) == last_override(overrides@.take(i as int), k),
        decreases overrides@.len() - i,
    {
        let o = &overrides[i];
        let entry = ChannelNotificationSettingsState {
            channel_id: o.channel_id,
            message_notifications: o.message_notifications,
            muted: o.muted,
            mute_end_time: clone_opt_string(&o.mute_end_time),
        };
        upsert(&mut map, entry);
        assert(overrides@.take(i + 1).drop_last() =~= overrides@.take(i as int));
        i = i + 1;
    }
    assert(overrides@.take(overrides@.len() as int) =~= overrides@);
    map
}

impl DiscordState {
    // -----------------------------------------------------------------------
    // What the notification rules read
    // -----------------------------------------------------------------------

    /// The read state of a channel; one with nothing acked and no counts when none is known.
    pub open spec fn read_state_spec(self, channel_id: u64) -> ReadState {
        match lookup(self.read_states@, channel_id) {
            Some(r) => r,
            None => ReadState {
                channel_id,
                last_acked_message_id: None,
                mention_count: 0,
                notification_count: 0,
            },
        }
    }

    pub open spec fn last_acked_spec(self, channel_id: u64) -> Option<u64> {
        self.read_state_spec(channel_id).last_acked_message_id
    }

    /// The parent (category, or channel of a thread) of a known channel.
    pub open spec fn parent_spec(self, channel_id: u64) -> Option<u64> {
        match self.channel_spec(channel_id) {
            Some(c) => c.parent_id,
            None => None,
        }
    }

    /// Whether a channel is muted by its own override or by its parent's.
    pub open spec fn channel_muted_spec(
        self,
        settings: GuildNotificationSettingsState,
        channel_id: u64,
        now: UtcInstant,
    ) -> bool {
        let direct = match lookup(settings.channel_overrides@, channel_id) {
            Some(o) => setting_muted_spec(o.muted, o.mute_end_time, now),
            None => false,
        };
        direct || match self.parent_spec(channel_id) {
            Some(parent) => match lookup(settings.channel_overrides@, parent) {
                Some(o) => setting_muted_spec(o.muted, o.mute_end_time, now),
                None => false,
            },
            None => false,
        }
    }

    /// The level of an override for a channel, unless it defers to its parent.
    pub open spec fn override_level_spec(
        settings: GuildNotificationSettingsState,
        channel_id: u64,
    ) -> Option<NotificationLevel> {
        match lookup(settings.channel_overrides@, channel_id) {
            Some(o) => explicit_level(o.message_notifications),
            None => None,
        }
    }

    /// The level that decides a channel: its own override, else its parent's override, else
    /// the guild's level, else "only mentions".
    pub open spec fn channel_level_spec(
        self,
        settings: GuildNotificationSettingsState,
        channel_id: u64,
    ) -> NotificationLevel {
        match Self::override_level_spec(settings, channel_id) {
            Some(level) => level,
            None => match match self.parent_spec(channel_id) {
                Some(parent) => Self::override_level_spec(settings, parent),
                None => None,
            } {
                Some(level) => level,
                None => match explicit_level(settings.message_notifications) {
                    Some(level) => level,
                    None => NotificationLevel::OnlyMentions,
                },
            },
        }
    }

    /// The role ids of a loaded guild member.
    pub open spec fn member_roles_spec(self, guild_id: u64, user_id: u64) -> Option<Seq<u64>> {
        match lookup(self.members@, guild_id) {
            Some(g) => match lookup(g.members@, user_id) {
                Some(m) => Some(m.role_ids@),
                None => None,
            },
            None => None,
        }
    }

    /// Whether the mention list names the current user.
    pub open spec fn mentions_list_has_current_user(self, mentions: Seq<MentionInfo>) -> bool {
        match self.current_user_id {
            Some(me) => exists|i: int| 0 <= i < mentions.len() && mentions[i].user_id == me,
            None => false,
        }
    }

    /// Whether a guild message mentions the current user: directly, by `@everyone` or
    /// `@here` (unless suppressed), or by a role the current user has (unless suppressed).
    pub open spec fn mentions_current_user_spec(
        self,
        guild_id: u64,
        content: Seq<char>,
        mentions: Seq<MentionInfo>,
        suppress_everyone: bool,
        suppress_roles: bool,
    ) -> bool {
        match self.current_user_id {
            None => false,
            Some(me) => {
                ||| self.mentions_list_has_current_user(mentions)
                ||| (!suppress_everyone && (contains_spec(content, "@everyone"@) || contains_spec(
                    content,
                    "@here"@,
                )))
                ||| (!suppress_roles && match self.member_roles_spec(guild_id, me) {
                    Some(roles) => any_role_mentioned(content, roles),
                    None => false,
                })
            },
        }
    }

    /// What a level gives for a message, given whether it mentions the current user.
    pub open spec fn level_kind(level: NotificationLevel, mentioned: bool) -> MessageNotificationKind {
        match level {
            NotificationLevel::AllMessages => if mentioned {
                MessageNotificationKind::Mention
            } else {
                MessageNotificationKind::Notify
            },
            NotificationLevel::OnlyMentions | NotificationLevel::ParentDefault => if mentioned {
                MessageNotificationKind::Mention
            } else {
                MessageNotificationKind::Nothing
            },
            NotificationLevel::NoMessages => MessageNotificationKind::Nothing,
        }
    }

    /// What a direct message asks: a notification when no settings are known; nothing when
    /// muted; otherwise what the channel's level says.
    pub open spec fn private_kind_spec(
        self,
        channel_id: u64,
        mentions: Seq<MentionInfo>,
        now: UtcInstant,
    ) -> MessageNotificationKind {
        match self.private_notification_settings {
            None => MessageNotificationKind::Notify,
            Some(settings) => if setting_muted_spec(settings.muted, settings.mute_end_time, now)
                || self.channel_muted_spec(settings, channel_id, now) {
                MessageNotificationKind::Nothing
            } else {
                Self::level_kind(
                    self.channel_level_spec(settings, channel_id),
                    self.mentions_list_has_current_user(mentions),
                )
            },
        }
    }

    /// What a new message asks of the current user: nothing for the user's own messages or
    /// ones already read; for direct messages see [`Self::private_kind_spec`]; in a guild
    /// without known settings a mention when it mentions the user; nothing when the guild or
    /// channel is muted; otherwise what the channel's level says.
    pub open spec fn message_kind_spec(
        self,
        guild_id: Option<u64>,
        channel_id: u64,
        message_id: u64,
        author_id: u64,
        content: Seq<char>,
        mentions: Seq<MentionInfo>,
        now: UtcInstant,
    ) -> MessageNotificationKind {
        if self.current_user_id == Some(author_id) {
            MessageNotificationKind::Nothing
        } else if (match self.last_acked_spec(channel_id) {
            Some(acked) => acked >= message_id,
            None => false,
        }) {
            MessageNotificationKind::Nothing
        } else {
            match guild_id {
                None => self.private_kind_spec(channel_id, mentions, now),
                Some(g) => match lookup(self.notification_settings@, g) {
                    None => if self.mentions_current_user_spec(g, content, mentions, false, false) {
                        MessageNotificationKind::Mention
                    } else {
                        MessageNotificationKind::Nothing
                    },
                    Some(entry) => {
                        let settings = entry.settings;
                        if setting_muted_spec(settings.muted, settings.mute_end_time, now)
                            || self.channel_muted_spec(settings, channel_id, now) {
                            MessageNotificationKind::Nothing
                        } else {
                            Self::level_kind(
                                self.channel_level_spec(settings, channel_id),
                                self.mentions_current_user_spec(
                                    g,
                                    content,
                                    mentions,
                                    settings.suppress_everyone,
                                    settings.suppress_roles,
                                ),
                            )
                        }
                    },
                },
            }
        }
    }

    /// What a loaded message asks of the current user.
    pub open spec fn message_state_kind_spec(self, m: MessageState, now: UtcInstant) -> MessageNotificationKind {
        self.message_kind_spec(
            m.guild_id,
            m.channel_id,
            m.id,
            m.author_id,
            content_text(m.content),
            m.mentions@,
            now,
        )
    }

    /// Mentions and notifications among loaded messages newer than the last acked one.
    pub open spec fn counts_over(
        self,
        messages: Seq<MessageState>,
        last_acked: Option<u64>,
        now: UtcInstant,
    ) -> (nat, nat)
        decreases messages.len(),
    {
        if messages.len() == 0 {
            (0, 0)
        } else {
            let (m, n) = self.counts_over(messages.drop_last(), last_acked, now);
            let msg = messages.last();
            let unread = match last_acked {
                Some(a) => msg.id > a,
                None => true,
            };
            if !unread {
                (m, n)
            } else {
                match self.message_state_kind_spec(msg, now) {
                    MessageNotificationKind::Mention => (m + 1, n),
                    MessageNotificationKind::Notify => (m, n + 1),
                    MessageNotificationKind::Nothing => (m, n),
                }
            }
        }
    }

    /// Mentions and notifications among a channel's loaded unread messages.
    pub open spec fn loaded_counts_spec(self, channel_id: u64, now: UtcInstant) -> (nat, nat) {
        self.counts_over(
            self.channel_messages_spec(channel_id),
            self.last_acked_spec(channel_id),
            now,
        )
    }

    /// How unread a channel is: seen when it has no messages; otherwise Discord's mention
    /// count, then its notification count, then the counts of loaded unread messages; else
    /// unread when its latest message is newer than the last acked one; else seen.
    pub open spec fn channel_unread_spec(self, channel_id: u64, now: UtcInstant) -> ChannelUnreadState {
        let latest = match self.channel_spec(channel_id) {
            Some(c) => c.last_message_id,
            None => None,
        };
        match latest {
            None => ChannelUnreadState::Seen,
            Some(latest) => {
                let read = self.read_state_spec(channel_id);
                let (mentions, notifications) = self.loaded_counts_spec(channel_id, now);
                if read.mention_count > 0 {
                    ChannelUnreadState::Mentioned(read.mention_count)
                } else if read.notification_count > 0 {
                    ChannelUnreadState::Notified(read.notification_count)
                } else if mentions > 0 {
                    ChannelUnreadState::Mentioned(saturating_u32_spec(mentions))
                } else if notifications > 0 {
                    ChannelUnreadState::Notified(saturating_u32_spec(notifications))
                } else if (match read.last_acked_message_id {
                    None => true,
                    Some(acked) => acked < latest,
                }) {
                    ChannelUnreadState::Unread
                } else {
                    ChannelUnreadState::Seen
                }
            },
        }
    }

    // -----------------------------------------------------------------------
    // Lookups
    // -----------------------------------------------------------------------

    fn read_state_of(&self, channel_id: u64) -> (r: ReadState)
        ensures
            r == self.read_state_spec(channel_id),
    {
        match find_index(&self.read_states, channel_id) {
            Some(i) => self.read_states[i],
            None => ReadState {
                channel_id,
                last_acked_message_id: None,
                mention_count: 0,
                notification_count: 0,
            },
        }
    }

    fn parent_of(&self, channel_id: u64) -> (parent: Option<u64>)
        ensures
            parent == self.parent_spec(channel_id),
    {
        match find_index(&self.channels, channel_id) {
            Some(i) => self.channels[i].parent_id,
            None => None,
        }
    }

    /// The guild a known channel belongs to.
    pub fn channel_guild_id(&self, channel_id: u64) -> (guild: Option<u64>)
        ensures
            guild == (match self.channel_spec(channel_id) {
                Some(c) => c.guild_id,
                None => None,
            }),
    {
        match find_index(&self.channels, channel_id) {
            Some(i) => self.channels[i].guild_id,
            None => None,
        }
    }

    // -----------------------------------------------------------------------
    // Notification rules
    // -----------------------------------------------------------------------

    fn override_muted(
        overrides: &Vec<ChannelNotificationSettingsState>,
        channel_id: u64,
        now: UtcInstant,
    ) -> (r: bool)
        ensures
            r == match lookup(overrides@, channel_id) {
                Some(o) => setting_muted_spec(o.muted, o.mute_end_time, now),
                None => false,
            },
    {
        match find_index(overrides, channel_id) {
            Some(i) => notification_setting_muted(
                overrides[i].muted,
                &overrides[i].mute_end_time,
                now,
            ),
            None => false,
        }
    }

    pub fn channel_notification_muted(
        &self,
        settings: &GuildNotificationSettingsState,
        channel_id: u64,
        now: UtcInstant,
    ) -> (r: bool)
        ensures
            r == self.channel_muted_spec(*settings, channel_id, now),
    {
        if Self::override_muted(&settings.channel_overrides, channel_id, now) {
            return true;
        }
        match self.parent_of(channel_id) {
            Some(parent) => Self::override_muted(&settings.channel_overrides, parent, now),
            None => false,
        }
    }

    fn override_level(settings: &GuildNotificationSettingsState, channel_id: u64) -> (r: Option<
        NotificationLevel,
    >)
        ensures
            r == Self::override_level_spec(*settings, channel_id),
    {
        match find_index(&settings.channel_overrides, channel_id) {
            Some(i) => match settings.channel_overrides[i].message_notifications {
                Some(NotificationLevel::ParentDefault) => None,
                other => other,
            },
            None => None,
        }
    }

    pub fn channel_notification_level(
        &self,
        settings: &GuildNotificationSettingsState,
        channel_id: u64,
    ) -> (level: NotificationLevel)
        ensures
            level == self.channel_level_spec(*settings, channel_id),
    {
        if let Some(level) = Self::override_level(settings, channel_id) {
            return level;
        }
        let parent_level = match self.parent_of(channel_id) {
            Some(parent) => Self::override_level(settings, parent),
            None => None,
        };
        if let Some(level) = parent_level {
            return level;
        }
        match settings.message_notifications {
            Some(NotificationLevel::ParentDefault) | None => NotificationLevel::OnlyMentions,
            Some(level) => level,
        }
    }

    fn mention_list_has_user(&self, mentions: &Vec<MentionInfo>) -> (r: bool)
        ensures
            r == self.mentions_list_has_current_user(mentions@),
    {
        let me = match self.current_user_id {
            Some(me) => me,
            None => return false,
        };
        let mut i: usize = 0;
        while i < mentions.len()
            invariant
                self.current_user_id == Some(me),
                i <= mentions@.len(),
                forall|j: int| 0 <= j < i ==> mentions@[j].user_id != me,
            decreases mentions@.len() - i,
        {
            if mentions[i].user_id == me {
                return true;
            }
            i = i + 1;
        }
        false
    }

    fn roles_of(&self, guild_id: u64, user_id: u64) -> (roles: Option<&Vec<u64>>)
        ensures
            match roles {
                Some(r) => self.member_roles_spec(guild_id, user_id) == Some(r@),
                None => self.member_roles_spec(guild_id, user_id) is None,
            },
    {
        match find_index(&self.members, guild_id) {
            Some(g) => match find_index(&self.members[g].members, user_id) {
                Some(m) => Some(&self.members[g].members[m].role_ids),
                None => None,
            },
            None => None,
        }
    }

    pub fn message_mentions_current_user(
        &self,
        guild_id: u64,
        content: &Option<String>,
        mentions: &Vec<MentionInfo>,
        suppress_everyone: bool,
        suppress_roles: bool,
    ) -> (r: bool)
        ensures
            r == self.mentions_current_user_spec(
                guild_id,
                content_text(*content),
                mentions@,
                suppress_everyone,
                suppress_roles,
            ),
    {
        let me = match self.current_user_id {
            Some(me) => me,
            None => return false,
        };
        if self.mention_list_has_user(mentions) {
            return true;
        }
        let text: Vec<char> = match content {
            Some(c) => chars_of(c.as_str()),
            None => Vec::new(),
        };
        assert(text@ == content_text(*content));
        if !suppress_everyone {
            let everyone = chars_of("@everyone");
            let here = chars_of("@here");
            if chars_contain(text.as_slice(), everyone.as_slice()) || chars_contain(
                text.as_slice(),
                here.as_slice(),
            ) {
                return true;
            }
        }
        if suppress_roles {
            return false;
        }
        let roles = match self.roles_of(guild_id, me) {
            Some(roles) => roles,
            None => return false,
        };
        let mut i: usize = 0;
        while i < roles.len()
            invariant
                i <= roles@.len(),
                self.member_roles_spec(guild_id, me) == Some(roles@),
                self.current_user_id == Some(me),
                !suppress_roles,
                text@ == content_text(*content),
                !any_role_mentioned(text@, roles@.take(i as int)),
            decreases roles@.len() - i,
        {
            let mut needle = String::new();
            push_str(&mut needle, "<@&");
            push_decimal(&mut needle, roles[i]);
            push_str(&mut needle, ">");
            let needle_chars = chars_of(needle.as_str());
            assert(needle_chars@ == role_mention_text(roles@[i as int]));
            assert(roles@.take(i + 1).drop_last() =~= roles@.take(i as int));
            if chars_contain(text.as_slice(), needle_chars.as_slice()) {
                assert(any_role_mentioned(text@, roles@.take(i + 1)));
                proof {
                    lemma_role_prefix_mentioned(text@, roles@, i + 1);
                }
                return true;
            }
            i = i + 1;
        }
        assert(roles@.take(roles@.len() as int) =~= roles@);
        false
    }

    fn level_kind_of(level: NotificationLevel, mentioned: bool) -> (k: MessageNotificationKind)
        ensures
            k == Self::level_kind(level, mentioned),
    {
        match level {
            NotificationLevel::AllMessages => if mentioned {
                MessageNotificationKind::Mention
            } else {
                MessageNotificationKind::Notify
            },
            NotificationLevel::OnlyMentions | NotificationLevel::ParentDefault => if mentioned {
                MessageNotificationKind::Mention
            } else {
                MessageNotificationKind::Nothing
            },
            NotificationLevel::NoMessages => MessageNotificationKind::Nothing,
        }
    }

    pub fn private_message_notification_kind(
        &self,
        channel_id: u64,
        mentions: &Vec<MentionInfo>,
        now: UtcInstant,
    ) -> (k: MessageNotificationKind)
        ensures
            k == self.private_kind_spec(channel_id, mentions@, now),
    {
        let settings = match &self.private_notification_settings {
            Some(s) => s,
            None => return MessageNotificationKind::Notify,
        };
        if notification_setting_muted(settings.muted, &settings.mute_end_time, now)
            || self.channel_notification_muted(settings, channel_id, now) {
            return MessageNotificationKind::Nothing;
        }
        let mentioned = self.mention_list_has_user(mentions);
        Self::level_kind_of(self.channel_notification_level(settings, channel_id), mentioned)
    }

    pub fn message_create_notification_kind(
        &self,
        guild_id: Option<u64>,
        channel_id: u64,
        message_id: u64,
        author_id: u64,
        content: &Option<String>,
        mentions: &Vec<MentionInfo>,
        now: UtcInstant,
    ) -> (k: MessageNotificationKind)
        ensures
            k == self.message_kind_spec(
                guild_id,
                channel_id,
                message_id,
                author_id,
                content_text(*content),
                mentions@,
                now,
            ),
    {
        if self.current_user_id == Some(author_id) {
            return MessageNotificationKind::Nothing;
        }
        let read = self.read_state_of(channel_id);
        if let Some(acked) = read.last_acked_message_id {
            if acked >= message_id {
                return MessageNotificationKind::Nothing;
            }
        }
        let guild_id = match guild_id {
            None => return self.private_message_notification_kind(channel_id, mentions, now),
            Some(g) => g,
        };
        match find_index(&self.notification_settings, guild_id) {
            None => {
                if self.message_mentions_current_user(guild_id, content, mentions, false, false) {
                    MessageNotificationKind::Mention
                } else {
                    MessageNotificationKind::Nothing
                }
            },
            Some(i) => {
                let settings = &self.notification_settings[i].settings;
                if notification_setting_muted(settings.muted, &settings.mute_end_time, now)
                    || self.channel_notification_muted(settings, channel_id, now) {
                    return MessageNotificationKind::Nothing;
                }
                let level = self.channel_notification_level(settings, channel_id);
                let mentioned = self.message_mentions_current_user(
                    guild_id,
                    content,
                    mentions,
                    settings.suppress_everyone,
                    settings.suppress_roles,
                );
                Self::level_kind_of(level, mentioned)
            },
        }
    }

    pub fn message_state_notification_kind(&self, message: &MessageState, now: UtcInstant) -> (k:
        MessageNotificationKind)
        ensures
            k == self.message_state_kind_spec(*message, now),
    {
        self.message_create_notification_kind(
            message.guild_id,
            message.channel_id,
            message.id,
            message.author_id,
            &message.content,
            &message.mentions,
            now,
        )
    }

    /// Counts the mentions and notifications among a channel's loaded unread messages.
    pub fn loaded_unread_notification_counts(&self, channel_id: u64, now: UtcInstant) -> (counts: (
        usize,
        usize,
    ))
        ensures
            counts.0 as nat == self.loaded_counts_spec(channel_id, now).0,
            counts.1 as nat == self.loaded_counts_spec(channel_id, now).1,
    {
        let idx = match find_index(&self.messages, channel_id) {
            Some(i) => i,
            None => return (0, 0),
        };
        let messages = &self.messages[idx].messages;
        let last_acked = self.read_state_of(channel_id).last_acked_message_id;
        let mut mentions: usize = 0;
        let mut notifications: usize = 0;
        let mut i: usize = 0;
        while i < messages.len()
            invariant
                i <= messages@.len(),
                messages@ == self.channel_messages_spec(channel_id),
                last_acked == self.last_acked_spec(channel_id),
                mentions as nat == self.counts_over(messages@.take(i as int), last_acked, now).0,
                notifications as nat == self.counts_over(messages@.take(i as int), last_acked, now).1,
                mentions + notifications <= i,
            decreases messages@.len() - i,
        {
            let message = &messages[i];
            assert(messages@.take(i + 1).drop_last() =~= messages@.take(i as int));
            let unread = match last_acked {
                Some(a) => message.id > a,
                None => true,
            };
            if unread {
                match self.message_state_notification_kind(message, now) {
                    MessageNotificationKind::Mention => mentions = mentions + 1,
                    MessageNotificationKind::Notify => notifications = notifications + 1,
                    MessageNotificationKind::Nothing => {},
                }
            }
            i = i + 1;
        }
        assert(messages@.take(messages@.len() as int) =~= messages@);
        (mentions, notifications)
    }

    /// How unread a channel is at `now`.
    pub fn channel_unread_at(&self, channel_id: u64, now: UtcInstant) -> (state: ChannelUnreadState)
        ensures
            state == self.channel_unread_spec(channel_id, now),
    {
        let latest = match find_index(&self.channels, channel_id) {
            Some(i) => self.channels[i].last_message_id,
            None => None,
        };
        let latest = match latest {
            None => return ChannelUnreadState::Seen,
            Some(latest) => latest,
        };
        let read = self.read_state_of(channel_id);
        if read.mention_count > 0 {
            return ChannelUnreadState::Mentioned(read.mention_count);
        }
        if read.notification_count > 0 {
            return ChannelUnreadState::Notified(read.notification_count);
        }
        let (mentions, notifications) = self.loaded_unread_notification_counts(channel_id, now);
        if mentions > 0 {
            return ChannelUnreadState::Mentioned(saturating_u32_count(mentions));
        }
        if notifications > 0 {
            return ChannelUnreadState::Notified(saturating_u32_count(notifications));
        }
        match read.last_acked_message_id {
            None => ChannelUnreadState::Unread,
            Some(acked) => if acked < latest {
                ChannelUnreadState::Unread
            } else {
                ChannelUnreadState::Seen
            },
        }
    }

    /// How unread a channel is now, by the system clock.
    pub fn channel_unread(&self, channel_id: u64) -> (state: ChannelUnreadState)
        ensures
            exists|now: UtcInstant| state == self.channel_unread_spec(channel_id, now),
    {
        let now = utc_now();
        self.channel_unread_at(channel_id, now)
    }

    /// The number of a channel's loaded unread messages that mention or notify the user, at `now`.
    pub fn channel_unread_message_count_at(&self, channel_id: u64, now: UtcInstant) -> (count: usize)
        ensures
            count == (if self.loaded_counts_spec(channel_id, now).0
                + self.loaded_counts_spec(channel_id, now).1 > usize::MAX {
                usize::MAX as nat
            } else {
                self.loaded_counts_spec(channel_id, now).0 + self.loaded_counts_spec(channel_id, now).1
            }),
    {
        let (mentions, notifications) = self.loaded_unread_notification_counts(channel_id, now);
        mentions.saturating_add(notifications)
    }

    /// The number of a channel's loaded unread messages that mention or notify the user, now.
    pub fn channel_unread_message_count(&self, channel_id: u64) -> (count: usize)
        ensures
            exists|now: UtcInstant| count == (if self.loaded_counts_spec(channel_id, now).0
                + self.loaded_counts_spec(channel_id, now).1 > usize::MAX {
                usize::MAX as nat
            } else {
                self.loaded_counts_spec(channel_id, now).0 + self.loaded_counts_spec(channel_id, now).1
            }),
    {
        let now = utc_now();
        self.channel_unread_message_count_at(channel_id, now)
    }

    // -----------------------------------------------------------------------
    // Guilds and direct messages
    // -----------------------------------------------------------------------

    /// A channel the guild pane lists for a guild: one of its channels the user may see.
    pub open spec fn viewable_in_guild(c: ChannelState, guild_id: u64) -> bool {
        c.guild_id == Some(guild_id) && c.viewable
    }

    /// Summed mention and notification counts (saturating) and whether any channel is
    /// plainly unread, over the viewable channels of a guild among `channels`.
    pub open spec fn guild_fold(self, channels: Seq<ChannelState>, guild_id: u64, now: UtcInstant) -> (
        u32,
        u32,
        bool,
    )
        decreases channels.len(),
    {
        if channels.len() == 0 {
            (0, 0, false)
        } else {
            let (m, n, u) = self.guild_fold(channels.drop_last(), guild_id, now);
            let c = channels.last();
            if Self::viewable_in_guild(c, guild_id) {
                match self.channel_unread_spec(c.id, now) {
                    ChannelUnreadState::Mentioned(k) => (sat_add_u32(m, k), n, u),
                    ChannelUnreadState::Notified(k) => (m, sat_add_u32(n, k), u),
                    ChannelUnreadState::Unread => (m, n, true),
                    ChannelUnreadState::Seen => (m, n, u),
                }
            } else {
                (m, n, u)
            }
        }
    }

    /// How unread a guild is: mentioned when any channel is (counts summed), else notified
    /// when any channel is (counts summed), else unread when any channel is, else seen.
    pub open spec fn guild_unread_spec(self, guild_id: u64, now: UtcInstant) -> ChannelUnreadState {
        let (m, n, u) = self.guild_fold(self.channels@, guild_id, now);
        if m > 0 {
            ChannelUnreadState::Mentioned(m)
        } else if n > 0 {
            ChannelUnreadState::Notified(n)
        } else if u {
            ChannelUnreadState::Unread
        } else {
            ChannelUnreadState::Seen
        }
    }

    pub fn guild_unread_at(&self, guild_id: u64, now: UtcInstant) -> (state: ChannelUnreadState)
        ensures
            state == self.guild_unread_spec(guild_id, now),
    {
        let mut mention_count: u32 = 0;
        let mut notification_count: u32 = 0;
        let mut has_unread = false;
        let mut i: usize = 0;
        while i < self.channels.len()
            invariant
                i <= self.channels@.len(),
                (mention_count, notification_count, has_unread) == self.guild_fold(
                    self.channels@.take(i as int),
                    guild_id,
                    now,
                ),
            decreases self.channels@.len() - i,
        {
            let channel = &self.channels[i];
            assert(self.channels@.take(i + 1).drop_last() =~= self.channels@.take(i as int));
            if channel.guild_id == Some(guild_id) && channel.viewable {
                match self.channel_unread_at(channel.id, now) {
                    ChannelUnreadState::Mentioned(count) => {
                        mention_count = mention_count.saturating_add(count);
                    },
                    ChannelUnreadState::Notified(count) => {
                        notification_count = notification_count.saturating_add(count);
                    },
                    ChannelUnreadState::Unread => has_unread = true,
                    ChannelUnreadState::Seen => {},
                }
            }
            i = i + 1;
        }
        assert(self.channels@.take(self.channels@.len() as int) =~= self.channels@);
        if mention_count > 0 {
            ChannelUnreadState::Mentioned(mention_count)
        } else if notification_count > 0 {
            ChannelUnreadState::Notified(notification_count)
        } else if has_unread {
            ChannelUnreadState::Unread
        } else {
            ChannelUnreadState::Seen
        }
    }

    /// How unread a guild is now, by the system clock.
    pub fn guild_unread(&self, guild_id: u64) -> (state: ChannelUnreadState)
        ensures
            exists|now: UtcInstant| state == self.guild_unread_spec(guild_id, now),
    {
        let now = utc_now();
        self.guild_unread_at(guild_id, now)
    }

    /// The number of direct-message channels among `channels` that are not seen.
    pub open spec fn dm_unread_fold(self, channels: Seq<ChannelState>, now: UtcInstant) -> nat
        decreases channels.len(),
    {
        if channels.len() == 0 {
            0
        } else {
            let c = channels.last();
            self.dm_unread_fold(channels.drop_last(), now) + if c.guild_id is None
                && self.channel_unread_spec(c.id, now) != ChannelUnreadState::Seen {
                1nat
            } else {
                0nat
            }
        }
    }

    pub fn direct_message_unread_count_at(&self, now: UtcInstant) -> (count: usize)
        ensures
            count as nat == self.dm_unread_fold(self.channels@, now),
    {
        let mut count: usize = 0;
        let mut i: usize = 0;
        while i < self.channels.len()
            invariant
                i <= self.channels@.len(),
                count as nat == self.dm_unread_fold(self.channels@.take(i as int), now),
                count <= i,
            decreases self.channels@.len() - i,
        {
            let channel = &self.channels[i];
            assert(self.channels@.take(i + 1).drop_last() =~= self.channels@.take(i as int));
            if channel.guild_id.is_none() && self.channel_unread_at(channel.id, now)
                != ChannelUnreadState::Seen {
                count = count + 1;
            }
            i = i + 1;
        }
        assert(self.channels@.take(self.channels@.len() as int) =~= self.channels@);
        count
    }

    /// The number of direct-message channels that are not seen, now.
    pub fn direct_message_unread_count(&self) -> (count: usize)
        ensures
            exists|now: UtcInstant| count as nat == self.dm_unread_fold(self.channels@, now),
    {
        let now = utc_now();
        self.direct_message_unread_count_at(now)
    }

    /// Whether a message event asks for a desktop notification at `now`: only new messages do,
    /// and only those whose notification kind is not "nothing"; a missing guild id is taken
    /// from the channel.
    pub open spec fn event_triggers_spec(self, event: AppEvent, now: UtcInstant) -> bool {
        match event {
            AppEvent::MessageCreate {
                guild_id,
                channel_id,
                message_id,
                author_id,
                content,
                mentions,
                ..
            } => {
                let guild = match guild_id {
                    Some(g) => Some(g),
                    None => match self.channel_spec(channel_id) {
                        Some(c) => c.guild_id,
                        None => None,
                    },
                };
                self.message_kind_spec(
                    guild,
                    channel_id,
                    message_id,
                    author_id,
                    content_text(content),
                    mentions@,
                    now,
                ) != MessageNotificationKind::Nothing
            },
            _ => false,
        }
    }

    pub fn message_event_triggers_notification_at(&self, event: &AppEvent, now: UtcInstant) -> (r:
        bool)
        ensures
            r == self.event_triggers_spec(*event, now),
    {
        match event {
            AppEvent::MessageCreate {
                guild_id,
                channel_id,
                message_id,
                author_id,
                content,
                mentions,
                ..
            } => {
                let guild = match guild_id {
                    Some(g) => Some(*g),
                    None => self.channel_guild_id(*channel_id),
                };
                self.message_create_notification_kind(
                    guild,
                    *channel_id,
                    *message_id,
                    *author_id,
                    content,
                    mentions,
                    now,
                ) != MessageNotificationKind::Nothing
            },
            _ => false,
        }
    }

    /// Whether a message event asks for a desktop notification now.
    pub fn message_event_triggers_notification(&self, event: &AppEvent) -> (r: bool)
        ensures
            exists|now: UtcInstant| r == self.event_triggers_spec(*event, now),
    {
        let now = utc_now();
        self.message_event_triggers_notification_at(event, now)
    }

    /// Stores notification settings Discord sent: a guild's settings replace what was kept for
    /// that guild, settings without a guild replace the direct-message settings.
    pub fn upsert_notification_settings(&mut self, info: &GuildNotificationSettingsInfo)
        ensures
            final(self).channels == old(self).channels,
            final(self).read_states == old(self).read_states,
            final(self).messages == old(self).messages,
            final(self).members == old(self).members,
            final(self).current_user_id == old(self).current_user_id,
            ({
                let kept = match info.guild_id {
                    Some(g) => match lookup(final(self).notification_settings@, g) {
                        Some(e) => Some(e.settings),
                        None => None,
                    },
                    None => final(self).private_notification_settings,
                };
                &&& kept is Some
                &&& kept.unwrap().message_notifications == info.message_notifications
                &&& kept.unwrap().muted == info.muted
                &&& kept.unwrap().mute_end_time == info.mute_end_time
                &&& kept.unwrap().suppress_everyone == info.suppress_everyone
                &&& kept.unwrap().suppress_roles == info.suppress_roles
                &&& forall|k: u64| lookup(kept.unwrap().channel_overrides@, k) == last_override(
                    info.channel_overrides@,
                    k,
                )
            }),
            info.guild_id is Some ==> final(self).private_notification_settings
                == old(self).private_notification_settings,
            forall|g: u64| info.guild_id != Some(g) ==> lookup(final(self).notification_settings@, g)
                == lookup(old(self).notification_settings@, g),
    {
        let state = GuildNotificationSettingsState {
            message_notifications: info.message_notifications,
            muted: info.muted,
            mute_end_time: clone_opt_string(&info.mute_end_time),
            suppress_everyone: info.suppress_everyone,
            suppress_roles: info.suppress_roles,
            channel_overrides: notification_override_map(info.channel_overrides.as_slice()),
        };
        match info.guild_id {
            Some(guild_id) => {
                upsert(&mut self.notification_settings, GuildNotificationEntry { guild_id, settings: state });
            },
            None => {
                self.private_notification_settings = Some(state);
            },
        }
    }

}

/// A mentioned or notified channel always carries a positive count.
pub proof fn lemma_channel_unread_counts_positive(state: DiscordState, channel_id: u64, now: UtcInstant)
    ensures
        match state.channel_unread_spec(channel_id, now) {
            ChannelUnreadState::Mentioned(k) => k > 0,
            ChannelUnreadState::Notified(k) => k > 0,
            _ => true,
        },
{
}

proof fn lemma_guild_fold_seen(state: DiscordState, channels: Seq<ChannelState>, guild_id: u64, now: UtcInstant)
    ensures
        ({
            let (m, n, u) = state.guild_fold(channels, guild_id, now);
            (m == 0 && n == 0 && !u) <==> forall|i: int|
                0 <= i < channels.len() && DiscordState::viewable_in_guild(#[trigger] channels[i], guild_id)
                    ==> state.channel_unread_spec(channels[i].id, now) == ChannelUnreadState::Seen
        }),
    decreases channels.len(),
{
    if channels.len() > 0 {
        let init = channels.drop_last();
        lemma_guild_fold_seen(state, init, guild_id, now);
        let c = channels.last();
        lemma_channel_unread_counts_positive(state, c.id, now);
        assert forall|i: int| 0 <= i < init.len() implies init[i] == channels[i] by {}
        let (m, n, u) = state.guild_fold(init, guild_id, now);
        let all_init = forall|i: int|
            0 <= i < init.len() && DiscordState::viewable_in_guild(#[trigger] init[i], guild_id)
                ==> state.channel_unread_spec(init[i].id, now) == ChannelUnreadState::Seen;
        let all = forall|i: int|
            0 <= i < channels.len() && DiscordState::viewable_in_guild(#[trigger] channels[i], guild_id)
                ==> state.channel_unread_spec(channels[i].id, now) == ChannelUnreadState::Seen;
        if all {
            assert(all_init);
        }
        if all_init && (DiscordState::viewable_in_guild(c, guild_id) ==> state.channel_unread_spec(c.id, now)
            == ChannelUnreadState::Seen) {
            assert forall|i: int|
                0 <= i < channels.len() && DiscordState::viewable_in_guild(#[trigger] channels[i], guild_id)
                    implies state.channel_unread_spec(channels[i].id, now) == ChannelUnreadState::Seen by {
                if i < init.len() {
                    assert(channels[i] == init[i]);
                } else {
                    assert(channels[i] == c);
                }
            }
        }
        if all {
            assert(channels[channels.len() - 1] == c);
        }
    }
}

/// A guild counts as seen exactly when every channel of it that the user may see is seen.
pub proof fn lemma_guild_seen_iff_all_channels_seen(state: DiscordState, guild_id: u64, now: UtcInstant)
    ensures
        state.guild_unread_spec(guild_id, now) == ChannelUnreadState::Seen <==> forall|i: int|
            0 <= i < state.channels@.len() && DiscordState::viewable_in_guild(
                #[trigger] state.channels@[i],
                guild_id,
            ) ==> state.channel_unread_spec(state.channels@[i].id, now) == ChannelUnreadState::Seen,
{
    lemma_guild_fold_seen(state, state.channels@, guild_id, now);
}

/// The current user's own messages never notify them.
pub proof fn lemma_own_messages_never_notify(
    state: DiscordState,
    guild_id: Option<u64>,
    channel_id: u64,
    message_id: u64,
    content: Seq<char>,
    mentions: Seq<MentionInfo>,
    now: UtcInstant,
)
    requires
        state.current_user_id is Some,
    ensures
        state.message_kind_spec(
            guild_id,
            channel_id,
            message_id,
            state.current_user_id.unwrap(),
            content,
            mentions,
            now,
        ) == MessageNotificationKind::Nothing,
{
}

/// Messages at or before the last acked message never notify.
pub proof fn lemma_acked_messages_never_notify(
    state: DiscordState,
    guild_id: Option<u64>,
    channel_id: u64,
    message_id: u64,
    author_id: u64,
    content: Seq<char>,
    mentions: Seq<MentionInfo>,
    now: UtcInstant,
)
    requires
        state.last_acked_spec(channel_id) matches Some(acked) && acked >= message_id,
    ensures
        state.message_kind_spec(guild_id, channel_id, message_id, author_id, content, mentions, now)
            == MessageNotificationKind::Nothing,
{
}

/// In a guild whose mute is in force, no message notifies.
pub proof fn lemma_muted_guild_never_notifies(
    state: DiscordState,
    guild_id: u64,
    channel_id: u64,
    message_id: u64,
    author_id: u64,
    content: Seq<char>,
    mentions: Seq<MentionInfo>,
    now: UtcInstant,
)
    requires
        lookup(state.notification_settings@, guild_id) matches Some(e) && setting_muted_spec(
            e.settings.muted,
            e.settings.mute_end_time,
            now,
        ),
    ensures
        state.message_kind_spec(Some(guild_id), channel_id, message_id, author_id, content, mentions, now)
            == MessageNotificationKind::Nothing,
{
}

/// A channel without any message is seen.
pub proof fn lemma_channel_without_messages_is_seen(state: DiscordState, channel_id: u64, now: UtcInstant)
    requires
        match state.channel_spec(channel_id) {
            Some(c) => c.last_message_id is None,
            None => true,
        },
    ensures
        state.channel_unread_spec(channel_id, now) == ChannelUnreadState::Seen,
{
}


/// In a guild whose settings are known, a message in a channel muted by its own override, or
/// by the override of its parent category, never notifies, whatever the notification levels.
pub proof fn lemma_muted_channel_or_category_never_notifies(
    state: DiscordState,
    guild_id: u64,
    channel_id: u64,
    muted_id: u64,
    message_id: u64,
    author_id: u64,
    content: Seq<char>,
    mentions: Seq<MentionInfo>,
    now: UtcInstant,
)
    requires
        lookup(state.notification_settings@, guild_id) matches Some(e) && lookup(
            e.settings.channel_overrides@,
            muted_id,
        ) matches Some(o) && setting_muted_spec(o.muted, o.mute_end_time, now),
        muted_id == channel_id || (state.channel_spec(channel_id) matches Some(c) && c.parent_id
            == Some(muted_id)),
    ensures
        state.message_kind_spec(Some(guild_id), channel_id, message_id, author_id, content, mentions, now)
            == MessageNotificationKind::Nothing,
{
}

/// What a guild's channels add up to: the largest mention count of a viewable channel is at
/// most the guild's mention total, likewise for notification counts, and a guild has a
/// mention total of zero when none of its viewable channels is mentioned.
proof fn lemma_guild_fold_counts(state: DiscordState, channels: Seq<ChannelState>, guild_id: u64, now: UtcInstant)
    ensures
        ({
            let (m, n, u) = state.guild_fold(channels, guild_id, now);
            &&& forall|i: int|
                0 <= i < channels.len() && DiscordState::viewable_in_guild(#[trigger] channels[i], guild_id)
                    ==> match state.channel_unread_spec(channels[i].id, now) {
                    ChannelUnreadState::Mentioned(k) => m >= k,
                    ChannelUnreadState::Notified(k) => n >= k,
                    _ => true,
                }
            &&& (forall|i: int|
                0 <= i < channels.len() && DiscordState::viewable_in_guild(#[trigger] channels[i], guild_id)
                    ==> !(state.channel_unread_spec(channels[i].id, now) is Mentioned)) ==> m == 0
        }),
    decreases channels.len(),
{
    if channels.len() > 0 {
        let init = channels.drop_last();
        lemma_guild_fold_counts(state, init, guild_id, now);
        let c = channels.last();
        assert forall|i: int| 0 <= i < init.len() implies init[i] == channels[i] by {}
        assert(channels[channels.len() - 1] == c);
    }
}

/// A guild's badge carries its channels' counts: with a mentioned viewable channel the guild
/// is mentioned, at least that many times; with no mentioned viewable channel and a notified
/// one, the guild is notified, at least as many times as that channel.
pub proof fn lemma_guild_unread_carries_channel_counts(
    state: DiscordState,
    guild_id: u64,
    i: int,
    now: UtcInstant,
)
    requires
        0 <= i < state.channels@.len(),
        DiscordState::viewable_in_guild(state.channels@[i], guild_id),
    ensures
        state.channel_unread_spec(state.channels@[i].id, now) matches ChannelUnreadState::Mentioned(k)
            ==> (state.guild_unread_spec(guild_id, now) matches ChannelUnreadState::Mentioned(g) && g >= k),
        state.channel_unread_spec(state.channels@[i].id, now) matches ChannelUnreadState::Notified(k)
            ==> ((forall|j: int|
            0 <= j < state.channels@.len() && DiscordState::viewable_in_guild(
                #[trigger] state.channels@[j],
                guild_id,
            ) ==> !(state.channel_unread_spec(state.channels@[j].id, now) is Mentioned))
            ==> (state.guild_unread_spec(guild_id, now) matches ChannelUnreadState::Notified(g) && g >= k)),
{
    lemma_guild_fold_counts(state, state.channels@, guild_id, now);
    lemma_channel_unread_counts_positive(state, state.channels@[i].id, now);
}


/// With direct-message settings known, a direct message in a channel muted by its own
/// override, or by the override of its parent, never notifies.
pub proof fn lemma_muted_direct_channel_never_notifies(
    state: DiscordState,
    channel_id: u64,
    muted_id: u64,
    message_id: u64,
    author_id: u64,
    content: Seq<char>,
    mentions: Seq<MentionInfo>,
    now: UtcInstant,
)
    requires
        state.private_notification_settings matches Some(settings) && lookup(
            settings.channel_overrides@,
            muted_id,
        ) matches Some(o) && setting_muted_spec(o.muted, o.mute_end_time, now),
        muted_id == channel_id || (state.channel_spec(channel_id) matches Some(c) && c.parent_id
            == Some(muted_id)),
    ensures
        state.message_kind_spec(None, channel_id, message_id, author_id, content, mentions, now)
            == MessageNotificationKind::Nothing,
{
}

} // verus!
