use vstd::prelude::*;

use crate::discord::{
    AttachmentInfo, MentionInfo, MessageReferenceInfo, MessageSnapshotInfo, NotificationLevel, PresenceStatus, RoleInfo,
};
use crate::keyed::{Keyed, lookup};

verus! {

/// What kind of channel a channel is.
#[derive(Clone, Copy, Debug, PartialEq, Eq, Structural)]
pub enum ChannelKind {
    GuildText,
    GuildVoice,
    GuildCategory,
    GuildForum,
    Thread,
    DirectMessage,
    GroupDirectMessage,
}

/// A channel the client knows, with what the permission checks decided about it.
#[derive(Clone, Debug)]
pub struct ChannelState {
    pub id: u64,
    pub guild_id: Option<u64>,
    pub parent_id: Option<u64>,
    pub last_message_id: Option<u64>,
    pub name: String,
    pub kind: ChannelKind,
    /// The current user may see the channel.
    pub viewable: bool,
    /// The current user may post in the channel.
    pub can_send: bool,
    /// The current user may attach files in the channel.
    pub can_attach: bool,
    pub message_count: Option<u32>,
    pub total_message_sent: Option<u32>,
    pub thread_archived: Option<bool>,
    pub thread_locked: Option<bool>,
}

impl Keyed for ChannelState {
    open spec fn key_spec(&self) -> u64 {
        self.id
    }

    fn key(&self) -> (k: u64) {
        self.id
    }
}

/// A guild (server) the client knows.
#[derive(Clone, Debug)]
pub struct GuildState {
    pub id: u64,
    pub name: String,
}

impl Keyed for GuildState {
    open spec fn key_spec(&self) -> u64 {
        self.id
    }

    fn key(&self) -> (k: u64) {
        self.id
    }
}

/// How far the current user has read a channel, and the counts Discord keeps for it.
#[derive(Clone, Copy, Debug, PartialEq, Eq, Structural)]
pub struct ReadState {
    pub channel_id: u64,
    pub last_acked_message_id: Option<u64>,
    pub mention_count: u32,
    pub notification_count: u32,
}

impl Keyed for ReadState {
    open spec fn key_spec(&self) -> u64 {
        self.channel_id
    }

    fn key(&self) -> (k: u64) {
        self.channel_id
    }
}

/// A loaded message.
#[derive(Clone, Debug)]
pub struct MessageState {
    pub id: u64,
    pub guild_id: Option<u64>,
    pub channel_id: u64,
    pub author_id: u64,
    pub author: String,
    pub content: Option<String>,
    pub message_kind: u8,
    pub reference: Option<MessageReferenceInfo>,
    pub sticker_names: Vec<String>,
    pub mentions: Vec<MentionInfo>,
    pub pinned: bool,
    pub attachments: Vec<AttachmentInfo>,
    pub forwarded_snapshots: Vec<MessageSnapshotInfo>,
}

impl Keyed for MessageState {
    open spec fn key_spec(&self) -> u64 {
        self.id
    }

    fn key(&self) -> (k: u64) {
        self.id
    }
}

/// The loaded messages of one channel, oldest first.
#[derive(Clone, Debug)]
pub struct ChannelMessages {
    pub channel_id: u64,
    pub messages: Vec<MessageState>,
}

impl Keyed for ChannelMessages {
    open spec fn key_spec(&self) -> u64 {
        self.channel_id
    }

    fn key(&self) -> (k: u64) {
        self.channel_id
    }
}

/// A per-channel notification override.
#[derive(Clone, Debug)]
pub struct ChannelNotificationSettingsState {
    pub channel_id: u64,
    pub message_notifications: Option<NotificationLevel>,
    pub muted: bool,
    pub mute_end_time: Option<String>,
}

impl Keyed for ChannelNotificationSettingsState {
    open spec fn key_spec(&self) -> u64 {
        self.channel_id
    }

    fn key(&self) -> (k: u64) {
        self.channel_id
    }
}

/// Notification settings of a guild, or of the direct messages.
#[derive(Clone, Debug)]
pub struct GuildNotificationSettingsState {
    pub message_notifications: Option<NotificationLevel>,
    pub muted: bool,
    pub mute_end_time: Option<String>,
    pub suppress_everyone: bool,
    pub suppress_roles: bool,
    pub channel_overrides: Vec<ChannelNotificationSettingsState>,
}

/// The notification settings of one guild.
#[derive(Clone, Debug)]
pub struct GuildNotificationEntry {
    pub guild_id: u64,
    pub settings: GuildNotificationSettingsState,
}

impl Keyed for GuildNotificationEntry {
    open spec fn key_spec(&self) -> u64 {
        self.guild_id
    }

    fn key(&self) -> (k: u64) {
        self.guild_id
    }
}

/// A member of a guild.
#[derive(Clone, Debug)]
pub struct GuildMemberState {
    pub user_id: u64,
    pub display_name: String,
    pub username: Option<String>,
    pub is_bot: bool,
    pub avatar_url: Option<String>,
    pub role_ids: Vec<u64>,
    pub status: PresenceStatus,
}

impl Keyed for GuildMemberState {
    open spec fn key_spec(&self) -> u64 {
        self.user_id
    }

    fn key(&self) -> (k: u64) {
        self.user_id
    }
}

/// The loaded members of one guild.
#[derive(Clone, Debug)]
pub struct GuildMembers {
    pub guild_id: u64,
    pub members: Vec<GuildMemberState>,
}

impl Keyed for GuildMembers {
    open spec fn key_spec(&self) -> u64 {
        self.guild_id
    }

    fn key(&self) -> (k: u64) {
        self.guild_id
    }
}

/// The roles of one guild.
#[derive(Clone, Debug)]
pub struct GuildRoles {
    pub guild_id: u64,
    pub roles: Vec<RoleInfo>,
}

impl Keyed for GuildRoles {
    open spec fn key_spec(&self) -> u64 {
        self.guild_id
    }

    fn key(&self) -> (k: u64) {
        self.guild_id
    }
}

impl Keyed for RoleInfo {
    open spec fn key_spec(&self) -> u64 {
        self.id
    }

    fn key(&self) -> (k: u64) {
        self.id
    }
}

/// A per-channel override as Discord sends it.
#[derive(Clone, Debug)]
pub struct ChannelNotificationOverrideInfo {
    pub channel_id: u64,
    pub message_notifications: Option<NotificationLevel>,
    pub muted: bool,
    pub mute_end_time: Option<String>,
}

/// Notification settings as Discord sends them; no guild id means the direct messages.
#[derive(Clone, Debug)]
pub struct GuildNotificationSettingsInfo {
    pub guild_id: Option<u64>,
    pub message_notifications: Option<NotificationLevel>,
    pub muted: bool,
    pub mute_end_time: Option<String>,
    pub suppress_everyone: bool,
    pub suppress_roles: bool,
    pub channel_overrides: Vec<ChannelNotificationOverrideInfo>,
}

/// Everything the client knows about Discord: guilds, channels, read states, loaded
/// messages, members and notification settings.
#[derive(Debug)]
pub struct DiscordState {
    pub guilds: Vec<GuildState>,
    pub channels: Vec<ChannelState>,
    pub read_states: Vec<ReadState>,
    pub messages: Vec<ChannelMessages>,
    pub pinned_messages: Vec<ChannelMessages>,
    pub notification_settings: Vec<GuildNotificationEntry>,
    pub private_notification_settings: Option<GuildNotificationSettingsState>,
    pub members: Vec<GuildMembers>,
    pub roles: Vec<GuildRoles>,
    pub current_user_id: Option<u64>,
    pub current_user: Option<String>,
}

impl DiscordState {
    /// A state that knows nothing yet.
    pub fn new() -> (state: Self)
        ensures
            state.guilds@.len() == 0,
            state.channels@.len() == 0,
            state.read_states@.len() == 0,
            state.messages@.len() == 0,
            state.pinned_messages@.len() == 0,
            state.notification_settings@.len() == 0,
            state.private_notification_settings is None,
            state.members@.len() == 0,
            state.roles@.len() == 0,
            state.current_user_id is None,
            state.current_user is None,
    {
        DiscordState {
            guilds: Vec::new(),
            channels: Vec::new(),
            read_states: Vec::new(),
            messages: Vec::new(),
            pinned_messages: Vec::new(),
            notification_settings: Vec::new(),
            private_notification_settings: None,
            members: Vec::new(),
            roles: Vec::new(),
            current_user_id: None,
            current_user: None,
        }
    }

    pub open spec fn channel_spec(self, channel_id: u64) -> Option<ChannelState> {
        lookup(self.channels@, channel_id)
    }

    /// The loaded messages of a channel, oldest first; empty when none are loaded.
    pub open spec fn channel_messages_spec(self, channel_id: u64) -> Seq<MessageState> {
        match lookup(self.messages@, channel_id) {
            Some(entry) => entry.messages@,
            None => Seq::empty(),
        }
    }

    /// The loaded pinned messages of a channel; empty when none are loaded.
    pub open spec fn pinned_messages_spec(self, channel_id: u64) -> Seq<MessageState> {
        match lookup(self.pinned_messages@, channel_id) {
            Some(entry) => entry.messages@,
            None => Seq::empty(),
        }
    }
}

} // verus!
