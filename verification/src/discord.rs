use vstd::prelude::*;

use crate::keyed::Keyed;

verus! {

/// A user mentioned by a message, with the names Discord sent along.
#[derive(Clone, Debug, PartialEq, Eq)]
pub struct MentionInfo {
    pub user_id: u64,
    pub guild_nick: Option<String>,
    pub display_name: String,
}

/// A channel, thread or forum post as Discord describes it.
#[derive(Clone, Debug, PartialEq, Eq)]
pub struct ChannelInfo {
    pub guild_id: Option<u64>,
    pub channel_id: u64,
    pub parent_id: Option<u64>,
    pub position: Option<i32>,
    pub last_message_id: Option<u64>,
    pub name: String,
    pub kind: String,
    pub message_count: Option<u32>,
    pub total_message_sent: Option<u32>,
    pub thread_archived: Option<bool>,
    pub thread_locked: Option<bool>,
    pub thread_pinned: Option<bool>,
}

/// A file attached to a message.
#[derive(Clone, Debug, PartialEq, Eq)]
pub struct AttachmentInfo {
    pub id: u64,
    pub filename: String,
    pub url: String,
    pub proxy_url: String,
    pub content_type: Option<String>,
    pub size: u64,
    pub width: Option<u32>,
    pub height: Option<u32>,
    pub description: Option<String>,
}

/// A message forwarded into another one, as Discord keeps a copy of it.
#[derive(Clone, Debug, PartialEq, Eq)]
pub struct MessageSnapshotInfo {
    pub content: Option<String>,
    pub sticker_names: Vec<String>,
    pub mentions: Vec<MentionInfo>,
    pub attachments: Vec<AttachmentInfo>,
    pub source_channel_id: Option<u64>,
    pub timestamp: Option<String>,
}

/// A message as Discord describes it.
#[derive(Clone, Debug, PartialEq, Eq)]
pub struct MessageInfo {
    pub guild_id: Option<u64>,
    pub channel_id: u64,
    pub message_id: u64,
    pub author_id: u64,
    pub author: String,
    pub content: Option<String>,
    /// Discord's number for the message type (0 for a plain message, 18 for a thread created).
    pub message_kind: u8,
    pub reference: Option<MessageReferenceInfo>,
    pub sticker_names: Vec<String>,
    pub pinned: bool,
    pub mentions: Vec<MentionInfo>,
    pub attachments: Vec<AttachmentInfo>,
    pub forwarded_snapshots: Vec<MessageSnapshotInfo>,
}

/// What a message points at: the channel and message it answers, forwards or announces.
#[derive(Clone, Copy, Debug, PartialEq, Eq, Structural)]
pub struct MessageReferenceInfo {
    pub channel_id: Option<u64>,
    pub message_id: Option<u64>,
}

/// Whether a user is online, as the gateway reports it.
#[derive(Clone, Copy, Debug, PartialEq, Eq, Structural)]
pub enum PresenceStatus {
    Online,
    Idle,
    DoNotDisturb,
    Offline,
    Unknown,
}

/// A guild member as Discord describes it.
#[derive(Clone, Debug, PartialEq, Eq)]
pub struct MemberInfo {
    pub user_id: u64,
    pub display_name: String,
    pub username: Option<String>,
    pub is_bot: bool,
    pub avatar_url: Option<String>,
    pub role_ids: Vec<u64>,
}

/// A guild role as Discord describes it.
#[derive(Clone, Debug, PartialEq, Eq)]
pub struct RoleInfo {
    pub id: u64,
    pub name: String,
    pub color: Option<u32>,
    pub position: i64,
    pub hoist: bool,
    pub permissions: u64,
}

impl Keyed for ChannelInfo {
    open spec fn key_spec(&self) -> u64 {
        self.channel_id
    }

    fn key(&self) -> (k: u64) {
        self.channel_id
    }
}

impl Keyed for MessageInfo {
    open spec fn key_spec(&self) -> u64 {
        self.message_id
    }

    fn key(&self) -> (k: u64) {
        self.message_id
    }
}

/// A file the user wants to upload with a message.
#[derive(Clone, Debug, PartialEq, Eq)]
pub struct MessageAttachmentUpload {
    pub path: String,
    pub filename: String,
    pub size_bytes: u64,
}

/// The emoji of a reaction: a Unicode emoji or a guild's custom emoji.
#[derive(Clone, Debug, PartialEq, Eq)]
pub enum ReactionEmoji {
    Unicode(String),
    Custom { id: u64, name: Option<String>, animated: bool },
}

/// A user who reacted to a message.
#[derive(Clone, Debug, PartialEq, Eq)]
pub struct ReactionUserInfo {
    pub user_id: u64,
    pub display_name: String,
}

/// How Discord is asked to notify about messages.
#[derive(Clone, Copy, Debug, PartialEq, Eq, Structural)]
pub enum NotificationLevel {
    AllMessages,
    OnlyMentions,
    NoMessages,
    ParentDefault,
}

/// Whether a forum search asks for active or archived posts.
#[derive(Clone, Copy, Debug, PartialEq, Eq, Structural)]
pub enum ForumPostArchiveState {
    Active,
    Archived,
}

impl ForumPostArchiveState {
    /// The value of the `archived` query parameter of a forum search.
    pub fn as_query_value(self) -> (value: &'static str)
        ensures
            value@ == (match self {
                ForumPostArchiveState::Active => "false"@,
                ForumPostArchiveState::Archived => "true"@,
            }),
    {
        match self {
            ForumPostArchiveState::Active => "false",
            ForumPostArchiveState::Archived => "true",
        }
    }
}

/// At most this many attachments go with one message.
pub const MAX_UPLOAD_ATTACHMENT_COUNT: usize = 10;
/// At most this many bytes per attachment.
pub const MAX_UPLOAD_FILE_BYTES: u64 = 10485760;
/// At most this many bytes of attachments per message.
pub const MAX_UPLOAD_TOTAL_BYTES: u64 = 26214400;
/// At most this many characters of text per message.
pub const MAX_MESSAGE_CHARS: usize = 2000;

} // verus!
