use vstd::prelude::*;

use crate::discord::{
    AttachmentInfo, ChannelInfo, ForumPostArchiveState, MemberInfo, MentionInfo,
    MessageAttachmentUpload, MessageInfo, MessageReferenceInfo, MessageSnapshotInfo, RoleInfo,
};

verus! {

/// Something that happened: a gateway event, a REST answer, or a request of the UI.
#[derive(Clone, Debug)]
pub enum AppEvent {
    Ready { user: String, user_id: Option<u64> },
    StatusMessage { message: String },
    GuildCreate {
        guild_id: u64,
        name: String,
        channels: Vec<ChannelInfo>,
        members: Vec<MemberInfo>,
        roles: Vec<RoleInfo>,
    },
    ChannelUpsert(ChannelInfo),
    GuildMemberUpsert { guild_id: u64, member: MemberInfo },
    MessageCreate {
        guild_id: Option<u64>,
        channel_id: u64,
        message_id: u64,
        author_id: u64,
        author: String,
        content: Option<String>,
        message_kind: u8,
        reference: Option<MessageReferenceInfo>,
        mentions: Vec<MentionInfo>,
        sticker_names: Vec<String>,
        attachments: Vec<AttachmentInfo>,
        embed_count: usize,
        forwarded_snapshots: Vec<MessageSnapshotInfo>,
    },
    MessageHistoryLoaded { channel_id: u64, before: Option<u64>, messages: Vec<MessageInfo> },
    MessageHistoryLoadFailed { channel_id: u64, message: String },
    PinnedMessagesLoaded { channel_id: u64, messages: Vec<MessageInfo> },
    ForumPostsLoaded {
        channel_id: u64,
        archive_state: ForumPostArchiveState,
        offset: usize,
        next_offset: usize,
        posts: Vec<ChannelInfo>,
        preview_messages: Vec<MessageInfo>,
        has_more: bool,
    },
    ActivateChannel { channel_id: u64 },
}

/// Work the UI asks the Discord side to do.
#[derive(Clone, Debug)]
pub enum AppCommand {
    LoadMessageHistory { channel_id: u64, before: Option<u64> },
    SendMessage {
        channel_id: u64,
        content: String,
        reply_to: Option<u64>,
        attachments: Vec<MessageAttachmentUpload>,
    },
    EditMessage { channel_id: u64, message_id: u64, content: String },
    /// Tell Discord the user has read the channel up to this message.
    AckChannel { channel_id: u64, message_id: u64 },
}

} // verus!
