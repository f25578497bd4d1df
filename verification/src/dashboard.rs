use vstd::prelude::*;

use crate::composer::ComposerState;
use crate::config::DisplayOptions;
use crate::discord::{ChannelInfo, ForumPostArchiveState, MessageAttachmentUpload, MessageInfo};
use crate::discord_state::{
    ChannelKind, ChannelState, DiscordState, GuildMemberState, MessageState,
};
use crate::events::{AppCommand, AppEvent};
use crate::keyed::{Keyed, find_index, lookup, upsert};
use crate::notifications::ChannelUnreadState;
use crate::scroll::{
    clamp_index_spec, clamp_list_scroll_spec, clamp_list_viewport, clamp_selected_index,
    last_index, last_index_spec, max_scroll_spec, move_index_down, move_index_down_by,
    move_index_up, move_index_up_by, pane_content_height, pane_content_height_spec,
    scroll_list_down, scroll_list_up,
};

verus! {

/// The pane that keyboard input goes to.
#[derive(Clone, Copy, Debug, PartialEq, Eq, Structural)]
pub enum FocusPane {
    Guilds,
    Channels,
    Messages,
    Members,
}

/// Which part of Discord the channel pane shows.
#[derive(Clone, Copy, Debug, PartialEq, Eq, Structural)]
pub enum ActiveGuildScope {
    Unset,
    DirectMessages,
    Guild(u64),
}

/// Where a request for older history of a channel stands.
#[derive(Clone, Copy, Debug, PartialEq, Eq, Structural)]
pub enum OlderHistoryRequestState {
    /// Messages before this one were asked for and have not arrived.
    Requested { before: u64 },
    /// Asking for messages before this one gave none: the history ends there.
    Exhausted { before: u64 },
}

/// The older-history request state of one channel.
#[derive(Clone, Copy, Debug, PartialEq, Eq, Structural)]
pub struct OlderHistoryEntry {
    pub channel_id: u64,
    pub state: OlderHistoryRequestState,
}

impl Keyed for OlderHistoryEntry {
    open spec fn key_spec(&self) -> u64 {
        self.channel_id
    }

    fn key(&self) -> (k: u64) {
        self.channel_id
    }
}

/// The loaded posts of one forum: active ones first, then archived ones.
#[derive(Clone, Debug)]
pub struct ForumPostListState {
    pub channel_id: u64,
    pub active_post_ids: Vec<u64>,
    pub archived_post_ids: Vec<u64>,
    pub has_more: bool,
}

impl Keyed for ForumPostListState {
    open spec fn key_spec(&self) -> u64 {
        self.channel_id
    }

    fn key(&self) -> (k: u64) {
        self.channel_id
    }
}

/// Where the message view stood before the pinned-message view replaced it.
#[derive(Clone, Copy, Debug, PartialEq, Eq, Structural)]
pub struct MessageViewPosition {
    pub selected_message: usize,
    pub message_scroll: usize,
    pub message_line_scroll: usize,
    pub message_keep_selection_visible: bool,
    pub message_auto_follow: bool,
    pub new_messages_marker_message_id: Option<u64>,
    pub unread_divider_last_acked_id: Option<u64>,
    pub pending_unread_anchor_scroll: bool,
}

/// The channel whose message view the pinned view replaced, and where that view stood.
#[derive(Clone, Copy, Debug, PartialEq, Eq, Structural)]
pub struct PinnedMessageViewReturnTarget {
    pub channel_id: u64,
    pub position: MessageViewPosition,
}

/// The state of the channel action menu: choosing an action, or choosing a thread.
#[derive(Clone, Copy, Debug, PartialEq, Eq, Structural)]
pub enum ChannelActionMenuState {
    Actions { selected: usize },
    Threads { selected: usize },
}

/// The whole state of the dashboard: what Discord looks like, which pane has focus, what is
/// selected and scrolled in each pane, the composer, and the commands waiting to be run.
#[derive(Debug)]
pub struct DashboardState {
    pub discord: DiscordState,
    pub focus: FocusPane,
    pub active_guild: ActiveGuildScope,
    pub active_channel_id: Option<u64>,
    pub selected_guild: usize,
    pub guild_scroll: usize,
    pub guild_horizontal_scroll: usize,
    pub guild_keep_selection_visible: bool,
    pub guild_view_height: usize,
    pub selected_channel: usize,
    pub channel_scroll: usize,
    pub channel_horizontal_scroll: usize,
    pub channel_keep_selection_visible: bool,
    pub channel_view_height: usize,
    pub selected_message: usize,
    pub message_scroll: usize,
    pub message_line_scroll: usize,
    pub message_keep_selection_visible: bool,
    pub message_auto_follow: bool,
    pub new_messages_marker_message_id: Option<u64>,
    pub unread_divider_last_acked_id: Option<u64>,
    pub pending_unread_anchor_scroll: bool,
    pub message_view_height: usize,
    /// The width the message pane's text was last laid out for; `usize::MAX` until the pane
    /// is first laid out.
    pub message_content_width: usize,
    /// The height in rows of each listed message as last laid out, in list order.
    pub message_rendered_heights: Vec<usize>,
    pub pinned_message_view_channel_id: Option<u64>,
    pub pinned_message_view_return_target: Option<PinnedMessageViewReturnTarget>,
    pub selected_member: usize,
    pub member_scroll: usize,
    pub member_horizontal_scroll: usize,
    pub member_keep_selection_visible: bool,
    pub member_view_height: usize,
    pub composer: ComposerState,
    pub guild_action_menu: Option<usize>,
    pub channel_action_menu: Option<ChannelActionMenuState>,
    pub member_action_menu: Option<usize>,
    pub display_options: DisplayOptions,
    pub current_user: Option<String>,
    pub current_user_id: Option<u64>,
    pub last_status: Option<String>,
    pub should_quit: bool,
    pub older_history_requests: Vec<OlderHistoryEntry>,
    pub forum_post_lists: Vec<ForumPostListState>,
    pub pending_commands: Vec<AppCommand>,
    pub guild_pane_visible: bool,
    pub channel_pane_visible: bool,
    pub member_pane_visible: bool,
}

/// Whether a channel belongs in the channel pane of a scope: direct-message channels for the
/// direct messages; for a guild, its channels the user may see, threads left out.
pub open spec fn channel_in_scope(c: ChannelState, scope: ActiveGuildScope) -> bool {
    match scope {
        ActiveGuildScope::Unset => false,
        ActiveGuildScope::DirectMessages => c.guild_id is None,
        ActiveGuildScope::Guild(g) => c.guild_id == Some(g) && c.viewable && c.kind
            != ChannelKind::Thread,
    }
}

/// The channels of a scope, in the order they are kept.
pub open spec fn scope_channels(channels: Seq<ChannelState>, scope: ActiveGuildScope) -> Seq<
    ChannelState,
>
    decreases channels.len(),
{
    if channels.len() == 0 {
        Seq::empty()
    } else {
        let prev = scope_channels(channels.drop_last(), scope);
        if channel_in_scope(channels.last(), scope) {
            prev.push(channels.last())
        } else {
            prev
        }
    }
}

/// The panes shown, in their order on screen; the message pane is always shown.
pub open spec fn visible_panes_spec(guilds: bool, channels: bool, members: bool) -> Seq<FocusPane> {
    (if guilds {
        seq![FocusPane::Guilds]
    } else {
        Seq::empty()
    }) + (if channels {
        seq![FocusPane::Channels]
    } else {
        Seq::empty()
    }) + seq![FocusPane::Messages] + (if members {
        seq![FocusPane::Members]
    } else {
        Seq::empty()
    })
}

impl DashboardState {
    // -----------------------------------------------------------------------
    // The model the contracts speak of
    // -----------------------------------------------------------------------

    /// Two states list the same things: same Discord state, scope, channel, views and heights.
    pub open spec fn same_content(self, other: DashboardState) -> bool {
        &&& self.discord == other.discord
        &&& self.active_guild == other.active_guild
        &&& self.active_channel_id == other.active_channel_id
        &&& self.pinned_message_view_channel_id == other.pinned_message_view_channel_id
        &&& self.forum_post_lists == other.forum_post_lists
        &&& self.message_view_height == other.message_view_height
        &&& self.guild_view_height == other.guild_view_height
        &&& self.channel_view_height == other.channel_view_height
        &&& self.member_view_height == other.member_view_height
        &&& self.focus == other.focus
        &&& self.guild_pane_visible == other.guild_pane_visible
        &&& self.channel_pane_visible == other.channel_pane_visible
        &&& self.member_pane_visible == other.member_pane_visible
    }

    /// The message view, the composer, the user and the queued commands are as in `other`.
    pub open spec fn same_message_view(self, other: DashboardState) -> bool {
        &&& self.selected_message == other.selected_message
        &&& self.message_scroll == other.message_scroll
        &&& self.message_line_scroll == other.message_line_scroll
        &&& self.message_keep_selection_visible == other.message_keep_selection_visible
        &&& self.message_auto_follow == other.message_auto_follow
        &&& self.new_messages_marker_message_id == other.new_messages_marker_message_id
        &&& self.unread_divider_last_acked_id == other.unread_divider_last_acked_id
        &&& self.pending_unread_anchor_scroll == other.pending_unread_anchor_scroll
        &&& self.composer == other.composer
        &&& self.current_user == other.current_user
        &&& self.current_user_id == other.current_user_id
        &&& self.last_status == other.last_status
        &&& self.pending_commands == other.pending_commands
        &&& self.older_history_requests == other.older_history_requests
        &&& self.channel_action_menu == other.channel_action_menu
        &&& self.pinned_message_view_return_target == other.pinned_message_view_return_target
    }

    pub open spec fn visible_panes_view(self) -> Seq<FocusPane> {
        visible_panes_spec(self.guild_pane_visible, self.channel_pane_visible, self.member_pane_visible)
    }

    /// The rows of the channel pane.
    pub open spec fn channel_entries(self) -> Seq<ChannelState> {
        scope_channels(self.discord.channels@, self.active_guild)
    }

    /// The channel whose messages the message pane shows.
    pub open spec fn selected_channel_id_spec(self) -> Option<u64> {
        self.active_channel_id
    }

    pub open spec fn selected_channel_is_forum_spec(self) -> bool {
        match self.active_channel_id {
            Some(c) => match self.discord.channel_spec(c) {
                Some(ch) => ch.kind == ChannelKind::GuildForum,
                None => false,
            },
            None => false,
        }
    }

    /// Whether the pinned-message view is showing for the selected channel.
    pub open spec fn pinned_view_active_spec(self) -> bool {
        match self.pinned_message_view_channel_id {
            Some(c) => self.active_channel_id == Some(c),
            None => false,
        }
    }

    /// The messages the message pane lists: none for a forum; the pinned messages while the
    /// pinned view is chosen for the selected channel; otherwise the loaded messages.
    pub open spec fn messages_spec(self) -> Seq<MessageState> {
        if self.selected_channel_is_forum_spec() {
            Seq::empty()
        } else if self.pinned_message_view_channel_id == self.active_channel_id {
            match self.active_channel_id {
                Some(c) => self.discord.pinned_messages_spec(c),
                None => Seq::empty(),
            }
        } else {
            match self.active_channel_id {
                Some(c) => self.discord.channel_messages_spec(c),
                None => Seq::empty(),
            }
        }
    }

    /// The posts of the selected forum, active ones first.
    pub open spec fn forum_post_ids(self) -> Seq<u64> {
        match self.active_channel_id {
            Some(c) => match lookup(self.forum_post_lists@, c) {
                Some(list) => list.active_post_ids@ + list.archived_post_ids@,
                None => Seq::empty(),
            },
            None => Seq::empty(),
        }
    }

    /// The number of items of the message pane: forum posts in a forum, messages otherwise.
    pub open spec fn message_item_count(self) -> nat {
        if self.selected_channel_is_forum_spec() {
            self.forum_post_ids().len()
        } else {
            self.messages_spec().len()
        }
    }

    /// The loaded members of the active guild.
    pub open spec fn members_spec(self) -> Seq<GuildMemberState> {
        match self.active_guild {
            ActiveGuildScope::Guild(g) => match lookup(self.discord.members@, g) {
                Some(entry) => entry.members@,
                None => Seq::empty(),
            },
            _ => Seq::empty(),
        }
    }

    /// The rows of the member pane: a header and one row per member, none without members.
    pub open spec fn member_line_count_spec(self) -> nat {
        if self.members_spec().len() == 0 {
            0
        } else {
            self.members_spec().len() + 1
        }
    }

    /// The row of the selected member in the member pane.
    pub open spec fn selected_member_line_spec(self) -> nat {
        if self.members_spec().len() == 0 {
            0
        } else {
            clamp_index_spec(self.selected_member as nat, self.members_spec().len()) + 1
        }
    }

    pub open spec fn message_content_height_spec(self) -> nat {
        pane_content_height_spec(self.message_view_height as nat)
    }

    pub open spec fn member_content_height_spec(self) -> nat {
        pane_content_height_spec(self.member_view_height as nat)
    }

    // -----------------------------------------------------------------------
    // Construction
    // -----------------------------------------------------------------------

    /// A dashboard that knows nothing yet: guild pane focused, all panes shown, composer closed.
    pub fn new() -> (state: Self)
        ensures
            state.focus == FocusPane::Guilds,
            state.active_guild == ActiveGuildScope::Unset,
            state.active_channel_id is None,
            state.guild_pane_visible && state.channel_pane_visible && state.member_pane_visible,
            !state.should_quit,
            state.composer.is_cleared(),
            state.pending_commands@.len() == 0,
            state.display_options == DisplayOptions::default_spec(),
            state.discord.guilds@.len() == 0 && state.discord.channels@.len() == 0,
            state.selected_guild == 1,
            state.message_auto_follow,
            state.current_user is None,
            state.current_user_id is None,
            state.last_status is None,
            state.discord.messages@.len() == 0,
            state.discord.read_states@.len() == 0,
            state.discord.members@.len() == 0,
            state.discord.current_user is None,
            state.discord.current_user_id is None,
            state.selected_channel == 0 && state.channel_scroll == 0,
            state.selected_message == 0 && state.message_scroll == 0 && state.message_line_scroll == 0,
            state.selected_member == 0 && state.member_scroll == 0,
            state.guild_scroll == 0,
            state.new_messages_marker_message_id is None,
            state.unread_divider_last_acked_id is None,
            !state.pending_unread_anchor_scroll,
            state.pinned_message_view_channel_id is None,
            state.pinned_message_view_return_target is None,
            state.guild_action_menu is None && state.channel_action_menu is None
                && state.member_action_menu is None,
            state.older_history_requests@.len() == 0,
            state.forum_post_lists@.len() == 0,
            state.message_content_width == usize::MAX,
            state.message_rendered_heights@.len() == 0,
    {
        Self::new_with_display_options(DisplayOptions::default())
    }

    /// A new dashboard with the given display options.
    pub fn new_with_display_options(display_options: DisplayOptions) -> (state: Self)
        ensures
            state.focus == FocusPane::Guilds,
            state.active_guild == ActiveGuildScope::Unset,
            state.active_channel_id is None,
            state.guild_pane_visible && state.channel_pane_visible && state.member_pane_visible,
            !state.should_quit,
            state.composer.is_cleared(),
            state.pending_commands@.len() == 0,
            state.display_options == display_options,
            state.discord.guilds@.len() == 0 && state.discord.channels@.len() == 0,
            state.selected_guild == 1,
            state.message_auto_follow,
            state.current_user is None,
            state.current_user_id is None,
            state.last_status is None,
            state.discord.messages@.len() == 0,
            state.discord.read_states@.len() == 0,
            state.discord.members@.len() == 0,
            state.discord.current_user is None,
            state.discord.current_user_id is None,
            state.selected_channel == 0 && state.channel_scroll == 0,
            state.selected_message == 0 && state.message_scroll == 0 && state.message_line_scroll == 0,
            state.selected_member == 0 && state.member_scroll == 0,
            state.guild_scroll == 0,
            state.new_messages_marker_message_id is None,
            state.unread_divider_last_acked_id is None,
            !state.pending_unread_anchor_scroll,
            state.pinned_message_view_channel_id is None,
            state.pinned_message_view_return_target is None,
            state.guild_action_menu is None && state.channel_action_menu is None
                && state.member_action_menu is None,
            state.older_history_requests@.len() == 0,
            state.forum_post_lists@.len() == 0,
            state.message_content_width == usize::MAX,
            state.message_rendered_heights@.len() == 0,
    {
        DashboardState {
            discord: DiscordState::new(),
            focus: FocusPane::Guilds,
            active_guild: ActiveGuildScope::Unset,
            active_channel_id: None,
            selected_guild: 1,
            guild_scroll: 0,
            guild_horizontal_scroll: 0,
            guild_keep_selection_visible: true,
            guild_view_height: 1,
            selected_channel: 0,
            channel_scroll: 0,
            channel_horizontal_scroll: 0,
            channel_keep_selection_visible: true,
            channel_view_height: 1,
            selected_message: 0,
            message_scroll: 0,
            message_line_scroll: 0,
            message_keep_selection_visible: true,
            message_auto_follow: true,
            new_messages_marker_message_id: None,
            unread_divider_last_acked_id: None,
            pending_unread_anchor_scroll: false,
            message_view_height: 1,
            message_content_width: usize::MAX,
            message_rendered_heights: Vec::new(),
            pinned_message_view_channel_id: None,
            pinned_message_view_return_target: None,
            selected_member: 0,
            member_scroll: 0,
            member_horizontal_scroll: 0,
            member_keep_selection_visible: true,
            member_view_height: 1,
            composer: ComposerState::new(),
            guild_action_menu: None,
            channel_action_menu: None,
            member_action_menu: None,
            display_options,
            current_user: None,
            current_user_id: None,
            last_status: None,
            should_quit: false,
            older_history_requests: Vec::new(),
            forum_post_lists: Vec::new(),
            pending_commands: Vec::new(),
            guild_pane_visible: true,
            channel_pane_visible: true,
            member_pane_visible: true,
        }
    }

    /// Hands out the queued commands, oldest first, and empties the queue.
    pub fn drain_pending_commands(&mut self) -> (commands: Vec<AppCommand>)
        ensures
            commands@ == old(self).pending_commands@,
            final(self).pending_commands@.len() == 0,
            *final(self) == (DashboardState { pending_commands: final(self).pending_commands, ..*old(self) }),
    {
        let mut commands = Vec::new();
        std::mem::swap(&mut commands, &mut self.pending_commands);
        commands
    }

    pub fn quit(&mut self)
        ensures
            final(self).should_quit,
    {
        self.should_quit = true;
    }

    pub fn should_quit(&self) -> (r: bool)
        ensures
            r == self.should_quit,
    {
        self.should_quit
    }

    pub fn focus(&self) -> (pane: FocusPane)
        ensures
            pane == self.focus,
    {
        self.focus
    }

    pub fn current_user(&self) -> (user: Option<&str>)
        ensures
            match user {
                Some(u) => self.current_user matches Some(c) && u@ == c@,
                None => self.current_user is None,
            },
    {
        match &self.current_user {
            Some(u) => Some(u.as_str()),
            None => None,
        }
    }

    pub fn display_options(&self) -> (options: DisplayOptions)
        ensures
            options == self.display_options,
    {
        self.display_options
    }

    pub fn is_channel_action_menu_open(&self) -> (open: bool)
        ensures
            open == self.channel_action_menu is Some,
    {
        self.channel_action_menu.is_some()
    }

    pub fn is_guild_action_menu_open(&self) -> (open: bool)
        ensures
            open == self.guild_action_menu is Some,
    {
        self.guild_action_menu.is_some()
    }

    pub fn is_member_action_menu_open(&self) -> (open: bool)
        ensures
            open == self.member_action_menu is Some,
    {
        self.member_action_menu.is_some()
    }

    pub fn is_channel_action_threads_phase(&self) -> (threads: bool)
        ensures
            threads == (self.channel_action_menu matches Some(ChannelActionMenuState::Threads { .. })),
    {
        match self.channel_action_menu {
            Some(ChannelActionMenuState::Threads { .. }) => true,
            _ => false,
        }
    }

    // -----------------------------------------------------------------------
    // Unread state, through the Discord state
    // -----------------------------------------------------------------------

    pub fn channel_unread(&self, channel_id: u64) -> (state: ChannelUnreadState)
        ensures
            exists|now: crate::notifications::UtcInstant| state == self.discord.channel_unread_spec(channel_id, now),
    {
        self.discord.channel_unread(channel_id)
    }

    pub fn guild_unread(&self, guild_id: u64) -> (state: ChannelUnreadState)
        ensures
            exists|now: crate::notifications::UtcInstant| state == self.discord.guild_unread_spec(guild_id, now),
    {
        self.discord.guild_unread(guild_id)
    }

    pub fn direct_message_unread_count(&self) -> (count: usize)
        ensures
            exists|now: crate::notifications::UtcInstant| count as nat == self.discord.dm_unread_fold(self.discord.channels@, now),
    {
        self.discord.direct_message_unread_count()
    }

    pub fn channel_unread_message_count(&self, channel_id: u64) -> (count: usize)
        ensures
            exists|now: crate::notifications::UtcInstant| count == (if self.discord.loaded_counts_spec(channel_id, now).0
                + self.discord.loaded_counts_spec(channel_id, now).1 > usize::MAX {
                usize::MAX as nat
            } else {
                self.discord.loaded_counts_spec(channel_id, now).0 + self.discord.loaded_counts_spec(channel_id, now).1
            }),
    {
        self.discord.channel_unread_message_count(channel_id)
    }

    // -----------------------------------------------------------------------
    // Panes and focus
    // -----------------------------------------------------------------------

    pub fn is_guild_pane_visible(&self) -> (visible: bool)
        ensures
            visible == self.guild_pane_visible,
    {
        self.guild_pane_visible
    }

    pub fn is_channel_pane_visible(&self) -> (visible: bool)
        ensures
            visible == self.channel_pane_visible,
    {
        self.channel_pane_visible
    }

    pub fn is_member_pane_visible(&self) -> (visible: bool)
        ensures
            visible == self.member_pane_visible,
    {
        self.member_pane_visible
    }

    fn visible_panes(&self) -> (panes: Vec<FocusPane>)
        ensures
            panes@ == self.visible_panes_view(),
    {
        let mut panes = Vec::new();
        if self.guild_pane_visible {
            panes.push(FocusPane::Guilds);
        }
        if self.channel_pane_visible {
            panes.push(FocusPane::Channels);
        }
        panes.push(FocusPane::Messages);
        if self.member_pane_visible {
            panes.push(FocusPane::Members);
        }
        proof {
            let g = if self.guild_pane_visible {
                seq![FocusPane::Guilds]
            } else {
                Seq::empty()
            };
            let c = if self.channel_pane_visible {
                seq![FocusPane::Channels]
            } else {
                Seq::empty()
            };
            let m = if self.member_pane_visible {
                seq![FocusPane::Members]
            } else {
                Seq::empty()
            };
            assert(panes@ =~= g + c + seq![FocusPane::Messages] + m);
        }
        panes
    }

    /// Position of a pane among the shown panes, or 0 when it is hidden.
    fn pane_position(panes: &Vec<FocusPane>, pane: FocusPane) -> (i: usize)
        requires
            panes@.len() >= 1,
        ensures
            i < panes@.len(),
            panes@.contains(pane) ==> panes@[i as int] == pane,
            !panes@.contains(pane) ==> i == 0,
            forall|j: int| 0 <= j < i ==> panes@[j] != pane,
    {
        let mut i: usize = 0;
        while i < panes.len()
            invariant
                i <= panes@.len(),
                forall|j: int| 0 <= j < i ==> panes@[j] != pane,
            decreases panes@.len() - i,
        {
            if panes[i] == pane {
                return i;
            }
            i = i + 1;
        }
        0
    }

    fn update_focus(&mut self)
        ensures
            final(self).visible_panes_view().contains(final(self).focus),
            old(self).visible_panes_view().contains(old(self).focus) ==> final(self).focus == old(self).focus,
            !old(self).visible_panes_view().contains(old(self).focus) ==> final(self).focus == old(self).visible_panes_view()[0],
            final(self).guild_pane_visible == old(self).guild_pane_visible,
            final(self).channel_pane_visible == old(self).channel_pane_visible,
            final(self).member_pane_visible == old(self).member_pane_visible,
    {
        let panes = self.visible_panes();
        let i = Self::pane_position(&panes, self.focus);
        if panes[i] != self.focus {
            self.focus = panes[0];
            assert(panes@.contains(panes@[0]));
        } else {
            assert(panes@.contains(panes@[i as int]));
        }
    }

    /// Shows or hides the guild pane; focus moves to the first shown pane if its pane is hidden.
    pub fn set_guild_pane_visibility(&mut self, visible: bool)
        ensures
            final(self).guild_pane_visible == visible,
            final(self).channel_pane_visible == old(self).channel_pane_visible,
            final(self).member_pane_visible == old(self).member_pane_visible,
            final(self).visible_panes_view().contains(final(self).focus),
            final(self).visible_panes_view().contains(old(self).focus) ==> final(self).focus == old(self).focus,
            !final(self).visible_panes_view().contains(old(self).focus) ==> final(self).focus
                == final(self).visible_panes_view()[0],
    {
        self.guild_pane_visible = visible;
        self.update_focus();
    }

    /// Shows or hides the channel pane; focus moves to the first shown pane if its pane is hidden.
    pub fn set_channel_pane_visibility(&mut self, visible: bool)
        ensures
            final(self).channel_pane_visible == visible,
            final(self).guild_pane_visible == old(self).guild_pane_visible,
            final(self).member_pane_visible == old(self).member_pane_visible,
            final(self).visible_panes_view().contains(final(self).focus),
            final(self).visible_panes_view().contains(old(self).focus) ==> final(self).focus == old(self).focus,
            !final(self).visible_panes_view().contains(old(self).focus) ==> final(self).focus
                == final(self).visible_panes_view()[0],
    {
        self.channel_pane_visible = visible;
        self.update_focus();
    }

    /// Shows or hides the member pane; focus moves to the first shown pane if its pane is hidden.
    pub fn set_member_pane_visibility(&mut self, visible: bool)
        ensures
            final(self).member_pane_visible == visible,
            final(self).guild_pane_visible == old(self).guild_pane_visible,
            final(self).channel_pane_visible == old(self).channel_pane_visible,
            final(self).visible_panes_view().contains(final(self).focus),
            final(self).visible_panes_view().contains(old(self).focus) ==> final(self).focus == old(self).focus,
            !final(self).visible_panes_view().contains(old(self).focus) ==> final(self).focus
                == final(self).visible_panes_view()[0],
    {
        self.member_pane_visible = visible;
        self.update_focus();
    }

    /// The pane after the focused one among the shown panes (the first when the focused pane
    /// is hidden or last).
    pub open spec fn next_pane_spec(self) -> FocusPane {
        let panes = self.visible_panes_view();
        let idx = match first_index_of(panes, self.focus) {
            Some(i) => i,
            None => 0,
        };
        panes[(idx + 1) % (panes.len() as int)]
    }

    /// The pane before the focused one among the shown panes (the last when the focused pane
    /// is first; the one before the first when it is hidden).
    pub open spec fn previous_pane_spec(self) -> FocusPane {
        let panes = self.visible_panes_view();
        let idx = match first_index_of(panes, self.focus) {
            Some(i) => i,
            None => 0,
        };
        panes[(idx + panes.len() - 1) % (panes.len() as int)]
    }

    pub fn cycle_focus(&mut self)
        ensures
            final(self).focus == old(self).next_pane_spec(),
            *final(self) == (DashboardState { focus: final(self).focus, ..*old(self) }),
    {
        let panes = self.visible_panes();
        let idx = Self::pane_position(&panes, self.focus);
        proof {
            lemma_first_index_of(panes@, self.focus, idx as int);
        }
        self.focus = panes[(idx + 1) % panes.len()];
    }

    pub fn cycle_focus_backward(&mut self)
        ensures
            final(self).focus == old(self).previous_pane_spec(),
            *final(self) == (DashboardState { focus: final(self).focus, ..*old(self) }),
    {
        let panes = self.visible_panes();
        let idx = Self::pane_position(&panes, self.focus);
        proof {
            lemma_first_index_of(panes@, self.focus, idx as int);
        }
        self.focus = panes[(idx + panes.len() - 1) % panes.len()];
    }

    pub fn focus_pane(&mut self, pane: FocusPane)
        ensures
            final(self).focus == pane,
            *final(self) == (DashboardState { focus: pane, ..*old(self) }),
    {
        self.focus = pane;
    }
}

/// The first position of `x` in `s`.
pub open spec fn first_index_of<A>(s: Seq<A>, x: A) -> Option<int>
    decreases s.len(),
{
    if s.len() == 0 {
        None
    } else if s[0] == x {
        Some(0)
    } else {
        match first_index_of(s.drop_first(), x) {
            Some(i) => Some(i + 1),
            None => None,
        }
    }
}

proof fn lemma_first_index_of<A>(s: Seq<A>, x: A, i: int)
    requires
        0 <= i < s.len(),
        s.contains(x) ==> s[i] == x,
        !s.contains(x) ==> i == 0,
        forall|j: int| 0 <= j < i ==> s[j] != x,
    ensures
        match first_index_of(s, x) {
            Some(k) => k == i,
            None => i == 0,
        },
    decreases s.len(),
{
    if s.len() > 0 && s[0] != x {
        if s.contains(x) {
            let k = choose|k: int| 0 <= k < s.len() && s[k] == x;
            assert(s.drop_first()[k - 1] == x);
            lemma_first_index_of(s.drop_first(), x, i - 1);
        } else {
            assert forall|k: int| 0 <= k < s.drop_first().len() implies s.drop_first()[k] != x by {
                if s.drop_first()[k] == x {
                    assert(s[k + 1] == x);
                }
            }
            lemma_first_index_of_none(s.drop_first(), x);
        }
    }
}

/// The first position of `x` in `s` is found exactly when `x` occurs, and holds `x`.
pub proof fn lemma_first_index_of_contains<A>(s: Seq<A>, x: A)
    ensures
        first_index_of(s, x) is Some <==> s.contains(x),
        first_index_of(s, x) matches Some(i) ==> 0 <= i < s.len() && s[i] == x,
    decreases s.len(),
{
    if s.len() > 0 {
        lemma_first_index_of_contains(s.drop_first(), x);
        if s[0] != x {
            if s.contains(x) {
                let k = choose|k: int| 0 <= k < s.len() && s[k] == x;
                assert(s.drop_first()[k - 1] == x);
            }
            if s.drop_first().contains(x) {
                let k = choose|k: int| 0 <= k < s.drop_first().len() && s.drop_first()[k] == x;
                assert(s[k + 1] == x);
            }
        } else {
            assert(s[0] == x);
        }
    }
}

proof fn lemma_first_index_of_none<A>(s: Seq<A>, x: A)
    requires
        forall|k: int| 0 <= k < s.len() ==> s[k] != x,
    ensures
        first_index_of(s, x) is None,
    decreases s.len(),
{
    if s.len() > 0 {
        assert forall|k: int| 0 <= k < s.drop_first().len() implies s.drop_first()[k] != x by {
            assert(s.drop_first()[k] == s[k + 1]);
        }
        lemma_first_index_of_none(s.drop_first(), x);
    }
}

/// Cycling focus forward and then backward comes back to a shown pane that had focus.
pub proof fn lemma_cycle_focus_round_trip(state: DashboardState, after: DashboardState)
    requires
        state.visible_panes_view().contains(state.focus),
        after.focus == state.next_pane_spec(),
        after.guild_pane_visible == state.guild_pane_visible,
        after.channel_pane_visible == state.channel_pane_visible,
        after.member_pane_visible == state.member_pane_visible,
    ensures
        after.previous_pane_spec() == state.focus,
        after.visible_panes_view().contains(after.focus),
{
    let panes = state.visible_panes_view();
    assert(panes == after.visible_panes_view());
    let i = choose|i: int| 0 <= i < panes.len() && panes[i] == state.focus;
    lemma_visible_panes_distinct(state.guild_pane_visible, state.channel_pane_visible, state.member_pane_visible);
    let k = first_index_of_witness(panes, state.focus);
    let n = panes.len() as int;
    let j = (k + 1) % n;
    assert(0 <= j < n);
    assert(panes.contains(panes[j]));
    let k2 = first_index_of_witness(panes, panes[j]);
    assert(k2 == j);
    assert((j + n - 1) % n == k) by (nonlinear_arith)
        requires
            0 <= k < n,
            j == (k + 1) % n,
    ;
}

/// Cycling focus backward and then forward comes back to a shown pane that had focus.
pub proof fn lemma_cycle_focus_backward_round_trip(state: DashboardState, after: DashboardState)
    requires
        state.visible_panes_view().contains(state.focus),
        after.focus == state.previous_pane_spec(),
        after.guild_pane_visible == state.guild_pane_visible,
        after.channel_pane_visible == state.channel_pane_visible,
        after.member_pane_visible == state.member_pane_visible,
    ensures
        after.next_pane_spec() == state.focus,
        after.visible_panes_view().contains(after.focus),
{
    let panes = state.visible_panes_view();
    assert(panes == after.visible_panes_view());
    lemma_visible_panes_distinct(state.guild_pane_visible, state.channel_pane_visible, state.member_pane_visible);
    let k = first_index_of_witness(panes, state.focus);
    let n = panes.len() as int;
    let j = (k + n - 1) % n;
    assert(0 <= j < n) by (nonlinear_arith)
        requires
            0 <= k < n,
            j == (k + n - 1) % n,
    ;
    assert(panes.contains(panes[j]));
    let k2 = first_index_of_witness(panes, panes[j]);
    assert(k2 == j);
    assert((j + 1) % n == k) by (nonlinear_arith)
        requires
            0 <= k < n,
            j == (k + n - 1) % n,
    ;
}

/// Cycling focus forward once for each shown pane brings focus back to the pane it started
/// on: `states` are the dashboard before and after each of those calls.
pub proof fn lemma_cycle_focus_full_turn(states: Seq<DashboardState>)
    requires
        states.len() == states[0].visible_panes_view().len() + 1,
        states[0].visible_panes_view().contains(states[0].focus),
        forall|k: int|
            0 <= k < states.len() - 1 ==> #[trigger] states[k + 1].focus == states[k].next_pane_spec()
                && states[k + 1].guild_pane_visible == states[k].guild_pane_visible
                && states[k + 1].channel_pane_visible == states[k].channel_pane_visible
                && states[k + 1].member_pane_visible == states[k].member_pane_visible,
    ensures
        states.last().focus == states[0].focus,
{
    let panes = states[0].visible_panes_view();
    lemma_visible_panes_distinct(
        states[0].guild_pane_visible,
        states[0].channel_pane_visible,
        states[0].member_pane_visible,
    );
    let i0 = first_index_of_witness(panes, states[0].focus);
    let n = panes.len() as int;
    lemma_cycle_focus_steps(states, i0, n);
    assert((i0 + n) % n == i0) by (nonlinear_arith)
        requires
            0 <= i0 < n,
    ;
}

/// After `k` forward cycles from the pane at position `i0`, focus is on the pane at position
/// `(i0 + k) % n` of the shown panes.
proof fn lemma_cycle_focus_steps(states: Seq<DashboardState>, i0: int, k: int)
    requires
        0 <= k < states.len(),
        states.len() == states[0].visible_panes_view().len() + 1,
        0 <= i0 < states[0].visible_panes_view().len(),
        states[0].focus == states[0].visible_panes_view()[i0],
        forall|j: int|
            0 <= j < states.len() - 1 ==> #[trigger] states[j + 1].focus == states[j].next_pane_spec()
                && states[j + 1].guild_pane_visible == states[j].guild_pane_visible
                && states[j + 1].channel_pane_visible == states[j].channel_pane_visible
                && states[j + 1].member_pane_visible == states[j].member_pane_visible,
    ensures
        states[k].visible_panes_view() == states[0].visible_panes_view(),
        states[k].focus == states[0].visible_panes_view()[(i0 + k) % (states[0].visible_panes_view().len() as int)],
    decreases k,
{
    let panes = states[0].visible_panes_view();
    let n = panes.len() as int;
    lemma_visible_panes_distinct(
        states[0].guild_pane_visible,
        states[0].channel_pane_visible,
        states[0].member_pane_visible,
    );
    if k == 0 {
        assert(i0 % n == i0) by (nonlinear_arith)
            requires
                0 <= i0 < n,
        ;
    } else {
        lemma_cycle_focus_steps(states, i0, k - 1);
        let prev = states[k - 1];
        assert(states[(k - 1) + 1].focus == states[k - 1].next_pane_spec());
        let j = (i0 + k - 1) % n;
        assert(0 <= j < n) by (nonlinear_arith)
            requires
                n > 0,
                j == (i0 + k - 1) % n,
        ;
        assert(panes.contains(panes[j]));
        let w = first_index_of_witness(panes, panes[j]);
        assert(w == j);
        assert(prev.visible_panes_view() == panes);
        assert((j + 1) % n == (i0 + k) % n) by (nonlinear_arith)
            requires
                n > 0,
                j == (i0 + k - 1) % n,
        ;
    }
}

/// The shown panes are distinct, and the message pane is among them.
proof fn lemma_visible_panes_distinct(g: bool, c: bool, m: bool)
    ensures
        forall|i: int, j: int|
            0 <= i < visible_panes_spec(g, c, m).len() && 0 <= j < visible_panes_spec(g, c, m).len()
                && i != j ==> visible_panes_spec(g, c, m)[i] != visible_panes_spec(g, c, m)[j],
        visible_panes_spec(g, c, m).len() >= 1,
{
    let s = visible_panes_spec(g, c, m);
    if g && c && m {
        assert(s =~= seq![FocusPane::Guilds, FocusPane::Channels, FocusPane::Messages, FocusPane::Members]);
    } else if g && c {
        assert(s =~= seq![FocusPane::Guilds, FocusPane::Channels, FocusPane::Messages]);
    } else if g && m {
        assert(s =~= seq![FocusPane::Guilds, FocusPane::Messages, FocusPane::Members]);
    } else if c && m {
        assert(s =~= seq![FocusPane::Channels, FocusPane::Messages, FocusPane::Members]);
    } else if g {
        assert(s =~= seq![FocusPane::Guilds, FocusPane::Messages]);
    } else if c {
        assert(s =~= seq![FocusPane::Channels, FocusPane::Messages]);
    } else if m {
        assert(s =~= seq![FocusPane::Messages, FocusPane::Members]);
    } else {
        assert(s =~= seq![FocusPane::Messages]);
    }
}

/// In a sequence without repeats, the first position of a present value is where it is.
proof fn first_index_of_witness<A>(s: Seq<A>, x: A) -> (k: int)
    requires
        s.contains(x),
        forall|i: int, j: int| 0 <= i < s.len() && 0 <= j < s.len() && i != j ==> s[i] != s[j],
    ensures
        0 <= k < s.len(),
        s[k] == x,
        first_index_of(s, x) == Some(k),
    decreases s.len(),
{
    if s[0] == x {
        0
    } else {
        let k0 = choose|k: int| 0 <= k < s.len() && s[k] == x;
        assert(s.drop_first()[k0 - 1] == x);
        assert forall|i: int, j: int|
            0 <= i < s.drop_first().len() && 0 <= j < s.drop_first().len() && i != j implies s.drop_first()[i]
            != s.drop_first()[j] by {
            assert(s.drop_first()[i] == s[i + 1]);
            assert(s.drop_first()[j] == s[j + 1]);
        }
        let k = first_index_of_witness(s.drop_first(), x);
        k + 1
    }
}

} // verus!
