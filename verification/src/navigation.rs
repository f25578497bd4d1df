use vstd::prelude::*;

use crate::dashboard::{
    ActiveGuildScope, DashboardState, FocusPane, channel_in_scope, scope_channels,
};
use crate::discord_state::{ChannelKind, ChannelState, GuildMemberState, MessageState};
use crate::keyed::{find_index, lookup};
use crate::scroll::{
    clamp_index_spec, clamp_list_scroll_spec, clamp_list_viewport, clamp_selected_index,
    last_index, last_index_spec, move_down_spec, move_index_down, move_index_down_by,
    move_index_up, move_index_up_by, pane_content_height, pane_content_height_spec,
    scroll_list_down, scroll_list_up, max_scroll_spec, bottom_aligned_viewport,
    bottom_aligned_viewport_of,
};
use crate::text::{display_width, display_width_spec};

verus! {

/// A length plus one, saturating at `usize::MAX`.
pub open spec fn plus_one_sat(n: nat) -> nat {
    if n < usize::MAX {
        n + 1
    } else {
        usize::MAX as nat
    }
}

/// A width less one, saturating at zero: the furthest a label may be scrolled sideways.
pub open spec fn width_scroll_limit(width: nat) -> nat {
    if width == 0 {
        0
    } else {
        (width - 1) as nat
    }
}

/// The largest sideways scroll any of the labels allows.
pub open spec fn max_label_scroll(labels: Seq<Seq<char>>) -> nat
    decreases labels.len(),
{
    if labels.len() == 0 {
        0
    } else {
        let prev = max_label_scroll(labels.drop_last());
        let here = width_scroll_limit(display_width_spec(labels.last()));
        if here > prev {
            here
        } else {
            prev
        }
    }
}

impl DashboardState {
    // -----------------------------------------------------------------------
    // Pane contents
    // -----------------------------------------------------------------------

    /// The number of rows of the guild pane (saturating).
    pub open spec fn guild_len_spec(self) -> nat {
        plus_one_sat(self.discord.guilds@.len())
    }

    pub fn guild_entry_count(&self) -> (n: usize)
        ensures
            n == self.guild_len_spec(),
    {
        self.discord.guilds.len().saturating_add(1)
    }

    pub fn channel_entry_count(&self) -> (n: usize)
        ensures
            n == self.channel_entries().len(),
    {
        let channels = &self.discord.channels;
        let mut n: usize = 0;
        let mut i: usize = 0;
        while i < channels.len()
            invariant
                i <= channels@.len(),
                channels@ == self.discord.channels@,
                n == scope_channels(channels@.take(i as int), self.active_guild).len(),
                n <= i,
            decreases channels@.len() - i,
        {
            assert(channels@.take(i + 1).drop_last() =~= channels@.take(i as int));
            if self.channel_is_in_scope(&channels[i]) {
                n = n + 1;
            }
            i = i + 1;
        }
        assert(channels@.take(channels@.len() as int) =~= channels@);
        n
    }

    fn channel_is_in_scope(&self, c: &ChannelState) -> (r: bool)
        ensures
            r == channel_in_scope(*c, self.active_guild),
    {
        match self.active_guild {
            ActiveGuildScope::Unset => false,
            ActiveGuildScope::DirectMessages => c.guild_id.is_none(),
            ActiveGuildScope::Guild(g) => c.guild_id == Some(g) && c.viewable && c.kind
                != ChannelKind::Thread,
        }
    }

    /// The selected channel, if it is known.
    pub fn selected_channel_state(&self) -> (channel: Option<&ChannelState>)
        ensures
            match channel {
                Some(c) => self.active_channel_id matches Some(id) && self.discord.channel_spec(id)
                    == Some(*c),
                None => self.active_channel_id is None || self.discord.channel_spec(
                    self.active_channel_id.unwrap(),
                ) is None,
            },
    {
        match self.active_channel_id {
            Some(id) => match find_index(&self.discord.channels, id) {
                Some(i) => Some(&self.discord.channels[i]),
                None => None,
            },
            None => None,
        }
    }

    pub fn selected_channel_id(&self) -> (id: Option<u64>)
        ensures
            id == self.selected_channel_id_spec(),
    {
        self.active_channel_id
    }

    pub fn selected_channel_is_forum(&self) -> (forum: bool)
        ensures
            forum == self.selected_channel_is_forum_spec(),
    {
        match self.selected_channel_state() {
            Some(c) => c.kind == ChannelKind::GuildForum,
            None => false,
        }
    }

    fn pinned_view_active(&self) -> (active: bool)
        ensures
            active == self.pinned_view_active_spec(),
    {
        match self.pinned_message_view_channel_id {
            Some(c) => self.active_channel_id == Some(c),
            None => false,
        }
    }

    /// Whether the pinned-message view is showing for the selected channel.
    pub fn is_pinned_message_view(&self) -> (active: bool)
        ensures
            active == self.pinned_view_active_spec(),
    {
        self.pinned_view_active()
    }

    pub(crate) fn channel_messages_of(&self, channel_id: u64) -> (messages: &[MessageState])
        ensures
            messages@ == self.discord.channel_messages_spec(channel_id),
    {
        match find_index(&self.discord.messages, channel_id) {
            Some(i) => self.discord.messages[i].messages.as_slice(),
            None => &[],
        }
    }

    fn pinned_messages_of(&self, channel_id: u64) -> (messages: &[MessageState])
        ensures
            messages@ == self.discord.pinned_messages_spec(channel_id),
    {
        match find_index(&self.discord.pinned_messages, channel_id) {
            Some(i) => self.discord.pinned_messages[i].messages.as_slice(),
            None => &[],
        }
    }

    /// The messages the message pane lists.
    pub fn messages(&self) -> (messages: &[MessageState])
        ensures
            messages@ == self.messages_spec(),
    {
        if self.selected_channel_is_forum() {
            return &[];
        }
        if self.pinned_message_view_channel_id == self.active_channel_id {
            return self.pinned_messages();
        }
        match self.active_channel_id {
            Some(c) => self.channel_messages_of(c),
            None => &[],
        }
    }

    /// The pinned messages of the selected channel (none for a forum).
    pub fn pinned_messages(&self) -> (messages: &[MessageState])
        ensures
            messages@ == (if self.selected_channel_is_forum_spec() {
                Seq::empty()
            } else {
                match self.active_channel_id {
                    Some(c) => self.discord.pinned_messages_spec(c),
                    None => Seq::empty(),
                }
            }),
    {
        if self.selected_channel_is_forum() {
            return &[];
        }
        match self.active_channel_id {
            Some(c) => self.pinned_messages_of(c),
            None => &[],
        }
    }

    fn forum_post_count(&self) -> (n: usize)
        ensures
            n as nat == self.forum_post_ids().len() || (self.forum_post_ids().len() > usize::MAX
                && n == usize::MAX),
    {
        match self.active_channel_id {
            Some(c) => match find_index(&self.forum_post_lists, c) {
                Some(i) => self.forum_post_lists[i].active_post_ids.len().saturating_add(
                    self.forum_post_lists[i].archived_post_ids.len(),
                ),
                None => 0,
            },
            None => 0,
        }
    }

    /// The number of items of the message pane (saturating).
    pub open spec fn message_len_spec(self) -> nat {
        if self.message_item_count() > usize::MAX {
            usize::MAX as nat
        } else {
            self.message_item_count()
        }
    }

    pub fn message_pane_item_count(&self) -> (n: usize)
        ensures
            n == self.message_len_spec(),
    {
        if self.selected_channel_is_forum() {
            self.forum_post_count()
        } else {
            self.messages().len()
        }
    }

    /// The loaded members of the active guild.
    pub fn members(&self) -> (members: &[GuildMemberState])
        ensures
            members@ == self.members_spec(),
    {
        match self.active_guild {
            ActiveGuildScope::Guild(g) => match find_index(&self.discord.members, g) {
                Some(i) => self.discord.members[i].members.as_slice(),
                None => &[],
            },
            _ => &[],
        }
    }

    pub fn member_line_count(&self) -> (n: usize)
        ensures
            n as nat == self.member_line_count_spec() || (self.member_line_count_spec() > usize::MAX
                && n == usize::MAX),
    {
        let len = self.members().len();
        if len == 0 {
            0
        } else {
            len.saturating_add(1)
        }
    }

    fn selected_member_line(&self) -> (line: usize)
        ensures
            line as nat == self.selected_member_line_spec(),
    {
        let len = self.members().len();
        if len == 0 {
            0
        } else {
            clamp_selected_index(self.selected_member, len) + 1
        }
    }

    pub fn member_content_height(&self) -> (h: usize)
        ensures
            h == self.member_content_height_spec(),
    {
        pane_content_height(self.member_view_height)
    }

    fn message_content_height(&self) -> (h: usize)
        ensures
            h == self.message_content_height_spec(),
    {
        pane_content_height(self.message_view_height)
    }

    pub fn member_scroll(&self) -> (s: usize)
        ensures
            s == self.member_scroll,
    {
        self.member_scroll
    }

    pub fn guild_horizontal_scroll(&self) -> (s: usize)
        ensures
            s == self.guild_horizontal_scroll,
    {
        self.guild_horizontal_scroll
    }

    pub fn channel_horizontal_scroll(&self) -> (s: usize)
        ensures
            s == self.channel_horizontal_scroll,
    {
        self.channel_horizontal_scroll
    }

    pub fn member_horizontal_scroll(&self) -> (s: usize)
        ensures
            s == self.member_horizontal_scroll,
    {
        self.member_horizontal_scroll
    }

    pub fn message_line_scroll(&self) -> (s: usize)
        ensures
            s == self.message_line_scroll,
    {
        self.message_line_scroll
    }

    pub fn message_scroll(&self) -> (s: usize)
        ensures
            s == self.message_scroll,
    {
        self.message_scroll
    }

    pub fn message_view_height(&self) -> (h: usize)
        ensures
            h == self.message_view_height,
    {
        self.message_view_height
    }

    pub fn message_auto_follow(&self) -> (follow: bool)
        ensures
            follow == self.message_auto_follow,
    {
        self.message_auto_follow
    }

    pub fn new_messages_marker_message_id(&self) -> (id: Option<u64>)
        ensures
            id == self.new_messages_marker_message_id,
    {
        self.new_messages_marker_message_id
    }

    pub fn unread_divider_last_acked_id(&self) -> (id: Option<u64>)
        ensures
            id == self.unread_divider_last_acked_id,
    {
        self.unread_divider_last_acked_id
    }

    // -----------------------------------------------------------------------
    // Selections
    // -----------------------------------------------------------------------

    /// The selected message, kept inside the message pane's items.
    pub fn selected_message(&self) -> (i: usize)
        ensures
            i == clamp_index_spec(self.selected_message as nat, self.message_len_spec()),
    {
        clamp_selected_index(self.selected_message, self.message_pane_item_count())
    }

    /// The selected message, unless a forum is shown.
    pub fn selected_message_state(&self) -> (message: Option<&MessageState>)
        ensures
            match message {
                Some(m) => !self.selected_channel_is_forum_spec() && ({
                    let i = clamp_index_spec(self.selected_message as nat, self.message_len_spec());
                    i < self.messages_spec().len() && *m == self.messages_spec()[i as int]
                }),
                None => self.selected_channel_is_forum_spec() || self.messages_spec().len() == 0,
            },
    {
        if self.selected_channel_is_forum() {
            return None;
        }
        let messages = self.messages();
        let i = self.selected_message();
        if i < messages.len() {
            Some(&messages[i])
        } else {
            None
        }
    }

    /// The selected member, kept inside the member list.
    pub fn selected_member(&self) -> (i: usize)
        ensures
            i == clamp_index_spec(self.selected_member as nat, self.members_spec().len()),
    {
        clamp_selected_index(self.selected_member, self.members().len())
    }

    /// The row of the selected member relative to the top of the member pane, when the member
    /// pane has focus and the row is on screen.
    pub fn focused_member_selection_line(&self) -> (line: Option<usize>)
        ensures
            match line {
                Some(l) => self.focus == FocusPane::Members && self.members_spec().len() > 0
                    && self.member_scroll <= self.selected_member_line_spec() && l
                    == self.selected_member_line_spec() - self.member_scroll && l
                    < self.member_content_height_spec(),
                None => self.focus != FocusPane::Members || self.members_spec().len() == 0
                    || self.selected_member_line_spec() < self.member_scroll
                    || self.selected_member_line_spec() >= self.member_scroll
                    + self.member_content_height_spec(),
            },
    {
        if self.focus == FocusPane::Members && self.members().len() > 0 {
            let selected_line = self.selected_member_line();
            let height = self.member_content_height();
            if selected_line >= self.member_scroll && selected_line - self.member_scroll < height {
                Some(selected_line - self.member_scroll)
            } else {
                None
            }
        } else {
            None
        }
    }

    /// The position of the selected message relative to the top of the message pane, when the
    /// message pane has focus and the message is on screen.
    pub fn focused_message_selection(&self) -> (line: Option<usize>)
        ensures
            match line {
                Some(l) => self.focus == FocusPane::Messages && self.message_len_spec() > 0 && ({
                    let sel = clamp_index_spec(self.selected_message as nat, self.message_len_spec());
                    self.message_scroll <= sel && l == sel - self.message_scroll && l
                        < self.message_content_height_spec()
                }),
                None => self.focus != FocusPane::Messages || self.message_len_spec() == 0 || ({
                    let sel = clamp_index_spec(self.selected_message as nat, self.message_len_spec());
                    sel < self.message_scroll || sel >= self.message_scroll
                        + self.message_content_height_spec()
                }),
            },
    {
        let count = self.message_pane_item_count();
        if self.focus == FocusPane::Messages && count > 0 {
            let selected = self.selected_message();
            let height = self.message_content_height();
            if selected >= self.message_scroll && selected - self.message_scroll < height {
                Some(selected - self.message_scroll)
            } else {
                None
            }
        } else {
            None
        }
    }

    /// The messages on screen: those from the scroll offset on, as many as the pane shows.
    pub open spec fn visible_messages_spec(self) -> Seq<MessageState> {
        if self.message_scroll >= self.messages_spec().len() {
            Seq::empty()
        } else if self.messages_spec().len() - self.message_scroll
            <= self.message_content_height_spec() {
            self.messages_spec().skip(self.message_scroll as int)
        } else {
            self.messages_spec().subrange(
                self.message_scroll as int,
                self.message_scroll + self.message_content_height_spec(),
            )
        }
    }

    /// The messages on screen: those from the scroll offset on, as many as the pane shows.
    pub fn visible_messages(&self) -> (visible: &[MessageState])
        ensures
            visible@ == self.visible_messages_spec(),
    {
        let messages = self.messages();
        let height = self.message_content_height();
        if self.message_scroll >= messages.len() {
            return &[];
        }
        let end = if messages.len() - self.message_scroll <= height {
            messages.len()
        } else {
            self.message_scroll + height
        };
        let visible = vstd::slice::slice_subrange(messages, self.message_scroll, end);
        proof {
            if messages.len() - self.message_scroll <= height {
                assert(messages@.subrange(self.message_scroll as int, messages@.len() as int)
                    =~= messages@.skip(self.message_scroll as int));
            }
        }
        visible
    }
}

/// The message pane's selection, scroll offset and row offset once kept inside its items:
/// every item takes one row, the selection stays on screen, and the row offset is dropped
/// unless the selection is the top item.
pub open spec fn message_clamp_spec(sel: nat, scroll: nat, line: nat, len: nat, height: nat, forum: bool) -> (
    nat,
    nat,
    nat,
) {
    if len == 0 {
        (0, 0, 0)
    } else {
        let sel1 = clamp_index_spec(sel, len);
        let scroll1 = clamp_index_spec(scroll, len);
        let scroll2 = clamp_list_scroll_spec(sel1, scroll1, height, len, true);
        if forum {
            (sel1, scroll2, 0)
        } else {
            (sel1, scroll2, if scroll2 != sel1 {
                0
            } else {
                line
            })
        }
    }
}

impl DashboardState {
    // -----------------------------------------------------------------------
    // Keeping selections and viewports in range
    // -----------------------------------------------------------------------

    /// Whether the cursor is on the latest message (true for an empty list; never in a forum
    /// or the pinned view).
    pub open spec fn cursor_on_last_spec(self) -> bool {
        if self.selected_channel_is_forum_spec() || self.pinned_view_active_spec() {
            false
        } else if self.messages_spec().len() == 0 {
            true
        } else {
            self.selected_message >= self.messages_spec().len() - 1
        }
    }

    /// Whether the screen shows the latest message (true for an empty list; never in a forum
    /// or the pinned view).
    pub open spec fn viewport_at_latest_spec(self) -> bool {
        if self.selected_channel_is_forum_spec() || self.pinned_view_active_spec() {
            false
        } else if self.messages_spec().len() == 0 {
            true
        } else {
            self.message_scroll + self.message_content_height_spec() >= self.messages_spec().len()
        }
    }

    pub(crate) fn cursor_on_last_message(&self) -> (r: bool)
        ensures
            r == self.cursor_on_last_spec(),
    {
        if self.selected_channel_is_forum() || self.pinned_view_active() {
            return false;
        }
        let len = self.messages().len();
        if len == 0 {
            return true;
        }
        self.selected_message >= len - 1
    }

    pub(crate) fn is_viewport_at_latest_message(&self) -> (r: bool)
        ensures
            r == self.viewport_at_latest_spec(),
    {
        if self.selected_channel_is_forum() || self.pinned_view_active() {
            return false;
        }
        let len = self.messages().len();
        if len == 0 {
            return true;
        }
        let height = self.message_content_height();
        self.message_scroll >= len || height >= len - self.message_scroll
    }

    /// Follows new messages exactly when the cursor is on the latest message and it is on
    /// screen; catching up retires the new-messages marker and the unread divider.
    pub(crate) fn refresh_message_auto_follow(&mut self)
        ensures
            final(self).current_user == old(self).current_user,
            final(self).current_user_id == old(self).current_user_id,
            final(self).last_status == old(self).last_status,
            final(self).pending_commands == old(self).pending_commands,
            final(self).older_history_requests == old(self).older_history_requests,
            final(self).composer == old(self).composer,
            final(self).active_guild == old(self).active_guild,
            final(self).message_auto_follow == (old(self).cursor_on_last_spec()
                && old(self).viewport_at_latest_spec()),
            final(self).message_auto_follow ==> final(self).new_messages_marker_message_id is None
                && final(self).unread_divider_last_acked_id is None
                && !final(self).pending_unread_anchor_scroll,
            !final(self).message_auto_follow ==> final(self).new_messages_marker_message_id == old(self).new_messages_marker_message_id && final(self).unread_divider_last_acked_id == old(self).unread_divider_last_acked_id && final(self).pending_unread_anchor_scroll == old(self).pending_unread_anchor_scroll,
            final(self).discord == old(self).discord,
            final(self).active_channel_id == old(self).active_channel_id,
            final(self).selected_message == old(self).selected_message,
            final(self).message_scroll == old(self).message_scroll,
            final(self).message_line_scroll == old(self).message_line_scroll,
            final(self).pinned_message_view_channel_id == old(self).pinned_message_view_channel_id,
            final(self).focus == old(self).focus,
            final(self).message_keep_selection_visible == old(self).message_keep_selection_visible,
            final(self).same_content(*old(self)),
            *final(self) == (DashboardState { message_auto_follow: final(self).message_auto_follow, new_messages_marker_message_id: final(self).new_messages_marker_message_id, unread_divider_last_acked_id: final(self).unread_divider_last_acked_id, pending_unread_anchor_scroll: final(self).pending_unread_anchor_scroll, ..*old(self) }),
    {
        self.message_auto_follow = self.cursor_on_last_message() && self.is_viewport_at_latest_message();
        if self.message_auto_follow {
            self.new_messages_marker_message_id = None;
            self.unread_divider_last_acked_id = None;
            self.pending_unread_anchor_scroll = false;
        }
    }

    /// Keeps the message selection and viewport inside the message pane's items.
    pub(crate) fn clamp_message_viewport(&mut self)
        ensures
            final(self).current_user == old(self).current_user,
            final(self).current_user_id == old(self).current_user_id,
            final(self).last_status == old(self).last_status,
            final(self).pending_commands == old(self).pending_commands,
            final(self).older_history_requests == old(self).older_history_requests,
            final(self).composer == old(self).composer,
            final(self).active_guild == old(self).active_guild,
            ({
                let (sel, scroll, line) = message_clamp_spec(
                    old(self).selected_message as nat,
                    old(self).message_scroll as nat,
                    old(self).message_line_scroll as nat,
                    old(self).message_len_spec(),
                    old(self).message_content_height_spec(),
                    old(self).selected_channel_is_forum_spec(),
                );
                final(self).selected_message == sel && final(self).message_scroll == scroll
                    && final(self).message_line_scroll == line
            }),
            final(self).pinned_message_view_return_target == old(self).pinned_message_view_return_target,
            final(self).older_history_requests == old(self).older_history_requests,
            final(self).composer == old(self).composer,
            final(self).discord == old(self).discord,
            final(self).active_channel_id == old(self).active_channel_id,
            final(self).pinned_message_view_channel_id == old(self).pinned_message_view_channel_id,
            final(self).forum_post_lists == old(self).forum_post_lists,
            final(self).message_view_height == old(self).message_view_height,
            final(self).message_auto_follow == old(self).message_auto_follow,
            final(self).message_keep_selection_visible == old(self).message_keep_selection_visible,
            final(self).new_messages_marker_message_id == old(self).new_messages_marker_message_id,
            final(self).unread_divider_last_acked_id == old(self).unread_divider_last_acked_id,
            final(self).pending_unread_anchor_scroll == old(self).pending_unread_anchor_scroll,
            final(self).focus == old(self).focus,
            final(self).active_guild == old(self).active_guild,
            final(self).same_content(*old(self)),
            *final(self) == (DashboardState { selected_message: final(self).selected_message, message_scroll: final(self).message_scroll, message_line_scroll: final(self).message_line_scroll, ..*old(self) }),
    {
        let len = self.message_pane_item_count();
        if len == 0 {
            self.selected_message = 0;
            self.message_scroll = 0;
            self.message_line_scroll = 0;
            return;
        }
        let forum = self.selected_channel_is_forum();
        let height = self.message_content_height();
        self.selected_message = clamp_selected_index(self.selected_message, len);
        let mut scroll = clamp_selected_index(self.message_scroll, len);
        clamp_list_viewport(self.selected_message, &mut scroll, height, len, true);
        self.message_scroll = scroll;
        if forum || self.message_scroll != self.selected_message {
            self.message_line_scroll = 0;
        }
    }

    fn clamp_guild_viewport(&mut self)
        ensures
            final(self).same_message_view(*old(self)),
            final(self).selected_guild == clamp_index_spec(
                old(self).selected_guild as nat,
                old(self).guild_len_spec(),
            ),
            final(self).guild_scroll == clamp_list_scroll_spec(
                final(self).selected_guild as nat,
                old(self).guild_scroll as nat,
                pane_content_height_spec(old(self).guild_view_height as nat),
                old(self).guild_len_spec(),
                old(self).guild_keep_selection_visible,
            ),
            final(self).discord == old(self).discord,
            final(self).focus == old(self).focus,
            final(self).guild_keep_selection_visible == old(self).guild_keep_selection_visible,
            final(self).guild_view_height == old(self).guild_view_height,
            final(self).same_content(*old(self)),
            final(self).selected_channel == old(self).selected_channel,
            final(self).channel_scroll == old(self).channel_scroll,
            final(self).channel_keep_selection_visible == old(self).channel_keep_selection_visible,
            final(self).selected_member == old(self).selected_member,
            final(self).member_scroll == old(self).member_scroll,
            final(self).member_keep_selection_visible == old(self).member_keep_selection_visible,
            *final(self) == (DashboardState { selected_guild: final(self).selected_guild, guild_scroll: final(self).guild_scroll, ..*old(self) }),
    {
        let len = self.guild_entry_count();
        self.selected_guild = clamp_selected_index(self.selected_guild, len);
        let height = pane_content_height(self.guild_view_height);
        clamp_list_viewport(
            self.selected_guild,
            &mut self.guild_scroll,
            height,
            len,
            self.guild_keep_selection_visible,
        );
    }

    fn clamp_channel_viewport(&mut self)
        ensures
            final(self).same_message_view(*old(self)),
            final(self).selected_channel == clamp_index_spec(
                old(self).selected_channel as nat,
                old(self).channel_entries().len(),
            ),
            final(self).channel_scroll == clamp_list_scroll_spec(
                final(self).selected_channel as nat,
                old(self).channel_scroll as nat,
                pane_content_height_spec(old(self).channel_view_height as nat),
                old(self).channel_entries().len(),
                old(self).channel_keep_selection_visible,
            ),
            final(self).discord == old(self).discord,
            final(self).active_guild == old(self).active_guild,
            final(self).focus == old(self).focus,
            final(self).channel_keep_selection_visible == old(self).channel_keep_selection_visible,
            final(self).channel_view_height == old(self).channel_view_height,
            final(self).same_content(*old(self)),
            final(self).selected_guild == old(self).selected_guild,
            final(self).guild_scroll == old(self).guild_scroll,
            final(self).guild_keep_selection_visible == old(self).guild_keep_selection_visible,
            final(self).selected_member == old(self).selected_member,
            final(self).member_scroll == old(self).member_scroll,
            final(self).member_keep_selection_visible == old(self).member_keep_selection_visible,
            *final(self) == (DashboardState { selected_channel: final(self).selected_channel, channel_scroll: final(self).channel_scroll, ..*old(self) }),
    {
        let len = self.channel_entry_count();
        self.selected_channel = clamp_selected_index(self.selected_channel, len);
        let height = pane_content_height(self.channel_view_height);
        clamp_list_viewport(
            self.selected_channel,
            &mut self.channel_scroll,
            height,
            len,
            self.channel_keep_selection_visible,
        );
    }

    fn clamp_member_viewport(&mut self)
        ensures
            final(self).same_message_view(*old(self)),
            final(self).selected_member == clamp_index_spec(
                old(self).selected_member as nat,
                old(self).members_spec().len(),
            ),
            old(self).members_spec().len() == 0 ==> final(self).member_scroll == 0,
            old(self).members_spec().len() > 0 && old(self).members_spec().len() < usize::MAX ==> final(self).member_scroll == clamp_list_scroll_spec(
                final(self).selected_member as nat + 1,
                old(self).member_scroll as nat,
                pane_content_height_spec(old(self).member_view_height as nat),
                old(self).member_line_count_spec(),
                old(self).member_keep_selection_visible,
            ),
            final(self).discord == old(self).discord,
            final(self).active_guild == old(self).active_guild,
            final(self).focus == old(self).focus,
            final(self).member_keep_selection_visible == old(self).member_keep_selection_visible,
            final(self).member_view_height == old(self).member_view_height,
            final(self).same_content(*old(self)),
            final(self).selected_guild == old(self).selected_guild,
            final(self).guild_scroll == old(self).guild_scroll,
            final(self).guild_keep_selection_visible == old(self).guild_keep_selection_visible,
            final(self).selected_channel == old(self).selected_channel,
            final(self).channel_scroll == old(self).channel_scroll,
            final(self).channel_keep_selection_visible == old(self).channel_keep_selection_visible,
            *final(self) == (DashboardState { selected_member: final(self).selected_member, member_scroll: final(self).member_scroll, ..*old(self) }),
    {
        let len = self.members().len();
        if len == 0 {
            self.selected_member = 0;
            self.member_scroll = 0;
            return;
        }
        self.selected_member = clamp_selected_index(self.selected_member, len);
        let line = self.selected_member + 1;
        let height = pane_content_height(self.member_view_height);
        let lines = self.member_line_count();
        clamp_list_viewport(line, &mut self.member_scroll, height, lines, self.member_keep_selection_visible);
    }

    /// Brings the guild, channel and member panes back in range: each selection is clamped to
    /// its list and each scroll offset to the list and the pane's height, keeping the
    /// selection in view where the pane asks for that.
    pub(crate) fn clamp_list_viewports(&mut self)
        ensures
            final(self).same_message_view(*old(self)),
            final(self).discord == old(self).discord,
            final(self).active_guild == old(self).active_guild,
            final(self).focus == old(self).focus,
            final(self).same_content(*old(self)),
            final(self).selected_guild == clamp_index_spec(
                old(self).selected_guild as nat,
                old(self).guild_len_spec(),
            ),
            final(self).guild_scroll == clamp_list_scroll_spec(
                final(self).selected_guild as nat,
                old(self).guild_scroll as nat,
                pane_content_height_spec(old(self).guild_view_height as nat),
                old(self).guild_len_spec(),
                old(self).guild_keep_selection_visible,
            ),
            final(self).selected_channel == clamp_index_spec(
                old(self).selected_channel as nat,
                old(self).channel_entries().len(),
            ),
            final(self).channel_scroll == clamp_list_scroll_spec(
                final(self).selected_channel as nat,
                old(self).channel_scroll as nat,
                pane_content_height_spec(old(self).channel_view_height as nat),
                old(self).channel_entries().len(),
                old(self).channel_keep_selection_visible,
            ),
            final(self).selected_member == clamp_index_spec(
                old(self).selected_member as nat,
                old(self).members_spec().len(),
            ),
            old(self).members_spec().len() == 0 ==> final(self).member_scroll == 0,
            old(self).members_spec().len() > 0 && old(self).members_spec().len() < usize::MAX
                ==> final(self).member_scroll == clamp_list_scroll_spec(
                final(self).selected_member as nat + 1,
                old(self).member_scroll as nat,
                pane_content_height_spec(old(self).member_view_height as nat),
                old(self).member_line_count_spec(),
                old(self).member_keep_selection_visible,
            ),
            final(self).guild_keep_selection_visible == old(self).guild_keep_selection_visible,
            final(self).channel_keep_selection_visible == old(self).channel_keep_selection_visible,
            final(self).member_keep_selection_visible == old(self).member_keep_selection_visible,
    {
        self.clamp_guild_viewport();
        self.clamp_channel_viewport();
        self.clamp_member_viewport();
    }

    /// Sets the height of the message pane and keeps its viewport in range.
    pub fn set_message_view_height(&mut self, height: usize)
        ensures
            final(self).message_view_height == height,
            ({
                let (sel, scroll, line) = message_clamp_spec(
                    old(self).selected_message as nat,
                    old(self).message_scroll as nat,
                    old(self).message_line_scroll as nat,
                    old(self).message_len_spec(),
                    pane_content_height_spec(height as nat),
                    old(self).selected_channel_is_forum_spec(),
                );
                final(self).selected_message == sel && final(self).message_scroll == scroll
                    && final(self).message_line_scroll == line
            }),
    {
        self.message_view_height = height;
        self.clamp_message_viewport();
    }

    /// Sets the height of the member pane and keeps its viewport in range.
    pub fn set_member_view_height(&mut self, height: usize)
        ensures
            final(self).member_view_height == height,
            final(self).selected_member == old(self).selected_member,
            final(self).member_scroll == clamp_list_scroll_spec(
                old(self).selected_member_line_spec(),
                old(self).member_scroll as nat,
                pane_content_height_spec(height as nat),
                if old(self).member_line_count_spec() > usize::MAX {
                    usize::MAX as nat
                } else {
                    old(self).member_line_count_spec()
                },
                old(self).member_keep_selection_visible,
            ),
    {
        self.member_view_height = height;
        let selected_line = self.selected_member_line();
        let height = pane_content_height(self.member_view_height);
        let len = self.member_line_count();
        clamp_list_viewport(
            selected_line,
            &mut self.member_scroll,
            height,
            len,
            self.member_keep_selection_visible,
        );
    }

    // -----------------------------------------------------------------------
    // Moving the selection
    // -----------------------------------------------------------------------

    /// Only the focused pane's selection and scroll may differ from `old`: the other panes'
    /// selections and scroll offsets, and what the dashboard shows, are as they were.
    pub open spec fn keeps_unfocused_panes(self, old: DashboardState) -> bool {
        &&& self.same_content(old)
        &&& old.focus != FocusPane::Guilds ==> self.selected_guild == old.selected_guild
            && self.guild_scroll == old.guild_scroll
        &&& old.focus != FocusPane::Channels ==> self.selected_channel == old.selected_channel
            && self.channel_scroll == old.channel_scroll
        &&& old.focus != FocusPane::Messages ==> self.same_message_view(old)
        &&& old.focus != FocusPane::Members ==> self.selected_member == old.selected_member
            && self.member_scroll == old.member_scroll
        &&& self.guild_horizontal_scroll == old.guild_horizontal_scroll
        &&& self.channel_horizontal_scroll == old.channel_horizontal_scroll
        &&& self.member_horizontal_scroll == old.member_horizontal_scroll
        &&& self.composer == old.composer
    }

    /// Moves the selection of the focused pane one item down.
    #[verifier::rlimit(40)]
    pub fn move_down(&mut self)
        ensures
            old(self).focus == FocusPane::Messages ==> final(self).message_auto_follow == (
            final(self).cursor_on_last_spec() && final(self).viewport_at_latest_spec()),
            final(self).keeps_unfocused_panes(*old(self)),
            final(self).focus == old(self).focus,
            final(self).discord == old(self).discord,
            old(self).focus == FocusPane::Guilds ==> final(self).selected_guild == move_down_spec(
                old(self).selected_guild as nat,
                old(self).guild_len_spec(),
            ) && final(self).guild_keep_selection_visible,
            old(self).focus == FocusPane::Channels ==> final(self).selected_channel == move_down_spec(
                old(self).selected_channel as nat,
                old(self).channel_entries().len(),
            ) && final(self).channel_keep_selection_visible,
            old(self).focus == FocusPane::Messages ==> final(self).selected_message == move_down_spec(
                old(self).selected_message as nat,
                old(self).message_len_spec(),
            ) && final(self).message_keep_selection_visible,
            old(self).focus == FocusPane::Members ==> final(self).selected_member == move_down_spec(
                old(self).selected_member as nat,
                old(self).members_spec().len(),
            ) && final(self).member_keep_selection_visible,
    {
        match self.focus {
            FocusPane::Guilds => {
                let len = self.guild_entry_count();
                move_index_down(&mut self.selected_guild, len);
                self.guild_keep_selection_visible = true;
                self.clamp_guild_viewport();
            },
            FocusPane::Channels => {
                let len = self.channel_entry_count();
                move_index_down(&mut self.selected_channel, len);
                self.channel_keep_selection_visible = true;
                self.clamp_channel_viewport();
            },
            FocusPane::Messages => {
                let len = self.message_pane_item_count();
                move_index_down(&mut self.selected_message, len);
                self.message_keep_selection_visible = true;
                self.clamp_message_viewport();
                let ghost sel = self.selected_message;
                let ghost before_refresh = *self;
                self.refresh_message_auto_follow();
                assert(self.cursor_on_last_spec() == before_refresh.cursor_on_last_spec());
                assert(self.viewport_at_latest_spec() == before_refresh.viewport_at_latest_spec());
                assert(self.selected_message == sel);
            },
            FocusPane::Members => {
                let len = self.members().len();
                move_index_down(&mut self.selected_member, len);
                self.member_keep_selection_visible = true;
                self.clamp_member_viewport();
            },
        }
    }

    /// Moves the selection of the focused pane one item up.
    #[verifier::rlimit(40)]
    pub fn move_up(&mut self)
        ensures
            old(self).focus == FocusPane::Messages ==> final(self).message_auto_follow == (
            final(self).cursor_on_last_spec() && final(self).viewport_at_latest_spec()),
            final(self).keeps_unfocused_panes(*old(self)),
            final(self).focus == old(self).focus,
            final(self).discord == old(self).discord,
            old(self).focus == FocusPane::Guilds ==> final(self).selected_guild == clamp_index_spec(
                (if old(self).selected_guild == 0 {
                    0
                } else {
                    old(self).selected_guild - 1
                }) as nat,
                old(self).guild_len_spec(),
            ) && final(self).guild_keep_selection_visible,
            old(self).focus == FocusPane::Channels ==> final(self).selected_channel
                == clamp_index_spec(
                (if old(self).selected_channel == 0 {
                    0
                } else {
                    old(self).selected_channel - 1
                }) as nat,
                old(self).channel_entries().len(),
            ) && final(self).channel_keep_selection_visible,
            old(self).focus == FocusPane::Messages ==> final(self).selected_message
                == clamp_index_spec(
                (if old(self).selected_message == 0 {
                    0
                } else {
                    old(self).selected_message - 1
                }) as nat,
                old(self).message_len_spec(),
            ) && final(self).message_keep_selection_visible,
            old(self).focus == FocusPane::Members ==> final(self).selected_member == clamp_index_spec(
                (if old(self).selected_member == 0 {
                    0
                } else {
                    old(self).selected_member - 1
                }) as nat,
                old(self).members_spec().len(),
            ) && final(self).member_keep_selection_visible,
    {
        match self.focus {
            FocusPane::Guilds => {
                move_index_up(&mut self.selected_guild);
                self.guild_keep_selection_visible = true;
                self.clamp_guild_viewport();
            },
            FocusPane::Channels => {
                move_index_up(&mut self.selected_channel);
                self.channel_keep_selection_visible = true;
                self.clamp_channel_viewport();
            },
            FocusPane::Messages => {
                move_index_up(&mut self.selected_message);
                self.message_keep_selection_visible = true;
                self.clamp_message_viewport();
                let ghost sel = self.selected_message;
                let ghost before_refresh = *self;
                self.refresh_message_auto_follow();
                assert(self.cursor_on_last_spec() == before_refresh.cursor_on_last_spec());
                assert(self.viewport_at_latest_spec() == before_refresh.viewport_at_latest_spec());
                assert(self.selected_message == sel);
            },
            FocusPane::Members => {
                move_index_up(&mut self.selected_member);
                self.member_keep_selection_visible = true;
                self.clamp_member_viewport();
            },
        }
    }

    /// Selects the first item of the focused pane.
    #[verifier::rlimit(40)]
    pub fn jump_top(&mut self)
        ensures
            old(self).focus == FocusPane::Messages ==> final(self).message_auto_follow == (
            final(self).cursor_on_last_spec() && final(self).viewport_at_latest_spec()),
            final(self).keeps_unfocused_panes(*old(self)),
            final(self).focus == old(self).focus,
            final(self).discord == old(self).discord,
            old(self).focus == FocusPane::Guilds ==> final(self).selected_guild == 0
                && final(self).guild_scroll == 0,
            old(self).focus == FocusPane::Channels ==> final(self).selected_channel == 0
                && final(self).channel_scroll == 0,
            old(self).focus == FocusPane::Messages ==> final(self).selected_message == 0
                && final(self).message_scroll == 0,
            old(self).focus == FocusPane::Members ==> final(self).selected_member == 0,
    {
        match self.focus {
            FocusPane::Guilds => {
                self.selected_guild = 0;
                self.guild_keep_selection_visible = true;
                self.clamp_guild_viewport();
            },
            FocusPane::Channels => {
                self.selected_channel = 0;
                self.channel_keep_selection_visible = true;
                self.clamp_channel_viewport();
            },
            FocusPane::Messages => {
                self.selected_message = 0;
                self.message_keep_selection_visible = true;
                self.clamp_message_viewport();
                let ghost (sel, scroll) = (self.selected_message, self.message_scroll);
                let ghost before_refresh = *self;
                self.refresh_message_auto_follow();
                assert(self.cursor_on_last_spec() == before_refresh.cursor_on_last_spec());
                assert(self.viewport_at_latest_spec() == before_refresh.viewport_at_latest_spec());
                assert(self.selected_message == sel && self.message_scroll == scroll);
            },
            FocusPane::Members => {
                self.selected_member = 0;
                self.member_keep_selection_visible = true;
                self.clamp_member_viewport();
            },
        }
    }

    /// Selects the last item of the focused pane.
    #[verifier::rlimit(40)]
    pub fn jump_bottom(&mut self)
        ensures
            old(self).focus == FocusPane::Messages ==> final(self).message_auto_follow == (
            final(self).cursor_on_last_spec() && final(self).viewport_at_latest_spec()),
            final(self).keeps_unfocused_panes(*old(self)),
            final(self).focus == old(self).focus,
            final(self).discord == old(self).discord,
            old(self).focus == FocusPane::Guilds ==> final(self).selected_guild == last_index_spec(
                old(self).guild_len_spec(),
            ),
            old(self).focus == FocusPane::Channels ==> final(self).selected_channel
                == last_index_spec(old(self).channel_entries().len()),
            old(self).focus == FocusPane::Messages ==> final(self).selected_message
                == last_index_spec(old(self).message_len_spec()),
            old(self).focus == FocusPane::Members ==> final(self).selected_member == last_index_spec(
                old(self).members_spec().len(),
            ),
    {
        match self.focus {
            FocusPane::Guilds => {
                self.selected_guild = last_index(self.guild_entry_count());
                self.guild_keep_selection_visible = true;
                self.clamp_guild_viewport();
            },
            FocusPane::Channels => {
                self.selected_channel = last_index(self.channel_entry_count());
                self.channel_keep_selection_visible = true;
                self.clamp_channel_viewport();
            },
            FocusPane::Messages => {
                self.selected_message = last_index(self.message_pane_item_count());
                self.message_keep_selection_visible = true;
                self.clamp_message_viewport();
                let ghost sel = self.selected_message;
                let ghost before_refresh = *self;
                self.refresh_message_auto_follow();
                assert(self.cursor_on_last_spec() == before_refresh.cursor_on_last_spec());
                assert(self.viewport_at_latest_spec() == before_refresh.viewport_at_latest_spec());
                assert(self.selected_message == sel);
            },
            FocusPane::Members => {
                self.selected_member = last_index(self.members().len());
                self.member_keep_selection_visible = true;
                self.clamp_member_viewport();
            },
        }
    }

    /// Moves the selection of the focused pane half a page down (at least one item).
    #[verifier::rlimit(40)]
    pub fn half_page_down(&mut self)
        ensures
            old(self).focus == FocusPane::Messages ==> final(self).message_auto_follow == (
            final(self).cursor_on_last_spec() && final(self).viewport_at_latest_spec()),
            final(self).keeps_unfocused_panes(*old(self)),
            final(self).focus == old(self).focus,
            final(self).discord == old(self).discord,
            old(self).focus == FocusPane::Guilds ==> final(self).selected_guild == clamp_index_spec(
                old(self).selected_guild as nat + half_page(
                    pane_content_height_spec(old(self).guild_view_height as nat),
                ),
                old(self).guild_len_spec(),
            ),
            old(self).focus == FocusPane::Channels ==> final(self).selected_channel
                == clamp_index_spec(
                old(self).selected_channel as nat + half_page(
                    pane_content_height_spec(old(self).channel_view_height as nat),
                ),
                old(self).channel_entries().len(),
            ),
            old(self).focus == FocusPane::Messages ==> final(self).selected_message
                == clamp_index_spec(
                old(self).selected_message as nat + half_page(
                    old(self).message_content_height_spec(),
                ),
                old(self).message_len_spec(),
            ),
            old(self).focus == FocusPane::Members ==> final(self).selected_member == clamp_index_spec(
                old(self).selected_member as nat + half_page(old(self).member_content_height_spec()),
                old(self).members_spec().len(),
            ),
    {
        match self.focus {
            FocusPane::Guilds => {
                let distance = half_page_exec(pane_content_height(self.guild_view_height));
                let len = self.guild_entry_count();
                move_index_down_by(&mut self.selected_guild, len, distance);
                self.guild_keep_selection_visible = true;
                self.clamp_guild_viewport();
            },
            FocusPane::Channels => {
                let distance = half_page_exec(pane_content_height(self.channel_view_height));
                let len = self.channel_entry_count();
                move_index_down_by(&mut self.selected_channel, len, distance);
                self.channel_keep_selection_visible = true;
                self.clamp_channel_viewport();
            },
            FocusPane::Messages => {
                let distance = half_page_exec(self.message_content_height());
                let len = self.message_pane_item_count();
                move_index_down_by(&mut self.selected_message, len, distance);
                self.message_keep_selection_visible = true;
                self.clamp_message_viewport();
                let ghost sel = self.selected_message;
                let ghost before_refresh = *self;
                self.refresh_message_auto_follow();
                assert(self.cursor_on_last_spec() == before_refresh.cursor_on_last_spec());
                assert(self.viewport_at_latest_spec() == before_refresh.viewport_at_latest_spec());
                assert(self.selected_message == sel);
            },
            FocusPane::Members => {
                let distance = half_page_exec(pane_content_height(self.member_view_height));
                let len = self.members().len();
                move_index_down_by(&mut self.selected_member, len, distance);
                self.member_keep_selection_visible = true;
                self.clamp_member_viewport();
            },
        }
    }

    /// Moves the selection of the focused pane half a page up (at least one item).
    #[verifier::rlimit(40)]
    pub fn half_page_up(&mut self)
        ensures
            old(self).focus == FocusPane::Messages ==> final(self).message_auto_follow == (
            final(self).cursor_on_last_spec() && final(self).viewport_at_latest_spec()),
            final(self).keeps_unfocused_panes(*old(self)),
            final(self).focus == old(self).focus,
            final(self).discord == old(self).discord,
            old(self).focus == FocusPane::Guilds ==> final(self).selected_guild == clamp_index_spec(
                sub_floor(old(self).selected_guild as nat, half_page(
                    pane_content_height_spec(old(self).guild_view_height as nat),
                )),
                old(self).guild_len_spec(),
            ),
            old(self).focus == FocusPane::Channels ==> final(self).selected_channel
                == clamp_index_spec(
                sub_floor(old(self).selected_channel as nat, half_page(
                    pane_content_height_spec(old(self).channel_view_height as nat),
                )),
                old(self).channel_entries().len(),
            ),
            old(self).focus == FocusPane::Messages ==> final(self).selected_message
                == clamp_index_spec(
                sub_floor(old(self).selected_message as nat, half_page(
                    old(self).message_content_height_spec(),
                )),
                old(self).message_len_spec(),
            ),
            old(self).focus == FocusPane::Members ==> final(self).selected_member == clamp_index_spec(
                sub_floor(old(self).selected_member as nat, half_page(
                    old(self).member_content_height_spec(),
                )),
                old(self).members_spec().len(),
            ),
    {
        match self.focus {
            FocusPane::Guilds => {
                let distance = half_page_exec(pane_content_height(self.guild_view_height));
                move_index_up_by(&mut self.selected_guild, distance);
                self.guild_keep_selection_visible = true;
                self.clamp_guild_viewport();
            },
            FocusPane::Channels => {
                let distance = half_page_exec(pane_content_height(self.channel_view_height));
                move_index_up_by(&mut self.selected_channel, distance);
                self.channel_keep_selection_visible = true;
                self.clamp_channel_viewport();
            },
            FocusPane::Messages => {
                let distance = half_page_exec(self.message_content_height());
                move_index_up_by(&mut self.selected_message, distance);
                self.message_keep_selection_visible = true;
                self.clamp_message_viewport();
                let ghost sel = self.selected_message;
                let ghost before_refresh = *self;
                self.refresh_message_auto_follow();
                assert(self.cursor_on_last_spec() == before_refresh.cursor_on_last_spec());
                assert(self.viewport_at_latest_spec() == before_refresh.viewport_at_latest_spec());
                assert(self.selected_message == sel);
            },
            FocusPane::Members => {
                let distance = half_page_exec(pane_content_height(self.member_view_height));
                move_index_up_by(&mut self.selected_member, distance);
                self.member_keep_selection_visible = true;
                self.clamp_member_viewport();
            },
        }
    }
}

/// Half a page of a pane `height` rows high, at least one item.
pub open spec fn half_page(height: nat) -> nat {
    if height / 2 == 0 {
        1
    } else {
        height / 2
    }
}

/// Half a page is at least one row and, on a pane of two rows or more, half its rows rounded
/// down: twice it is at most the pane's height and more than the height less two.
pub proof fn lemma_half_page_is_half_the_pane(height: nat)
    ensures
        half_page(height) >= 1,
        height >= 2 ==> 2 * half_page(height) <= height && height < 2 * half_page(height) + 2,
        height < 2 ==> half_page(height) == 1,
{
}

/// `a - b`, or zero when `b` is larger.
pub open spec fn sub_floor(a: nat, b: nat) -> nat {
    if a >= b {
        (a - b) as nat
    } else {
        0
    }
}

fn half_page_exec(height: usize) -> (d: usize)
    ensures
        d == half_page(height as nat),
{
    let half = height / 2;
    if half == 0 {
        1
    } else {
        half
    }
}

/// The scroll offset that puts the last of `len` one-row items at the bottom of a pane
/// `height` rows high (0 when everything fits).
pub open spec fn bottom_scroll(len: nat, height: nat) -> nat {
    if len > height {
        (len - height) as nat
    } else {
        0
    }
}

impl DashboardState {
    // -----------------------------------------------------------------------
    // Scrolling without moving the selection
    // -----------------------------------------------------------------------

    /// The message pane has been laid out at least once (a content width is recorded).
    pub open spec fn message_laid_out(self) -> bool {
        self.message_content_width != usize::MAX
    }

    /// What `scroll_message_viewport_down` leaves: `fin` from this dashboard.
    pub open spec fn message_viewport_scrolled_down(self, fin: DashboardState) -> bool {
        &&& (self.focus != FocusPane::Messages || !self.message_laid_out() ==> fin == self)
        &&& (self.focus == FocusPane::Messages && self.message_laid_out() ==> !fin.message_auto_follow
            && !fin.message_keep_selection_visible && fin.message_scroll == move_down_spec(
            self.message_scroll as nat,
            if self.selected_channel_is_forum_spec() {
                self.message_len_spec()
            } else {
                self.messages_spec().len()
            },
        ) && fin.selected_message == self.selected_message)
        &&& (self.focus == FocusPane::Messages && self.message_laid_out()
            && !self.selected_channel_is_forum_spec()
            ==> fin.message_line_scroll == 0 && (fin.viewport_at_latest_spec()
            ==> fin.new_messages_marker_message_id is None))
        &&& fin.same_content(self)
    }

    /// What `scroll_message_viewport_up` leaves: `fin` from this dashboard.
    pub open spec fn message_viewport_scrolled_up(self, fin: DashboardState) -> bool {
        &&& (self.focus != FocusPane::Messages || !self.message_laid_out() ==> fin == self)
        &&& (self.focus == FocusPane::Messages && self.message_laid_out() ==> !fin.message_auto_follow
            && !fin.message_keep_selection_visible && fin.selected_message == self.selected_message)
        &&& (self.focus == FocusPane::Messages && self.message_laid_out() && (self.selected_channel_is_forum_spec()
            || self.message_line_scroll == 0) ==> fin.message_scroll == (if self.message_scroll == 0 {
            0
        } else {
            (self.message_scroll - 1) as usize
        }))
        &&& (self.focus == FocusPane::Messages && self.message_laid_out()
            && !self.selected_channel_is_forum_spec()
            && self.message_line_scroll > 0 ==> fin.message_scroll == self.message_scroll)
        &&& (self.focus == FocusPane::Messages && self.message_laid_out()
            && !self.selected_channel_is_forum_spec() ==> fin.message_line_scroll == 0)
        &&& fin.same_content(self)
    }

    /// What `scroll_focused_pane_viewport_down` leaves: `fin` from this dashboard.
    pub open spec fn pane_scrolled_down(self, fin: DashboardState) -> bool {
        &&& (fin.same_content(self))
        &&& (self.focus == FocusPane::Guilds ==> !fin.guild_keep_selection_visible
                && fin.guild_scroll as nat == scroll_down_spec(
                self.guild_scroll as nat,
                pane_content_height_spec(self.guild_view_height as nat),
                self.guild_len_spec()))
        &&& (self.focus == FocusPane::Channels ==> !fin.channel_keep_selection_visible
                && fin.channel_scroll as nat == scroll_down_spec(
                self.channel_scroll as nat,
                pane_content_height_spec(self.channel_view_height as nat),
                self.channel_entries().len()))
        &&& (self.focus == FocusPane::Members && self.member_line_count_spec() <= usize::MAX
                ==> !fin.member_keep_selection_visible && fin.member_scroll as nat
                == scroll_down_spec(
                self.member_scroll as nat,
                self.member_content_height_spec(),
                self.member_line_count_spec()))
        &&& (self.focus == FocusPane::Messages ==> self.message_viewport_scrolled_down(fin))
    }

    /// What `scroll_focused_pane_viewport_up` leaves: `fin` from this dashboard.
    pub open spec fn pane_scrolled_up(self, fin: DashboardState) -> bool {
        &&& (fin.same_content(self))
        &&& (self.focus == FocusPane::Guilds ==> !fin.guild_keep_selection_visible
                && fin.guild_scroll == sub_floor(self.guild_scroll as nat, 1))
        &&& (self.focus == FocusPane::Channels ==> !fin.channel_keep_selection_visible
                && fin.channel_scroll == sub_floor(self.channel_scroll as nat, 1))
        &&& (self.focus == FocusPane::Members ==> !fin.member_keep_selection_visible
                && fin.member_scroll == sub_floor(self.member_scroll as nat, 1))
        &&& (self.focus == FocusPane::Messages ==> self.message_viewport_scrolled_up(fin))
    }

    /// Scrolls the message pane one row down (each message is one row), leaving the selection
    /// where it is and stopping auto-follow; reaching the latest message drops the
    /// new-messages marker.
    pub fn scroll_message_viewport_down(&mut self)
        ensures
            old(self).message_viewport_scrolled_down(*final(self)),
    {
        if self.focus != FocusPane::Messages || self.message_content_width == usize::MAX {
            return;
        }
        if self.selected_channel_is_forum() {
            let len = self.message_pane_item_count();
            move_index_down(&mut self.message_scroll, len);
            self.message_auto_follow = false;
            self.message_keep_selection_visible = false;
            return;
        }
        self.message_auto_follow = false;
        self.message_keep_selection_visible = false;
        let len = self.messages().len();
        move_index_down(&mut self.message_scroll, len);
        self.message_line_scroll = 0;
        if self.is_viewport_at_latest_message() {
            self.new_messages_marker_message_id = None;
        }
    }

    /// Scrolls the message pane one row up, leaving the selection where it is and stopping
    /// auto-follow.
    pub fn scroll_message_viewport_up(&mut self)
        ensures
            old(self).message_viewport_scrolled_up(*final(self)),
    {
        if self.focus != FocusPane::Messages || self.message_content_width == usize::MAX {
            return;
        }
        if self.selected_channel_is_forum() {
            move_index_up(&mut self.message_scroll);
            self.message_auto_follow = false;
            self.message_keep_selection_visible = false;
            return;
        }
        self.message_auto_follow = false;
        self.message_keep_selection_visible = false;
        if self.message_line_scroll > 0 {
            self.message_line_scroll = 0;
            return;
        }
        move_index_up(&mut self.message_scroll);
    }

    /// Scrolls the message pane to its top.
    pub fn scroll_message_viewport_top(&mut self)
        ensures
            old(self).focus != FocusPane::Messages ==> *final(self) == *old(self),
            old(self).focus == FocusPane::Messages ==> final(self).message_scroll == 0
                && final(self).message_line_scroll == 0 && !final(self).message_auto_follow
                && !final(self).message_keep_selection_visible && final(self).selected_message == old(self).selected_message,
            final(self).same_content(*old(self)),
    {
        if self.focus != FocusPane::Messages {
            return;
        }
        self.message_auto_follow = false;
        self.message_keep_selection_visible = false;
        self.message_scroll = 0;
        self.message_line_scroll = 0;
    }

    /// Scrolls the message pane so the bottom of the latest message sits at the pane's bottom,
    /// over the rows each message took when the pane was last laid out, and drops the
    /// new-messages marker; follows new messages again when the cursor is on the latest one.
    /// Before the pane is first laid out nothing moves.
    #[verifier::rlimit(50)]
    pub fn scroll_message_viewport_bottom(&mut self)
        ensures
            old(self).focus != FocusPane::Messages || !old(self).message_laid_out()
                ==> *final(self) == *old(self),
            old(self).focus == FocusPane::Messages && old(self).message_laid_out()
                && !old(self).selected_channel_is_forum_spec() ==> ({
                let (scroll, line) = bottom_aligned_viewport(
                    old(self).message_rendered_heights@,
                    old(self).messages_spec().len(),
                    old(self).message_content_height_spec(),
                );
                final(self).message_scroll == scroll && final(self).message_line_scroll == line
            }),
            old(self).focus == FocusPane::Messages && old(self).message_laid_out()
                ==> !final(self).message_keep_selection_visible
                && final(self).selected_message == old(self).selected_message
                && final(self).new_messages_marker_message_id is None
                && final(self).message_auto_follow == (final(self).cursor_on_last_spec()
                && final(self).viewport_at_latest_spec()),
            final(self).same_content(*old(self)),
            final(self).message_content_width == old(self).message_content_width,
            final(self).message_rendered_heights == old(self).message_rendered_heights,
    {
        if self.focus != FocusPane::Messages || self.message_content_width == usize::MAX {
            return;
        }
        self.align_message_viewport_to_bottom();
        let ghost before_refresh = *self;
        self.refresh_message_auto_follow();
        assert(self.cursor_on_last_spec() == before_refresh.cursor_on_last_spec());
        assert(self.viewport_at_latest_spec() == before_refresh.viewport_at_latest_spec());
    }

    /// Puts the bottom of the latest message at the bottom of the message pane (a forum keeps
    /// its selected post in view), stops following and keeping the selection in view, and
    /// drops the new-messages marker.
    fn align_message_viewport_to_bottom(&mut self)
        ensures
            !old(self).selected_channel_is_forum_spec() ==> ({
                let (scroll, line) = bottom_aligned_viewport(
                    old(self).message_rendered_heights@,
                    old(self).messages_spec().len(),
                    old(self).message_content_height_spec(),
                );
                final(self).message_scroll == scroll && final(self).message_line_scroll == line
            }),
            *final(self) == (DashboardState {
                message_scroll: final(self).message_scroll,
                message_line_scroll: final(self).message_line_scroll,
                message_auto_follow: false,
                message_keep_selection_visible: false,
                new_messages_marker_message_id: None,
                ..*old(self)
            }),
    {
        self.message_auto_follow = false;
        self.message_keep_selection_visible = false;
        self.new_messages_marker_message_id = None;
        if self.selected_channel_is_forum() {
            let len = self.message_pane_item_count();
            if len == 0 {
                self.message_scroll = 0;
            } else {
                let sel = clamp_selected_index(self.selected_message, len);
                let height = self.message_content_height();
                let mut scroll = clamp_selected_index(self.message_scroll, len);
                clamp_list_viewport(sel, &mut scroll, height, len, true);
                self.message_scroll = scroll;
            }
            self.message_line_scroll = 0;
        } else {
            let len = self.messages().len();
            let height = self.message_content_height();
            let (scroll, line) = bottom_aligned_viewport_of(&self.message_rendered_heights, len, height);
            self.message_scroll = scroll;
            self.message_line_scroll = line;
        }
    }

    /// Lays the message pane out for a content width: records the width and the rows each
    /// listed message takes (`rendered_heights`, in list order), puts the view at the unread
    /// divider when that jump still waits for its message, and keeps the selection and the
    /// viewport inside the pane. While it follows the latest message, a pane of one row shows
    /// the selected message, and a taller one puts the bottom of the latest message at its
    /// bottom, over the recorded rows.
    pub fn clamp_message_viewport_for_image_previews(
        &mut self,
        content_width: usize,
        rendered_heights: Vec<usize>,
    )
        ensures
            ({
                let recorded = DashboardState {
                    message_content_width: content_width,
                    message_rendered_heights: rendered_heights,
                    ..*old(self)
                };
                let a = recorded.after_unread_anchor();
                let (sel, scroll, line) = message_clamp_spec(
                    a.selected_message as nat,
                    a.message_scroll as nat,
                    a.message_line_scroll as nat,
                    a.message_len_spec(),
                    a.message_content_height_spec(),
                    a.selected_channel_is_forum_spec(),
                );
                &&& final(self).selected_message == sel
                &&& !a.message_auto_follow || (a.message_view_height > 1
                    && a.selected_channel_is_forum_spec()) ==> final(self).message_scroll == scroll
                    && final(self).message_line_scroll == line
                &&& a.message_auto_follow && a.message_view_height <= 1
                    ==> final(self).message_scroll == sel && final(self).message_line_scroll == 0
                &&& a.message_auto_follow && a.message_view_height > 1
                    && !a.selected_channel_is_forum_spec() ==> ({
                    let (bottom, rows_past) = bottom_aligned_viewport(
                        rendered_heights@,
                        a.messages_spec().len(),
                        a.message_content_height_spec(),
                    );
                    final(self).message_scroll == bottom && final(self).message_line_scroll == rows_past
                })
                &&& *final(self) == (DashboardState {
                    selected_message: final(self).selected_message,
                    message_scroll: final(self).message_scroll,
                    message_line_scroll: final(self).message_line_scroll,
                    ..a
                })
            }),
    {
        let ghost heights = rendered_heights;
        self.message_content_width = content_width;
        self.message_rendered_heights = rendered_heights;
        assert(*self == (DashboardState {
            message_content_width: content_width,
            message_rendered_heights: heights,
            ..*old(self)
        }));
        self.try_apply_unread_anchor_scroll();
        self.lay_out_message_viewport();
    }

    /// Keeps the message selection and viewport inside the pane and, while following the
    /// latest message, shows it at the bottom over the recorded rows (see
    /// `clamp_message_viewport_for_image_previews`).
    #[verifier::rlimit(100)]
    fn lay_out_message_viewport(&mut self)
        ensures
            ({
                let a = *old(self);
                let (sel, scroll, line) = message_clamp_spec(
                    a.selected_message as nat,
                    a.message_scroll as nat,
                    a.message_line_scroll as nat,
                    a.message_len_spec(),
                    a.message_content_height_spec(),
                    a.selected_channel_is_forum_spec(),
                );
                &&& final(self).selected_message == sel
                &&& !a.message_auto_follow || (a.message_view_height > 1
                    && a.selected_channel_is_forum_spec()) ==> final(self).message_scroll == scroll
                    && final(self).message_line_scroll == line
                &&& a.message_auto_follow && a.message_view_height <= 1
                    ==> final(self).message_scroll == sel && final(self).message_line_scroll == 0
                &&& a.message_auto_follow && a.message_view_height > 1
                    && !a.selected_channel_is_forum_spec() ==> ({
                    let (bottom, rows_past) = bottom_aligned_viewport(
                        a.message_rendered_heights@,
                        a.messages_spec().len(),
                        a.message_content_height_spec(),
                    );
                    final(self).message_scroll == bottom && final(self).message_line_scroll == rows_past
                })
                &&& *final(self) == (DashboardState {
                    selected_message: final(self).selected_message,
                    message_scroll: final(self).message_scroll,
                    message_line_scroll: final(self).message_line_scroll,
                    ..a
                })
            }),
    {
        let ghost a = *self;
        self.clamp_message_viewport();
        let ghost c = *self;
        assert(c.messages_spec() == a.messages_spec());
        assert(c.selected_channel_is_forum_spec() == a.selected_channel_is_forum_spec());
        assert(c.message_content_height_spec() == a.message_content_height_spec());
        if self.message_auto_follow {
            if self.message_view_height <= 1 {
                self.message_scroll = self.selected_message;
                self.message_line_scroll = 0;
            } else if !self.selected_channel_is_forum() {
                let len = self.messages().len();
                let height = self.message_content_height();
                let (scroll, line) = bottom_aligned_viewport_of(
                    &self.message_rendered_heights,
                    len,
                    height,
                );
                self.message_scroll = scroll;
                self.message_line_scroll = line;
            }
        }
    }

    /// Scrolls the focused pane one row down without moving its selection.
    pub fn scroll_focused_pane_viewport_down(&mut self)
        ensures
            old(self).pane_scrolled_down(*final(self)),
    {
        match self.focus {
            FocusPane::Guilds => {
                let height = pane_content_height(self.guild_view_height);
                let len = self.guild_entry_count();
                self.guild_keep_selection_visible = false;
                scroll_list_down(&mut self.guild_scroll, height, len);
            },
            FocusPane::Channels => {
                let height = pane_content_height(self.channel_view_height);
                let len = self.channel_entry_count();
                self.channel_keep_selection_visible = false;
                scroll_list_down(&mut self.channel_scroll, height, len);
            },
            FocusPane::Messages => self.scroll_message_viewport_down(),
            FocusPane::Members => {
                let height = pane_content_height(self.member_view_height);
                let len = self.member_line_count();
                self.member_keep_selection_visible = false;
                scroll_list_down(&mut self.member_scroll, height, len);
            },
        }
    }

    /// Scrolls the focused pane one row up without moving its selection.
    pub fn scroll_focused_pane_viewport_up(&mut self)
        ensures
            old(self).pane_scrolled_up(*final(self)),
    {
        match self.focus {
            FocusPane::Guilds => {
                self.guild_keep_selection_visible = false;
                scroll_list_up(&mut self.guild_scroll);
            },
            FocusPane::Channels => {
                self.channel_keep_selection_visible = false;
                scroll_list_up(&mut self.channel_scroll);
            },
            FocusPane::Messages => self.scroll_message_viewport_up(),
            FocusPane::Members => {
                self.member_keep_selection_visible = false;
                scroll_list_up(&mut self.member_scroll);
            },
        }
    }

    // -----------------------------------------------------------------------
    // Sideways scrolling of long names
    // -----------------------------------------------------------------------

    /// The labels of the guild pane: the direct-message entry, then the guilds' names.
    pub open spec fn guild_labels(self) -> Seq<Seq<char>> {
        seq![direct_messages_label()] + self.discord.guilds@.map_values(
            |g: crate::discord_state::GuildState| g.name@,
        )
    }

    /// The names of the channel pane's rows.
    pub open spec fn channel_labels(self) -> Seq<Seq<char>> {
        self.channel_entries().map_values(|c: ChannelState| c.name@)
    }

    /// The names of the member pane's members.
    pub open spec fn member_labels(self) -> Seq<Seq<char>> {
        self.members_spec().map_values(|m: GuildMemberState| m.display_name@)
    }

    fn max_guild_horizontal_scroll(&self) -> (m: usize)
        ensures
            m as nat == max_label_scroll(self.guild_labels()),
    {
        let label = "Direct Messages";
        proof {
            reveal_strlit("Direct Messages");
        }
        let first = width_limit(display_width(label));
        assert(label@ == direct_messages_label());
        let mut best = first;
        let guilds = &self.discord.guilds;
        let ghost labels = self.guild_labels();
        proof {
            assert(labels.take(1) =~= seq![direct_messages_label()]);
            assert(seq![direct_messages_label()].drop_last() =~= Seq::<Seq<char>>::empty());
            assert(labels.take(1).last() == direct_messages_label());
            assert(max_label_scroll(labels.take(1).drop_last()) == 0);
            assert(max_label_scroll(labels.take(1)) == first);
        }
        let mut i: usize = 0;
        while i < guilds.len()
            invariant
                i <= guilds@.len(),
                labels == self.guild_labels(),
                guilds@ == self.discord.guilds@,
                best as nat == max_label_scroll(labels.take(i + 1)),
            decreases guilds@.len() - i,
        {
            let here = width_limit(display_width(guilds[i].name.as_str()));
            assert(labels.take(i + 2).drop_last() =~= labels.take(i + 1));
            assert(labels[i + 1] == guilds@[i as int].name@);
            if here > best {
                best = here;
            }
            i = i + 1;
        }
        assert(labels.take(guilds@.len() + 1 as int) =~= labels);
        best
    }

    fn max_channel_horizontal_scroll(&self) -> (m: usize)
        ensures
            m as nat == max_label_scroll(self.channel_labels()),
    {
        let channels = &self.discord.channels;
        let mut best: usize = 0;
        let mut i: usize = 0;
        while i < channels.len()
            invariant
                i <= channels@.len(),
                channels@ == self.discord.channels@,
                best as nat == max_label_scroll(
                    scope_channels(channels@.take(i as int), self.active_guild).map_values(
                        |c: ChannelState| c.name@,
                    ),
                ),
            decreases channels@.len() - i,
        {
            assert(channels@.take(i + 1).drop_last() =~= channels@.take(i as int));
            let ghost prev = scope_channels(channels@.take(i as int), self.active_guild);
            if self.channel_is_in_scope(&channels[i]) {
                let here = width_limit(display_width(channels[i].name.as_str()));
                assert(prev.push(channels@[i as int]).map_values(|c: ChannelState| c.name@).drop_last()
                    =~= prev.map_values(|c: ChannelState| c.name@));
                if here > best {
                    best = here;
                }
            }
            i = i + 1;
        }
        assert(channels@.take(channels@.len() as int) =~= channels@);
        best
    }

    fn max_member_horizontal_scroll(&self) -> (m: usize)
        ensures
            m as nat == max_label_scroll(self.member_labels()),
    {
        let members = self.members();
        let mut best: usize = 0;
        let mut i: usize = 0;
        let ghost labels = self.member_labels();
        while i < members.len()
            invariant
                i <= members@.len(),
                members@ == self.members_spec(),
                labels == self.member_labels(),
                best as nat == max_label_scroll(labels.take(i as int)),
            decreases members@.len() - i,
        {
            let here = width_limit(display_width(members[i].display_name.as_str()));
            assert(labels.take(i + 1).drop_last() =~= labels.take(i as int));
            if here > best {
                best = here;
            }
            i = i + 1;
        }
        assert(labels.take(members@.len() as int) =~= labels);
        best
    }

    /// Scrolls the names of the focused pane one column right, no further than the widest
    /// name allows; the message pane does not scroll sideways.
    pub fn scroll_focused_pane_horizontal_right(&mut self)
        ensures
            final(self).same_content(*old(self)),
            old(self).focus == FocusPane::Guilds ==> final(self).guild_horizontal_scroll == min_nat(
                plus_one_sat(old(self).guild_horizontal_scroll as nat),
                max_label_scroll(old(self).guild_labels()),
            ),
            old(self).focus == FocusPane::Channels ==> final(self).channel_horizontal_scroll == min_nat(
                plus_one_sat(old(self).channel_horizontal_scroll as nat),
                max_label_scroll(old(self).channel_labels()),
            ),
            old(self).focus == FocusPane::Members ==> final(self).member_horizontal_scroll == min_nat(
                plus_one_sat(old(self).member_horizontal_scroll as nat),
                max_label_scroll(old(self).member_labels()),
            ),
            old(self).focus == FocusPane::Messages ==> *final(self) == *old(self),
            old(self).focus == FocusPane::Guilds ==> *final(self) == (DashboardState {
                guild_horizontal_scroll: final(self).guild_horizontal_scroll,
                ..*old(self)
            }),
            old(self).focus == FocusPane::Channels ==> *final(self) == (DashboardState {
                channel_horizontal_scroll: final(self).channel_horizontal_scroll,
                ..*old(self)
            }),
            old(self).focus == FocusPane::Members ==> *final(self) == (DashboardState {
                member_horizontal_scroll: final(self).member_horizontal_scroll,
                ..*old(self)
            }),
    {
        match self.focus {
            FocusPane::Guilds => {
                let max = self.max_guild_horizontal_scroll();
                let next = self.guild_horizontal_scroll.saturating_add(1);
                self.guild_horizontal_scroll = if next < max { next } else { max };
            },
            FocusPane::Channels => {
                let max = self.max_channel_horizontal_scroll();
                let next = self.channel_horizontal_scroll.saturating_add(1);
                self.channel_horizontal_scroll = if next < max { next } else { max };
            },
            FocusPane::Members => {
                let max = self.max_member_horizontal_scroll();
                let next = self.member_horizontal_scroll.saturating_add(1);
                self.member_horizontal_scroll = if next < max { next } else { max };
            },
            FocusPane::Messages => {},
        }
    }

    /// Scrolls the names of the focused pane one column left.
    pub fn scroll_focused_pane_horizontal_left(&mut self)
        ensures
            final(self).same_content(*old(self)),
            old(self).focus == FocusPane::Guilds ==> final(self).guild_horizontal_scroll == sub_floor(
                old(self).guild_horizontal_scroll as nat,
                1,
            ),
            old(self).focus == FocusPane::Channels ==> final(self).channel_horizontal_scroll
                == sub_floor(old(self).channel_horizontal_scroll as nat, 1),
            old(self).focus == FocusPane::Members ==> final(self).member_horizontal_scroll == sub_floor(
                old(self).member_horizontal_scroll as nat,
                1,
            ),
            old(self).focus == FocusPane::Messages ==> *final(self) == *old(self),
            old(self).focus == FocusPane::Guilds ==> *final(self) == (DashboardState {
                guild_horizontal_scroll: final(self).guild_horizontal_scroll,
                ..*old(self)
            }),
            old(self).focus == FocusPane::Channels ==> *final(self) == (DashboardState {
                channel_horizontal_scroll: final(self).channel_horizontal_scroll,
                ..*old(self)
            }),
            old(self).focus == FocusPane::Members ==> *final(self) == (DashboardState {
                member_horizontal_scroll: final(self).member_horizontal_scroll,
                ..*old(self)
            }),
    {
        match self.focus {
            FocusPane::Guilds => {
                self.guild_horizontal_scroll = self.guild_horizontal_scroll.saturating_sub(1);
            },
            FocusPane::Channels => {
                self.channel_horizontal_scroll = self.channel_horizontal_scroll.saturating_sub(1);
            },
            FocusPane::Members => {
                self.member_horizontal_scroll = self.member_horizontal_scroll.saturating_sub(1);
            },
            FocusPane::Messages => {},
        }
    }

    // -----------------------------------------------------------------------
    // Selecting a row under the mouse
    // -----------------------------------------------------------------------

    /// Whether row `row` of a pane shows an item that a click can select.
    pub open spec fn pane_row_selectable(self, pane: FocusPane, row: usize) -> bool {
        match pane {
            FocusPane::Guilds => self.guild_scroll as nat + row < self.guild_len_spec(),
            FocusPane::Channels => self.channel_scroll as nat + row < self.channel_entries().len(),
            FocusPane::Messages => row < self.message_content_height_spec() && self.message_scroll
                as nat + row < self.message_len_spec(),
            FocusPane::Members => self.member_scroll as nat + row >= 1 && self.member_scroll as nat
                + row <= self.members_spec().len(),
        }
    }

    /// What `select_visible_pane_row` leaves: whether it selected, and `fin`.
    pub open spec fn pane_row_selected(self, fin: DashboardState, pane: FocusPane, row: usize, selected: bool) -> bool {
        &&& fin.same_content(self)
        &&& selected == self.pane_row_selectable(pane, row)
        &&& (pane == FocusPane::Guilds && selected ==> fin.selected_guild == self.guild_scroll + row)
        &&& (pane == FocusPane::Channels && selected ==> fin.selected_channel == self.channel_scroll
            + row)
        &&& (pane == FocusPane::Messages && selected ==> fin.selected_message == self.message_scroll
            + row && !fin.message_auto_follow)
        &&& (pane == FocusPane::Members && selected ==> fin.selected_member + 1 == self.member_scroll
            + row)
        &&& (!selected ==> fin == self)
    }

    /// Selects the item shown on a row of a pane (rows counted from the pane's top); false when
    /// the row shows no item.
    pub fn select_visible_pane_row(&mut self, pane: FocusPane, row: usize) -> (selected: bool)
        ensures
            old(self).pane_row_selected(*final(self), pane, row, selected),
    {
        match pane {
            FocusPane::Guilds => {
                let len = self.guild_entry_count();
                if self.guild_scroll >= len || row >= len - self.guild_scroll {
                    return false;
                }
                self.selected_guild = self.guild_scroll + row;
                self.guild_keep_selection_visible = true;
                true
            },
            FocusPane::Channels => {
                let len = self.channel_entry_count();
                if self.channel_scroll >= len || row >= len - self.channel_scroll {
                    return false;
                }
                self.selected_channel = self.channel_scroll + row;
                self.channel_keep_selection_visible = true;
                true
            },
            FocusPane::Messages => {
                let len = self.message_pane_item_count();
                let height = self.message_content_height();
                if row >= height || self.message_scroll >= len || row >= len - self.message_scroll {
                    return false;
                }
                self.selected_message = self.message_scroll + row;
                self.message_auto_follow = false;
                self.message_keep_selection_visible = false;
                true
            },
            FocusPane::Members => {
                let len = self.members().len();
                if self.member_scroll > len || row > len - self.member_scroll {
                    return false;
                }
                if self.member_scroll == 0 && row == 0 {
                    return false;
                }
                self.selected_member = self.member_scroll + row - 1;
                self.member_keep_selection_visible = true;
                true
            },
        }
    }
}

/// The label of the direct-message entry of the guild pane.
pub open spec fn direct_messages_label() -> Seq<char> {
    "Direct Messages"@
}

/// The smaller of two numbers.
pub open spec fn min_nat(a: nat, b: nat) -> nat {
    if a < b {
        a
    } else {
        b
    }
}

/// A list's scroll offset after one row down.
pub open spec fn scroll_down_spec(scroll: nat, height: nat, len: nat) -> nat {
    if scroll + 1 <= max_scroll_spec(len, height) {
        scroll + 1
    } else if scroll > max_scroll_spec(len, height) {
        scroll
    } else {
        max_scroll_spec(len, height)
    }
}

fn width_limit(width: usize) -> (limit: usize)
    ensures
        limit == width_scroll_limit(width as nat),
{
    width.saturating_sub(1)
}

} // verus!
