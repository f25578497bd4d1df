use vstd::prelude::*;

use crate::dashboard::{
    ChannelActionMenuState, DashboardState, FocusPane, MessageViewPosition, OlderHistoryEntry,
    OlderHistoryRequestState, PinnedMessageViewReturnTarget, ForumPostListState,
};
use crate::discord::{ChannelInfo, ForumPostArchiveState, MessageInfo};
use crate::events::AppCommand;
use crate::keyed::{find_index, lookup, remove_key, upsert, ids_contain};
use crate::navigation::message_clamp_spec;
use crate::scroll::clamp_index_spec;

verus! {

/// `base` with the ids of `new` appended, skipping ids already present or in `exclude`.
pub open spec fn append_unique_ids(base: Seq<u64>, new: Seq<u64>, exclude: Seq<u64>) -> Seq<u64>
    decreases new.len(),
{
    if new.len() == 0 {
        base
    } else {
        let prev = append_unique_ids(base, new.drop_last(), exclude);
        if prev.contains(new.last()) || exclude.contains(new.last()) {
            prev
        } else {
            prev.push(new.last())
        }
    }
}

/// `ids` without those in `removed`, in order.
pub open spec fn remove_ids(ids: Seq<u64>, removed: Seq<u64>) -> Seq<u64>
    decreases ids.len(),
{
    if ids.len() == 0 {
        ids
    } else {
        let prev = remove_ids(ids.drop_last(), removed);
        if removed.contains(ids.last()) {
            prev
        } else {
            prev.push(ids.last())
        }
    }
}

/// The channel ids of forum posts.
pub open spec fn post_ids(posts: Seq<ChannelInfo>) -> Seq<u64> {
    posts.map_values(|p: ChannelInfo| p.channel_id)
}

/// What a page of forum posts does to the forum's post lists (active ids, archived ids,
/// whether more can be loaded). Active posts leave the archived list and join the active one
/// (which a first page starts afresh); archived posts join the archived list unless already
/// listed (which a first page starts afresh). After active posts the forum may still hold
/// archived ones, so more can be loaded; after archived posts, as the page says.
pub open spec fn forum_lists_after(
    active: Seq<u64>,
    archived: Seq<u64>,
    archive_state: ForumPostArchiveState,
    offset: usize,
    posts: Seq<ChannelInfo>,
    has_more: bool,
) -> (Seq<u64>, Seq<u64>, bool) {
    match archive_state {
        ForumPostArchiveState::Active => {
            let base = if offset == 0 {
                Seq::empty()
            } else {
                active
            };
            (
                append_unique_ids(base, post_ids(posts), Seq::empty()),
                remove_ids(archived, post_ids(posts)),
                true,
            )
        },
        ForumPostArchiveState::Archived => {
            let base = if offset == 0 {
                Seq::empty()
            } else {
                archived
            };
            (active, append_unique_ids(base, post_ids(posts), active), has_more)
        },
    }
}

impl DashboardState {
    // -----------------------------------------------------------------------
    // Pinned messages
    // -----------------------------------------------------------------------

    /// The position of the message view.
    pub open spec fn message_view_position(self) -> MessageViewPosition {
        MessageViewPosition {
            selected_message: self.selected_message,
            message_scroll: self.message_scroll,
            message_line_scroll: self.message_line_scroll,
            message_keep_selection_visible: self.message_keep_selection_visible,
            message_auto_follow: self.message_auto_follow,
            new_messages_marker_message_id: self.new_messages_marker_message_id,
            unread_divider_last_acked_id: self.unread_divider_last_acked_id,
            pending_unread_anchor_scroll: self.pending_unread_anchor_scroll,
        }
    }

    /// What `enter_pinned_message_view(channel_id)` leaves: `fin` from this dashboard.
    pub open spec fn pinned_view_entered(self, fin: DashboardState, channel_id: u64) -> bool {
        &&& (fin.pinned_message_view_channel_id == Some(channel_id))
        &&& (!self.pinned_view_active_spec() && self.active_channel_id == Some(channel_id)
                ==> fin.pinned_message_view_return_target == Some(
                PinnedMessageViewReturnTarget { channel_id, position: self.message_view_position() }))
        &&& (self.pinned_view_active_spec() || self.active_channel_id != Some(channel_id)
                ==> fin.pinned_message_view_return_target == self.pinned_message_view_return_target)
        &&& (fin.selected_message == 0)
        &&& (fin.message_scroll == 0)
        &&& (fin.message_line_scroll == 0)
        &&& (!fin.message_auto_follow)
        &&& (fin.message_keep_selection_visible)
        &&& (fin.new_messages_marker_message_id is None)
        &&& (fin.unread_divider_last_acked_id == self.unread_divider_last_acked_id)
        &&& (fin.pending_unread_anchor_scroll == self.pending_unread_anchor_scroll)
        &&& (fin.discord == self.discord)
        &&& (fin.active_channel_id == self.active_channel_id)
        &&& (fin.forum_post_lists == self.forum_post_lists)
        &&& (fin.message_view_height == self.message_view_height)
        &&& (fin.focus == self.focus)
    }

    /// What `return_from_pinned_message_view` leaves: `fin` from this dashboard, and whether
    /// it returned.
    pub open spec fn pinned_view_returned(self, fin: DashboardState, returned: bool) -> bool {
        &&& (returned <==> ((self.pinned_message_view_return_target matches Some(t) && self.active_channel_id == Some(t.channel_id)) && self.pinned_view_active_spec()))
        &&& (!returned && self.pinned_view_active_spec() && self.pinned_message_view_return_target is Some ==> fin.pinned_message_view_return_target is None)
        &&& (!returned ==> fin.pinned_message_view_channel_id == self.pinned_message_view_channel_id && fin.selected_message == self.selected_message)
        &&& (!returned ==> fin == (DashboardState {
                pinned_message_view_return_target: fin.pinned_message_view_return_target,
                ..self
            }))
        &&& (!self.pinned_view_active_spec() || self.pinned_message_view_return_target is None
                ==> fin == self)
        &&& (returned ==> ({
                let p = self.pinned_message_view_return_target.unwrap().position;
                let (sel, scroll, line) = message_clamp_spec(
                    p.selected_message as nat,
                    p.message_scroll as nat,
                    p.message_line_scroll as nat,
                    fin.message_len_spec(),
                    fin.message_content_height_spec(),
                    fin.selected_channel_is_forum_spec(),
                );
                &&& fin.pinned_message_view_channel_id is None
                &&& fin.pinned_message_view_return_target is None
                &&& fin.selected_message == sel
                &&& fin.message_scroll == scroll
                &&& fin.message_line_scroll == line
                &&& fin.message_keep_selection_visible == p.message_keep_selection_visible
                &&& fin.message_auto_follow == p.message_auto_follow
                &&& fin.new_messages_marker_message_id == p.new_messages_marker_message_id
                &&& fin.unread_divider_last_acked_id == p.unread_divider_last_acked_id
                &&& fin.pending_unread_anchor_scroll == p.pending_unread_anchor_scroll
            }))
        &&& (fin.discord == self.discord)
        &&& (fin.active_channel_id == self.active_channel_id)
        &&& (fin.forum_post_lists == self.forum_post_lists)
        &&& (fin.message_view_height == self.message_view_height)
        &&& (fin.focus == self.focus)
    }

    /// Switches the message pane to a channel's pinned messages, starting at the top. When the
    /// pinned view is not already showing and the channel is the selected one, the current
    /// message view position is kept to return to.
    pub fn enter_pinned_message_view(&mut self, channel_id: u64)
        ensures
            old(self).pinned_view_entered(*final(self), channel_id),
    {
        if !self.is_pinned_message_view() && self.active_channel_id == Some(channel_id) {
            self.pinned_message_view_return_target = Some(
                PinnedMessageViewReturnTarget {
                    channel_id,
                    position: MessageViewPosition {
                        selected_message: self.selected_message,
                        message_scroll: self.message_scroll,
                        message_line_scroll: self.message_line_scroll,
                        message_keep_selection_visible: self.message_keep_selection_visible,
                        message_auto_follow: self.message_auto_follow,
                        new_messages_marker_message_id: self.new_messages_marker_message_id,
                        unread_divider_last_acked_id: self.unread_divider_last_acked_id,
                        pending_unread_anchor_scroll: self.pending_unread_anchor_scroll,
                    },
                },
            );
        }
        self.pinned_message_view_channel_id = Some(channel_id);
        self.selected_message = 0;
        self.message_scroll = 0;
        self.message_line_scroll = 0;
        self.message_auto_follow = false;
        self.new_messages_marker_message_id = None;
        self.message_keep_selection_visible = true;
        self.clamp_message_viewport();
    }

    /// Leaves the pinned view and restores the message view position kept on entering it;
    /// false (and nothing restored) when the pinned view is not showing or no position was
    /// kept for the selected channel.
    #[verifier::rlimit(40)]
    pub fn return_from_pinned_message_view(&mut self) -> (returned: bool)
        ensures
            old(self).pinned_view_returned(*final(self), returned),
    {
        if !self.is_pinned_message_view() {
            return false;
        }
        let target = match self.pinned_message_view_return_target {
            Some(t) => t,
            None => return false,
        };
        if self.active_channel_id != Some(target.channel_id) {
            self.pinned_message_view_return_target = None;
            return false;
        }
        self.pinned_message_view_channel_id = None;
        self.pinned_message_view_return_target = None;
        let p = target.position;
        self.selected_message = p.selected_message;
        self.message_scroll = p.message_scroll;
        self.message_line_scroll = p.message_line_scroll;
        self.message_keep_selection_visible = p.message_keep_selection_visible;
        self.message_auto_follow = p.message_auto_follow;
        self.new_messages_marker_message_id = p.new_messages_marker_message_id;
        self.unread_divider_last_acked_id = p.unread_divider_last_acked_id;
        self.pending_unread_anchor_scroll = p.pending_unread_anchor_scroll;
        self.clamp_message_viewport();
        true
    }

    // -----------------------------------------------------------------------
    // Older history
    // -----------------------------------------------------------------------

    /// The message before which older history would be loaded: the first listed message, when
    /// the message pane has focus and its first message is selected.
    pub open spec fn older_history_cursor_spec(self) -> Option<u64> {
        if self.focus != FocusPane::Messages || self.messages_spec().len() == 0 || clamp_index_spec(
            self.selected_message as nat,
            self.message_len_spec(),
        ) != 0 {
            None
        } else {
            Some(self.messages_spec()[0].id)
        }
    }

    /// Whether a new request for messages before `before` may go out for the channel: none is
    /// outstanding, and the history is not known to end there.
    pub open spec fn history_request_allowed(self, channel_id: u64, before: u64) -> bool {
        match lookup(self.older_history_requests@, channel_id) {
            Some(e) => match e.state {
                OlderHistoryRequestState::Requested { .. } => false,
                OlderHistoryRequestState::Exhausted { before: b } => b != before,
            },
            None => true,
        }
    }

    /// Asks for older messages of the selected channel when the first message is selected,
    /// unless the pinned view is showing, a request is already outstanding, or the history is
    /// known to end before that message. The request is recorded as outstanding.
    pub fn next_older_history_command(&mut self) -> (command: Option<AppCommand>)
        ensures
            ({
                let allowed = !old(self).pinned_view_active_spec() && old(self).active_channel_id is Some
                    && old(self).older_history_cursor_spec() is Some && old(self).history_request_allowed(
                    old(self).active_channel_id.unwrap(),
                    old(self).older_history_cursor_spec().unwrap(),
                );
                &&& allowed ==> command == Some(
                    AppCommand::LoadMessageHistory {
                        channel_id: old(self).active_channel_id.unwrap(),
                        before: old(self).older_history_cursor_spec(),
                    },
                ) && lookup(final(self).older_history_requests@, old(self).active_channel_id.unwrap())
                    == Some(
                    OlderHistoryEntry {
                        channel_id: old(self).active_channel_id.unwrap(),
                        state: OlderHistoryRequestState::Requested {
                            before: old(self).older_history_cursor_spec().unwrap(),
                        },
                    },
                ) && forall|c: u64| c != old(self).active_channel_id.unwrap() ==> lookup(
                    final(self).older_history_requests@,
                    c,
                ) == lookup(old(self).older_history_requests@, c)
                &&& !allowed ==> command is None && final(self).older_history_requests == old(self).older_history_requests
            }),
            final(self).same_content(*old(self)),
            final(self).selected_message == old(self).selected_message,
    {
        if self.is_pinned_message_view() {
            return None;
        }
        let channel_id = match self.active_channel_id {
            Some(c) => c,
            None => return None,
        };
        let before = match self.older_history_cursor() {
            Some(b) => b,
            None => return None,
        };
        match find_index(&self.older_history_requests, channel_id) {
            Some(i) => match self.older_history_requests[i].state {
                OlderHistoryRequestState::Requested { .. } => return None,
                OlderHistoryRequestState::Exhausted { before: exhausted } => {
                    if exhausted == before {
                        return None;
                    }
                },
            },
            None => {},
        }
        upsert(
            &mut self.older_history_requests,
            OlderHistoryEntry { channel_id, state: OlderHistoryRequestState::Requested { before } },
        );
        Some(AppCommand::LoadMessageHistory { channel_id, before: Some(before) })
    }

    fn older_history_cursor(&self) -> (before: Option<u64>)
        ensures
            before == self.older_history_cursor_spec(),
    {
        if self.focus != FocusPane::Messages {
            return None;
        }
        let messages = self.messages();
        if messages.len() == 0 || self.selected_message() != 0 {
            return None;
        }
        Some(messages[0].id)
    }

    /// Records the answer to a request for older history: an empty page marks the history as
    /// ending there, any other page clears the request. Answers that do not match the
    /// outstanding request are ignored.
    pub fn record_older_history_loaded(
        &mut self,
        channel_id: u64,
        response_before: Option<u64>,
        messages: &[MessageInfo],
    )
        ensures
            final(self).selected_guild == old(self).selected_guild,
            final(self).guild_scroll == old(self).guild_scroll,
            final(self).guild_keep_selection_visible == old(self).guild_keep_selection_visible,
            final(self).guild_view_height == old(self).guild_view_height,
            ({
                let matches = lookup(old(self).older_history_requests@, channel_id) matches Some(e)
                    && e.state matches OlderHistoryRequestState::Requested { before }
                    && response_before == Some(before);
                &&& !matches ==> final(self).older_history_requests == old(self).older_history_requests
                &&& matches && messages@.len() == 0 ==> lookup(final(self).older_history_requests@, channel_id)
                    == Some(
                    OlderHistoryEntry {
                        channel_id,
                        state: OlderHistoryRequestState::Exhausted { before: response_before.unwrap() },
                    },
                )
                &&& matches && messages@.len() > 0 ==> lookup(final(self).older_history_requests@, channel_id) is None
                &&& forall|c: u64| c != channel_id ==> lookup(final(self).older_history_requests@, c)
                    == lookup(old(self).older_history_requests@, c)
            }),
            final(self).same_content(*old(self)),
    {
        let before = match find_index(&self.older_history_requests, channel_id) {
            Some(i) => match self.older_history_requests[i].state {
                OlderHistoryRequestState::Requested { before } => before,
                OlderHistoryRequestState::Exhausted { .. } => return,
            },
            None => return,
        };
        if response_before != Some(before) {
            return;
        }
        if messages.len() == 0 {
            upsert(
                &mut self.older_history_requests,
                OlderHistoryEntry { channel_id, state: OlderHistoryRequestState::Exhausted { before } },
            );
        } else {
            remove_key(&mut self.older_history_requests, channel_id);
        }
    }

    /// Forgets the outstanding history request of a channel whose load failed.
    pub fn record_older_history_failed(&mut self, channel_id: u64)
        ensures
            final(self).selected_guild == old(self).selected_guild,
            final(self).guild_scroll == old(self).guild_scroll,
            final(self).guild_keep_selection_visible == old(self).guild_keep_selection_visible,
            final(self).guild_view_height == old(self).guild_view_height,
            lookup(final(self).older_history_requests@, channel_id) is None,
            forall|c: u64| c != channel_id ==> lookup(final(self).older_history_requests@, c) == lookup(
                old(self).older_history_requests@,
                c,
            ),
            final(self).same_content(*old(self)),
    {
        remove_key(&mut self.older_history_requests, channel_id);
    }

    // -----------------------------------------------------------------------
    // Forum posts
    // -----------------------------------------------------------------------

    /// The post lists of a forum: active ids, archived ids, whether more can be loaded.
    pub open spec fn forum_lists_of(self, channel_id: u64) -> (Seq<u64>, Seq<u64>, bool) {
        match lookup(self.forum_post_lists@, channel_id) {
            Some(l) => (l.active_post_ids@, l.archived_post_ids@, l.has_more),
            None => (Seq::empty(), Seq::empty(), false),
        }
    }

    /// Records a page of forum posts in the forum's post lists; a first page of active posts
    /// for the selected forum also moves its selection and viewport to the top.
    pub fn record_forum_posts_loaded(
        &mut self,
        channel_id: u64,
        archive_state: ForumPostArchiveState,
        offset: usize,
        posts: &[ChannelInfo],
        has_more: bool,
    )
        ensures
            final(self).selected_guild == old(self).selected_guild,
            final(self).guild_scroll == old(self).guild_scroll,
            final(self).guild_keep_selection_visible == old(self).guild_keep_selection_visible,
            final(self).guild_view_height == old(self).guild_view_height,
            ({
                let (a0, r0, _) = old(self).forum_lists_of(channel_id);
                forum_lists_after(a0, r0, archive_state, offset, posts@, has_more) == final(self).forum_lists_of(channel_id)
            }),
            forall|c: u64| c != channel_id ==> lookup(final(self).forum_post_lists@, c) == lookup(
                old(self).forum_post_lists@,
                c,
            ),
            archive_state == ForumPostArchiveState::Active && offset == 0 && old(self).active_channel_id
                == Some(channel_id) ==> final(self).selected_message == 0 && final(self).message_scroll == 0
                && final(self).message_line_scroll == 0 && !final(self).message_auto_follow,
            !(archive_state == ForumPostArchiveState::Active && offset == 0 && old(self).active_channel_id
                == Some(channel_id)) ==> final(self).selected_message == old(self).selected_message
                && final(self).message_scroll == old(self).message_scroll,
            final(self).discord == old(self).discord,
            final(self).active_channel_id == old(self).active_channel_id,
            final(self).focus == old(self).focus,
    {
        let (mut active, mut archived) = match find_index(&self.forum_post_lists, channel_id) {
            Some(i) => (
                clone_ids(&self.forum_post_lists[i].active_post_ids),
                clone_ids(&self.forum_post_lists[i].archived_post_ids),
            ),
            None => (Vec::new(), Vec::new()),
        };
        let ghost a0 = active@;
        let ghost r0 = archived@;
        let new_has_more;
        match archive_state {
            ForumPostArchiveState::Active => {
                if offset == 0 {
                    active = Vec::new();
                    if self.active_channel_id == Some(channel_id) {
                        self.selected_message = 0;
                        self.message_scroll = 0;
                        self.message_line_scroll = 0;
                        self.message_auto_follow = false;
                    }
                }
                let empty: Vec<u64> = Vec::new();
                append_post_ids(&mut active, posts, &empty);
                archived = remove_post_ids(&archived, posts);
                new_has_more = true;
            },
            ForumPostArchiveState::Archived => {
                if offset == 0 {
                    archived = Vec::new();
                }
                append_post_ids(&mut archived, posts, &active);
                new_has_more = has_more;
            },
        }
        upsert(
            &mut self.forum_post_lists,
            ForumPostListState {
                channel_id,
                active_post_ids: active,
                archived_post_ids: archived,
                has_more: new_has_more,
            },
        );
    }

    // -----------------------------------------------------------------------
    // Action menus
    // -----------------------------------------------------------------------

    /// Opens the action menu of what the focused pane has selected: the selected guild (not
    /// the direct-message entry), the selected channel, the active channel from the message
    /// pane, or the selected member. Nothing opens when there is no such target.
    pub fn open_actions_for_focused_target(&mut self)
        ensures
            final(self).same_content(*old(self)),
            old(self).focus == FocusPane::Guilds ==> (final(self).guild_action_menu is Some <==> (
                old(self).guild_action_menu is Some || clamp_index_spec(
                old(self).selected_guild as nat,
                old(self).guild_len_spec(),
            ) >= 1)),
            old(self).focus == FocusPane::Channels ==> (final(self).channel_action_menu is Some <==> (
                old(self).channel_action_menu is Some || old(self).channel_entries().len() > 0)),
            old(self).focus == FocusPane::Messages ==> (final(self).channel_action_menu is Some <==> (
                old(self).channel_action_menu is Some || old(self).active_channel_id is Some)),
            old(self).focus == FocusPane::Members ==> (final(self).member_action_menu is Some <==> (
                old(self).member_action_menu is Some || old(self).members_spec().len() > 0)),
    {
        match self.focus {
            FocusPane::Guilds => {
                let len = self.guild_entry_count();
                if crate::scroll::clamp_selected_index(self.selected_guild, len) >= 1 {
                    self.guild_action_menu = Some(0);
                }
            },
            FocusPane::Channels => {
                if self.channel_entry_count() > 0 {
                    self.channel_action_menu = Some(ChannelActionMenuState::Actions { selected: 0 });
                }
            },
            FocusPane::Messages => {
                if self.active_channel_id.is_some() {
                    self.channel_action_menu = Some(ChannelActionMenuState::Actions { selected: 0 });
                }
            },
            FocusPane::Members => {
                if self.members().len() > 0 {
                    self.member_action_menu = Some(0);
                }
            },
        }
    }

    /// Closes every action menu.
    pub fn close_action_menus(&mut self)
        ensures
            final(self).guild_action_menu is None,
            final(self).channel_action_menu is None,
            final(self).member_action_menu is None,
            final(self).same_content(*old(self)),
    {
        self.guild_action_menu = None;
        self.channel_action_menu = None;
        self.member_action_menu = None;
    }
}

fn clone_ids(ids: &Vec<u64>) -> (copy: Vec<u64>)
    ensures
        copy@ == ids@,
{
    let mut copy = Vec::new();
    let mut i: usize = 0;
    while i < ids.len()
        invariant
            i <= ids@.len(),
            copy@ == ids@.take(i as int),
        decreases ids@.len() - i,
    {
        copy.push(ids[i]);
        assert(ids@.take(i + 1) =~= ids@.take(i as int).push(ids@[i as int]));
        i = i + 1;
    }
    assert(ids@.take(ids@.len() as int) =~= ids@);
    copy
}

fn append_post_ids(ids: &mut Vec<u64>, posts: &[ChannelInfo], exclude: &Vec<u64>)
    ensures
        final(ids)@ == append_unique_ids(old(ids)@, post_ids(posts@), exclude@),
{
    let ghost base = ids@;
    let mut i: usize = 0;
    while i < posts.len()
        invariant
            i <= posts@.len(),
            ids@ == append_unique_ids(base, post_ids(posts@.take(i as int)), exclude@),
        decreases posts@.len() - i,
    {
        let id = posts[i].channel_id;
        assert(post_ids(posts@.take(i + 1)).drop_last() =~= post_ids(posts@.take(i as int)));
        assert(post_ids(posts@.take(i + 1)).last() == id);
        if !ids_contain(ids, id) && !ids_contain(exclude, id) {
            ids.push(id);
        }
        i = i + 1;
    }
    assert(posts@.take(posts@.len() as int) =~= posts@);
}

fn remove_post_ids(ids: &Vec<u64>, posts: &[ChannelInfo]) -> (kept: Vec<u64>)
    ensures
        kept@ == remove_ids(ids@, post_ids(posts@)),
{
    let mut removed: Vec<u64> = Vec::new();
    let mut i: usize = 0;
    while i < posts.len()
        invariant
            i <= posts@.len(),
            removed@ == post_ids(posts@.take(i as int)),
        decreases posts@.len() - i,
    {
        removed.push(posts[i].channel_id);
        assert(post_ids(posts@.take(i + 1)) =~= post_ids(posts@.take(i as int)).push(posts@[i as int].channel_id));
        i = i + 1;
    }
    assert(posts@.take(posts@.len() as int) =~= posts@);
    let mut kept: Vec<u64> = Vec::new();
    let mut j: usize = 0;
    while j < ids.len()
        invariant
            j <= ids@.len(),
            removed@ == post_ids(posts@),
            kept@ == remove_ids(ids@.take(j as int), removed@),
        decreases ids@.len() - j,
    {
        assert(ids@.take(j + 1).drop_last() =~= ids@.take(j as int));
        if !ids_contain(&removed, ids[j]) {
            kept.push(ids[j]);
        }
        j = j + 1;
    }
    assert(ids@.take(ids@.len() as int) =~= ids@);
    kept
}


/// Once older history has been asked for, no second request for the channel goes out until
/// the answer is recorded.
pub proof fn lemma_no_duplicate_history_request(state: DashboardState, channel_id: u64, before: u64, other: u64)
    requires
        lookup(state.older_history_requests@, channel_id) == Some(
            OlderHistoryEntry { channel_id, state: OlderHistoryRequestState::Requested { before } },
        ),
    ensures
        !state.history_request_allowed(channel_id, other),
{
}

/// A history that is known to end before a message is not asked for again before that message.
pub proof fn lemma_exhausted_history_not_requested_again(state: DashboardState, channel_id: u64, before: u64)
    requires
        lookup(state.older_history_requests@, channel_id) == Some(
            OlderHistoryEntry { channel_id, state: OlderHistoryRequestState::Exhausted { before } },
        ),
    ensures
        !state.history_request_allowed(channel_id, before),
{
}


/// Opening a channel's pinned messages from its message view and returning gives the message
/// view back as it was (cursor, viewport, following, new-messages marker), provided that view
/// was inside the pane; a second return then finds no pinned view and changes nothing.
pub proof fn lemma_pinned_view_round_trip(
    before: DashboardState,
    pinned: DashboardState,
    back: DashboardState,
    returned: bool,
    again: DashboardState,
    returned_again: bool,
    channel_id: u64,
)
    requires
        before.active_channel_id == Some(channel_id),
        !before.pinned_view_active_spec(),
        message_clamp_spec(
            before.selected_message as nat,
            before.message_scroll as nat,
            before.message_line_scroll as nat,
            before.message_len_spec(),
            before.message_content_height_spec(),
            before.selected_channel_is_forum_spec(),
        ) == (before.selected_message as nat, before.message_scroll as nat, before.message_line_scroll as nat),
        before.pinned_view_entered(pinned, channel_id),
        pinned.pinned_view_returned(back, returned),
        back.pinned_view_returned(again, returned_again),
    ensures
        returned,
        !back.pinned_view_active_spec(),
        back.messages_spec() == before.messages_spec(),
        back.selected_message == before.selected_message,
        back.message_scroll == before.message_scroll,
        back.message_line_scroll == before.message_line_scroll,
        back.message_auto_follow == before.message_auto_follow,
        back.message_keep_selection_visible == before.message_keep_selection_visible,
        back.new_messages_marker_message_id == before.new_messages_marker_message_id,
        !returned_again,
        again == back,
{
    assert(pinned.pinned_view_active_spec());
    assert(back.messages_spec() == before.messages_spec());
    assert(back.message_len_spec() == before.message_len_spec());
    assert(back.selected_channel_is_forum_spec() == before.selected_channel_is_forum_spec());
    assert(back.forum_post_ids() == before.forum_post_ids());
}

} // verus!
