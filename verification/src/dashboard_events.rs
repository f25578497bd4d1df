use vstd::prelude::*;

use crate::dashboard::{ActiveGuildScope, DashboardState, channel_in_scope, scope_channels};
use crate::discord_state::{ChannelKind, ChannelState};
use crate::scroll::{clamp_index_spec, clamp_list_scroll_spec, clamp_selected_index, pane_content_height_spec};
use crate::discord::{ChannelInfo, ForumPostArchiveState, MessageInfo};
use crate::events::AppEvent;
use crate::discord_state::MessageState;
use crate::events::AppCommand;
use crate::keyed::{find_index, ids_contain, keys_of, lookup};
use crate::dashboard::first_index_of;

verus! {

/// The posts of a page that are not among `active` posts.
pub open spec fn not_active_posts(posts: Seq<ChannelInfo>, active: Seq<u64>) -> Seq<ChannelInfo> {
    posts.filter(|p: ChannelInfo| !active.contains(p.channel_id))
}

/// The preview messages of a page whose post is not among `active` posts.
pub open spec fn not_active_previews(messages: Seq<MessageInfo>, active: Seq<u64>) -> Seq<MessageInfo> {
    messages.filter(|m: MessageInfo| !active.contains(m.channel_id))
}

fn filter_posts(posts: Vec<ChannelInfo>, active: &Vec<u64>) -> (kept: Vec<ChannelInfo>)
    ensures
        kept@ == not_active_posts(posts@, active@),
{
    let mut kept: Vec<ChannelInfo> = Vec::new();
    let ghost all = posts@;
    for post in it: posts.into_iter()
        invariant
            it.seq() == all,
            kept@ == not_active_posts(all.take(it.index() as int), active@),
    {
        let ghost k = it.index() as int;
        proof {
            reveal(Seq::filter);
            assert(all.take(k + 1).drop_last() =~= all.take(k));
            assert(all.take(k + 1).last() == post);
        }
        if !ids_contain(active, post.channel_id) {
            kept.push(post);
        }
    }
    assert(all.take(all.len() as int) =~= all);
    kept
}

fn filter_previews(messages: Vec<MessageInfo>, active: &Vec<u64>) -> (kept: Vec<MessageInfo>)
    ensures
        kept@ == not_active_previews(messages@, active@),
{
    let mut kept: Vec<MessageInfo> = Vec::new();
    let ghost all = messages@;
    for m in it: messages.into_iter()
        invariant
            it.seq() == all,
            kept@ == not_active_previews(all.take(it.index() as int), active@),
    {
        let ghost k = it.index() as int;
        proof {
            reveal(Seq::filter);
            assert(all.take(k + 1).drop_last() =~= all.take(k));
            assert(all.take(k + 1).last() == m);
        }
        if !ids_contain(active, m.channel_id) {
            kept.push(m);
        }
    }
    assert(all.take(all.len() as int) =~= all);
    kept
}

/// The channels of a scope in two runs of channels are those of each run, in order.
pub proof fn lemma_scope_channels_append(a: Seq<ChannelState>, b: Seq<ChannelState>, scope: ActiveGuildScope)
    ensures
        scope_channels(a + b, scope) == scope_channels(a, scope) + scope_channels(b, scope),
    decreases b.len(),
{
    if b.len() == 0 {
        assert(a + b =~= a);
        assert(scope_channels(a, scope) + scope_channels(b, scope) =~= scope_channels(a, scope));
    } else {
        assert((a + b).drop_last() =~= a + b.drop_last());
        lemma_scope_channels_append(a, b.drop_last(), scope);
        if channel_in_scope(b.last(), scope) {
            assert(scope_channels(a, scope) + scope_channels(b.drop_last(), scope).push(b.last())
                =~= (scope_channels(a, scope) + scope_channels(b.drop_last(), scope)).push(
                b.last(),
            ));
        }
    }
}

/// Where `x` first occurs in `s + t`: in `s` if it occurs there, else after `s` in `t`.
pub proof fn lemma_first_index_of_append<A>(s: Seq<A>, t: Seq<A>, x: A)
    ensures
        first_index_of(s + t, x) == (match first_index_of(s, x) {
            Some(i) => Some(i),
            None => match first_index_of(t, x) {
                Some(j) => Some(j + s.len()),
                None => None,
            },
        }),
    decreases s.len(),
{
    if s.len() == 0 {
        assert(s + t =~= t);
    } else {
        assert((s + t).drop_first() =~= s.drop_first() + t);
        lemma_first_index_of_append(s.drop_first(), t, x);
    }
}

/// Leaving out nothing keeps every post and preview.
pub proof fn lemma_not_active_none(posts: Seq<ChannelInfo>, previews: Seq<MessageInfo>)
    ensures
        not_active_posts(posts, Seq::empty()) == posts,
        not_active_previews(previews, Seq::empty()) == previews,
    decreases posts.len() + previews.len(),
{
    reveal(Seq::filter);
    if posts.len() > 0 {
        lemma_not_active_none(posts.drop_last(), previews);
        assert(posts.drop_last().push(posts.last()) =~= posts);
    }
    if previews.len() > 0 {
        lemma_not_active_none(posts, previews.drop_last());
        assert(previews.drop_last().push(previews.last()) =~= previews);
    }
}

/// What the client knows after an event, taken as filtered, is what `discord_after` says of
/// the state before the event was recorded.
pub proof fn lemma_applied_is_discord_after(
    o: DashboardState,
    recorded: DashboardState,
    event: AppEvent,
    e: AppEvent,
    new: crate::discord_state::DiscordState,
)
    requires
        recorded.is_event_for_apply(event, e),
        new.applied(recorded.discord, e),
        recorded.discord.same_but_reads(o.discord),
        !(event is ActivateChannel) ==> recorded.discord == o.discord,
        event is ForumPostsLoaded ==> ({
            let (a0, r0, _) = o.forum_lists_of(event->ForumPostsLoaded_channel_id);
            recorded.forum_lists_of(event->ForumPostsLoaded_channel_id) == crate::message_view::forum_lists_after(
                a0,
                r0,
                event->archive_state,
                event->offset,
                event->posts@,
                event->has_more,
            )
        }),
    ensures
        o.discord_after(new, event),
{
    match event {
        AppEvent::ForumPostsLoaded { channel_id, archive_state, posts, preview_messages, .. } => {
            lemma_not_active_none(posts@, preview_messages@);
            if archive_state == ForumPostArchiveState::Archived {
                let (a0, r0, _) = o.forum_lists_of(channel_id);
                if o.kept_active_posts(channel_id) is Some {
                    assert(a0 == o.kept_active_posts(channel_id)->0);
                }
                if recorded.kept_active_posts(channel_id) is Some {
                    assert(recorded.kept_active_posts(channel_id)->0 == a0);
                }
            }
        },
        _ => {},
    }
}

/// For a new message, marking read afterwards does not change what `discord_after` says.
pub proof fn lemma_discord_after_ignores_reads(
    o: DashboardState,
    applied: crate::discord_state::DiscordState,
    fin: crate::discord_state::DiscordState,
    event: AppEvent,
)
    requires
        o.discord_after(applied, event),
        fin.same_but_reads(applied),
        event is MessageCreate,
    ensures
        o.discord_after(fin, event),
{
    assert(fin.channel_messages_spec(event->MessageCreate_channel_id) == applied.channel_messages_spec(
        event->MessageCreate_channel_id,
    ));
    assert forall|c: u64| c != event->MessageCreate_channel_id implies fin.channel_messages_spec(c)
        == o.discord.channel_messages_spec(c) by {
        assert(fin.channel_messages_spec(c) == applied.channel_messages_spec(c));
    }
}

/// How the message view looked before an event or a new snapshot of the client state.
#[derive(Clone, Copy, Debug, PartialEq, Eq, Structural)]
pub struct MessageViewSnapshot {
    pub was_at_latest: bool,
    pub was_following: bool,
    pub selected_message_id: Option<u64>,
    pub scroll_message_id: Option<u64>,
}

impl MessageViewSnapshot {
    /// The view follows the latest message after the event: it did before, and a channel's
    /// messages are shown.
    pub open spec fn following_after(self, fin: DashboardState) -> bool {
        self.was_following && fin.in_message_view_spec()
    }

    /// The view keeps showing the latest message after the event.
    pub open spec fn scrolling_after(self, fin: DashboardState) -> bool {
        self.following_after(fin) || (self.was_at_latest && fin.in_message_view_spec())
    }
}

impl DashboardState {
    /// The channel and id of a message that `event` brings into the selected channel.
    pub open spec fn active_new_message_spec(self, event: AppEvent) -> Option<(u64, u64)> {
        match event {
            AppEvent::MessageCreate { channel_id, message_id, .. } => if Some(channel_id)
                == self.active_channel_id {
                Some((channel_id, message_id))
            } else {
                None
            },
            _ => None,
        }
    }

    /// `event` is a message the current user wrote in the selected channel.
    pub open spec fn self_message_in_active_channel_spec(self, event: AppEvent) -> bool {
        match event {
            AppEvent::MessageCreate { author_id, channel_id, .. } => Some(author_id)
                == self.current_user_id && Some(channel_id) == self.active_channel_id,
            _ => false,
        }
    }

    /// The active post ids kept for a forum, when its lists are kept.
    pub open spec fn kept_active_posts(self, channel_id: u64) -> Option<Seq<u64>> {
        match lookup(self.forum_post_lists@, channel_id) {
            Some(l) => Some(l.active_post_ids@),
            None => None,
        }
    }

    /// `e` is `event` as the client state takes it: a page of archived posts of a forum
    /// whose lists are kept leaves out the posts, and their previews, listed as active.
    pub open spec fn is_event_for_apply(self, event: AppEvent, e: AppEvent) -> bool {
        match event {
            AppEvent::ForumPostsLoaded {
                channel_id,
                archive_state,
                offset,
                next_offset,
                posts,
                preview_messages,
                has_more,
            } => if archive_state == ForumPostArchiveState::Archived && self.kept_active_posts(
                channel_id,
            ) is Some {
                let active = self.kept_active_posts(channel_id)->0;
                &&& e matches AppEvent::ForumPostsLoaded {
                    channel_id: c,
                    archive_state: a,
                    offset: o,
                    next_offset: n,
                    posts: p,
                    preview_messages: m,
                    has_more: h,
                }
                &&& c == channel_id && a == archive_state && o == offset && n == next_offset
                &&& h == has_more
                &&& p@ == not_active_posts(posts@, active)
                &&& m@ == not_active_previews(preview_messages@, active)
            } else {
                e == event
            },
            _ => e == event,
        }
    }

    /// `new` is what the client knows after `event`, taken as `is_event_for_apply` says.
    pub open spec fn discord_after(self, new: crate::discord_state::DiscordState, event: AppEvent) -> bool {
        match event {
            AppEvent::ForumPostsLoaded { channel_id, archive_state, posts, .. } => if archive_state
                == ForumPostArchiveState::Archived && self.kept_active_posts(channel_id) is Some {
                &&& new.channels@ == crate::discord_apply::upserted_all(
                    self.discord.channels@,
                    not_active_posts(posts@, self.kept_active_posts(channel_id)->0).map_values(
                        |i: ChannelInfo| crate::discord_apply::channel_from_info(i),
                    ),
                )
                &&& new.same_but_channels(self.discord)
            } else {
                new.applied(self.discord, event)
            },
            _ => new.applied(self.discord, event),
        }
    }

    /// Filters a page of archived forum posts as `is_event_for_apply` says.
    pub fn discord_event_for_apply(&self, event: AppEvent) -> (e: AppEvent)
        ensures
            self.is_event_for_apply(event, e),
    {
        match event {
            AppEvent::ForumPostsLoaded {
                channel_id,
                archive_state,
                offset,
                next_offset,
                posts,
                preview_messages,
                has_more,
            } => {
                if archive_state != ForumPostArchiveState::Archived {
                    return AppEvent::ForumPostsLoaded {
                        channel_id,
                        archive_state,
                        offset,
                        next_offset,
                        posts,
                        preview_messages,
                        has_more,
                    };
                }
                match find_index(&self.forum_post_lists, channel_id) {
                    Some(i) => {
                        let active = &self.forum_post_lists[i].active_post_ids;
                        AppEvent::ForumPostsLoaded {
                            channel_id,
                            archive_state,
                            offset,
                            next_offset,
                            posts: filter_posts(posts, active),
                            preview_messages: filter_previews(preview_messages, active),
                            has_more,
                        }
                    },
                    None => AppEvent::ForumPostsLoaded {
                        channel_id,
                        archive_state,
                        offset,
                        next_offset,
                        posts,
                        preview_messages,
                        has_more,
                    },
                }
            },
            other => other,
        }
    }

    pub fn active_channel_message_create(&self, event: &AppEvent) -> (found: Option<(u64, u64)>)
        ensures
            found == self.active_new_message_spec(*event),
    {
        match event {
            AppEvent::MessageCreate { channel_id, message_id, .. } => {
                if Some(*channel_id) == self.active_channel_id {
                    Some((*channel_id, *message_id))
                } else {
                    None
                }
            },
            _ => None,
        }
    }

    pub fn event_is_self_message_in_active_channel(&self, event: &AppEvent) -> (own: bool)
        ensures
            own == self.self_message_in_active_channel_spec(*event),
    {
        match event {
            AppEvent::MessageCreate { author_id, channel_id, .. } => {
                Some(*author_id) == self.current_user_id && Some(*channel_id)
                    == self.active_channel_id
            },
            _ => false,
        }
    }

    /// Everything but what the client knows and the queued commands is as in `other`.
    pub open spec fn same_but_discord_and_commands(self, other: DashboardState) -> bool {
        &&& self.focus == other.focus
        &&& self.active_guild == other.active_guild
        &&& self.active_channel_id == other.active_channel_id
        &&& self.selected_guild == other.selected_guild
        &&& self.guild_scroll == other.guild_scroll
        &&& self.guild_horizontal_scroll == other.guild_horizontal_scroll
        &&& self.guild_keep_selection_visible == other.guild_keep_selection_visible
        &&& self.guild_view_height == other.guild_view_height
        &&& self.selected_channel == other.selected_channel
        &&& self.channel_scroll == other.channel_scroll
        &&& self.channel_horizontal_scroll == other.channel_horizontal_scroll
        &&& self.channel_keep_selection_visible == other.channel_keep_selection_visible
        &&& self.channel_view_height == other.channel_view_height
        &&& self.selected_message == other.selected_message
        &&& self.message_scroll == other.message_scroll
        &&& self.message_line_scroll == other.message_line_scroll
        &&& self.message_keep_selection_visible == other.message_keep_selection_visible
        &&& self.message_auto_follow == other.message_auto_follow
        &&& self.new_messages_marker_message_id == other.new_messages_marker_message_id
        &&& self.unread_divider_last_acked_id == other.unread_divider_last_acked_id
        &&& self.pending_unread_anchor_scroll == other.pending_unread_anchor_scroll
        &&& self.message_view_height == other.message_view_height
        &&& self.pinned_message_view_channel_id == other.pinned_message_view_channel_id
        &&& self.pinned_message_view_return_target == other.pinned_message_view_return_target
        &&& self.selected_member == other.selected_member
        &&& self.member_scroll == other.member_scroll
        &&& self.member_horizontal_scroll == other.member_horizontal_scroll
        &&& self.member_keep_selection_visible == other.member_keep_selection_visible
        &&& self.member_view_height == other.member_view_height
        &&& self.composer == other.composer
        &&& self.guild_action_menu == other.guild_action_menu
        &&& self.channel_action_menu == other.channel_action_menu
        &&& self.member_action_menu == other.member_action_menu
        &&& self.display_options == other.display_options
        &&& self.current_user == other.current_user
        &&& self.current_user_id == other.current_user_id
        &&& self.last_status == other.last_status
        &&& self.should_quit == other.should_quit
        &&& self.older_history_requests == other.older_history_requests
        &&& self.forum_post_lists == other.forum_post_lists
        &&& self.guild_pane_visible == other.guild_pane_visible
        &&& self.channel_pane_visible == other.channel_pane_visible
        &&& self.member_pane_visible == other.member_pane_visible
    }

    /// Everything but the message view (selection, scroll, follow mode, markers) is as in
    /// `other`.
    pub open spec fn same_outside_message_view(self, other: DashboardState) -> bool {
        &&& self.discord == other.discord
        &&& self.focus == other.focus
        &&& self.active_guild == other.active_guild
        &&& self.active_channel_id == other.active_channel_id
        &&& self.selected_guild == other.selected_guild
        &&& self.guild_scroll == other.guild_scroll
        &&& self.guild_horizontal_scroll == other.guild_horizontal_scroll
        &&& self.guild_keep_selection_visible == other.guild_keep_selection_visible
        &&& self.guild_view_height == other.guild_view_height
        &&& self.selected_channel == other.selected_channel
        &&& self.channel_scroll == other.channel_scroll
        &&& self.channel_horizontal_scroll == other.channel_horizontal_scroll
        &&& self.channel_keep_selection_visible == other.channel_keep_selection_visible
        &&& self.channel_view_height == other.channel_view_height
        &&& self.message_view_height == other.message_view_height
        &&& self.pinned_message_view_channel_id == other.pinned_message_view_channel_id
        &&& self.pinned_message_view_return_target == other.pinned_message_view_return_target
        &&& self.selected_member == other.selected_member
        &&& self.member_scroll == other.member_scroll
        &&& self.member_horizontal_scroll == other.member_horizontal_scroll
        &&& self.member_keep_selection_visible == other.member_keep_selection_visible
        &&& self.member_view_height == other.member_view_height
        &&& self.composer == other.composer
        &&& self.guild_action_menu == other.guild_action_menu
        &&& self.channel_action_menu == other.channel_action_menu
        &&& self.member_action_menu == other.member_action_menu
        &&& self.display_options == other.display_options
        &&& self.current_user == other.current_user
        &&& self.current_user_id == other.current_user_id
        &&& self.last_status == other.last_status
        &&& self.should_quit == other.should_quit
        &&& self.older_history_requests == other.older_history_requests
        &&& self.forum_post_lists == other.forum_post_lists
        &&& self.pending_commands == other.pending_commands
        &&& self.guild_pane_visible == other.guild_pane_visible
        &&& self.channel_pane_visible == other.channel_pane_visible
        &&& self.member_pane_visible == other.member_pane_visible
    }

    /// The position of the first message with id `id` among those the message pane lists.
    pub open spec fn message_position(self, id: u64) -> Option<int> {
        first_index_of(keys_of(self.messages_spec()), id)
    }

    pub(crate) fn message_index_of(&self, id: u64) -> (index: Option<usize>)
        ensures
            match index {
                Some(i) => self.message_position(id) == Some(i as int),
                None => self.message_position(id) is None,
            },
    {
        let messages = self.messages();
        let mut i: usize = 0;
        assert(keys_of(messages@).skip(0) =~= keys_of(messages@));
        while i < messages.len()
            invariant
                messages@ == self.messages_spec(),
                i <= messages@.len(),
                self.message_position(id) == match first_index_of(
                    keys_of(messages@).skip(i as int),
                    id,
                ) {
                    Some(k) => Some(k + i),
                    None => None,
                },
            decreases messages@.len() - i,
        {
            assert(keys_of(messages@).skip(i as int).drop_first() =~= keys_of(messages@).skip(
                i + 1,
            ));
            assert(keys_of(messages@).skip(i as int)[0] == messages@[i as int].id);
            if messages[i].id == id {
                return Some(i);
            }
            i = i + 1;
        }
        assert(keys_of(messages@).skip(i as int) =~= Seq::<u64>::empty());
        None
    }

    /// Puts the selection and the viewport back on the messages they were on, where those
    /// are still listed.
    pub fn restore_message_position(&mut self, selected_id: Option<u64>, scroll_id: Option<u64>)
        ensures
            final(self).selected_message == (match selected_id {
                Some(id) => match old(self).message_position(id) {
                    Some(i) => i as usize,
                    None => old(self).selected_message,
                },
                None => old(self).selected_message,
            }),
            final(self).message_scroll == (match scroll_id {
                Some(id) => match old(self).message_position(id) {
                    Some(i) => i as usize,
                    None => old(self).message_scroll,
                },
                None => old(self).message_scroll,
            }),
            final(self).message_line_scroll == old(self).message_line_scroll,
            final(self).message_keep_selection_visible == old(self).message_keep_selection_visible,
            final(self).message_auto_follow == old(self).message_auto_follow,
            final(self).new_messages_marker_message_id == old(self).new_messages_marker_message_id,
            final(self).unread_divider_last_acked_id == old(self).unread_divider_last_acked_id,
            final(self).pending_unread_anchor_scroll == old(self).pending_unread_anchor_scroll,
            final(self).same_outside_message_view(*old(self)),
    {
        if let Some(id) = selected_id {
            if let Some(i) = self.message_index_of(id) {
                self.selected_message = i;
            }
        }
        if let Some(id) = scroll_id {
            if let Some(i) = self.message_index_of(id) {
                self.message_scroll = i;
            }
        }
    }

    /// Moves the selection to the last item of the message pane.
    pub fn follow_latest_message(&mut self)
        ensures
            final(self).selected_message == if old(self).message_len_spec() == 0 {
                0
            } else {
                (old(self).message_len_spec() - 1) as usize
            },
            final(self).message_keep_selection_visible,
            final(self).message_scroll == old(self).message_scroll,
            final(self).message_line_scroll == old(self).message_line_scroll,
            final(self).message_auto_follow == old(self).message_auto_follow,
            final(self).new_messages_marker_message_id == old(self).new_messages_marker_message_id,
            final(self).unread_divider_last_acked_id == old(self).unread_divider_last_acked_id,
            final(self).pending_unread_anchor_scroll == old(self).pending_unread_anchor_scroll,
            final(self).same_outside_message_view(*old(self)),
    {
        self.selected_message = self.message_pane_item_count().saturating_sub(1);
        self.message_keep_selection_visible = true;
    }

    /// Drops the new-messages marker when its message is no longer listed.
    pub fn clear_missing_new_messages_marker(&mut self)
        ensures
            final(self).new_messages_marker_message_id == (match old(self).new_messages_marker_message_id {
                Some(id) => if keys_of(old(self).messages_spec()).contains(id) {
                    Some(id)
                } else {
                    None
                },
                None => None,
            }),
            final(self).selected_message == old(self).selected_message,
            final(self).message_scroll == old(self).message_scroll,
            final(self).message_line_scroll == old(self).message_line_scroll,
            final(self).message_keep_selection_visible == old(self).message_keep_selection_visible,
            final(self).message_auto_follow == old(self).message_auto_follow,
            final(self).unread_divider_last_acked_id == old(self).unread_divider_last_acked_id,
            final(self).pending_unread_anchor_scroll == old(self).pending_unread_anchor_scroll,
            final(self).same_outside_message_view(*old(self)),
    {
        if let Some(id) = self.new_messages_marker_message_id {
            let found = self.message_index_of(id);
            proof {
                crate::dashboard::lemma_first_index_of_contains(keys_of(self.messages_spec()), id);
            }
            if found.is_none() {
                self.new_messages_marker_message_id = None;
            }
        }
    }

    /// The id of the selected message and of the message at the top of the viewport.
    pub open spec fn message_id_at(self, i: nat) -> Option<u64> {
        if i < self.messages_spec().len() {
            Some(self.messages_spec()[i as int].id)
        } else {
            None
        }
    }

    fn message_id_at_exec(&self, i: usize) -> (id: Option<u64>)
        ensures
            id == self.message_id_at(i as nat),
    {
        let messages = self.messages();
        if i < messages.len() {
            Some(messages[i].id)
        } else {
            None
        }
    }


    /// The scope the dashboard keeps after the guilds changed: a guild no longer known is
    /// left.
    pub open spec fn clamped_scope(self) -> ActiveGuildScope {
        match self.active_guild {
            ActiveGuildScope::Guild(g) => if lookup(self.discord.guilds@, g) is Some {
                self.active_guild
            } else {
                ActiveGuildScope::Unset
            },
            other => other,
        }
    }

    /// The selected channel can stay selected in `scope`: it is known, is not a category,
    /// and belongs to the scope (a guild's channel the user may see, or a direct message).
    pub open spec fn active_channel_valid(self, scope: ActiveGuildScope) -> bool {
        match self.active_channel_id {
            Some(id) => match self.discord.channel_spec(id) {
                Some(c) => match scope {
                    ActiveGuildScope::Unset => false,
                    ActiveGuildScope::DirectMessages => c.guild_id is None && c.kind
                        != ChannelKind::GuildCategory,
                    ActiveGuildScope::Guild(g) => c.guild_id == Some(g) && c.kind
                        != ChannelKind::GuildCategory && c.viewable,
                },
                None => false,
            },
            None => false,
        }
    }

    /// No channel is selected and the message view is back at its start.
    pub open spec fn message_view_cleared(self) -> bool {
        &&& self.active_channel_id is None
        &&& self.selected_message == 0
        &&& self.message_scroll == 0
        &&& self.message_line_scroll == 0
        &&& self.message_keep_selection_visible
        &&& self.message_auto_follow
        &&& self.new_messages_marker_message_id is None
        &&& self.channel_keep_selection_visible
        &&& self.member_keep_selection_visible
        &&& self.composer.is_cleared()
        &&& self.channel_action_menu is None
    }

    /// Deselects the channel: resets the message view, closes the composer and the channel
    /// menu.
    pub fn clear_active_channel(&mut self)
        ensures
            final(self).message_view_cleared(),
            final(self).discord == old(self).discord,
            final(self).active_guild == old(self).active_guild,
            final(self).focus == old(self).focus,
            final(self).selected_guild == old(self).selected_guild,
            final(self).guild_scroll == old(self).guild_scroll,
            final(self).guild_keep_selection_visible == old(self).guild_keep_selection_visible,
            final(self).guild_view_height == old(self).guild_view_height,
            final(self).selected_channel == old(self).selected_channel,
            final(self).selected_member == old(self).selected_member,
            final(self).unread_divider_last_acked_id == old(self).unread_divider_last_acked_id,
            final(self).pending_unread_anchor_scroll == old(self).pending_unread_anchor_scroll,
            final(self).pinned_message_view_channel_id == old(self).pinned_message_view_channel_id,
            final(self).forum_post_lists == old(self).forum_post_lists,
            final(self).message_view_height == old(self).message_view_height,
            final(self).member_view_height == old(self).member_view_height,
            final(self).current_user == old(self).current_user,
            final(self).current_user_id == old(self).current_user_id,
            final(self).last_status == old(self).last_status,
            final(self).pending_commands == old(self).pending_commands,
            final(self).older_history_requests == old(self).older_history_requests,
    {
        self.active_channel_id = None;
        self.selected_message = 0;
        self.message_scroll = 0;
        self.message_line_scroll = 0;
        self.message_keep_selection_visible = true;
        self.message_auto_follow = true;
        self.new_messages_marker_message_id = None;
        self.channel_keep_selection_visible = true;
        self.member_keep_selection_visible = true;
        self.composer.clear();
        self.channel_action_menu = None;
    }

    /// Leaves a guild that is gone and deselects a channel that no longer belongs to the
    /// shown scope.
    pub fn clamp_active_selection(&mut self)
        ensures
            final(self).active_guild == old(self).clamped_scope(),
            old(self).active_channel_id is Some && !old(self).active_channel_valid(
                old(self).clamped_scope(),
            ) ==> final(self).message_view_cleared(),
            !(old(self).active_channel_id is Some && !old(self).active_channel_valid(
                old(self).clamped_scope(),
            )) ==> final(self).same_message_view(*old(self)) && final(self).active_channel_id == old(self).active_channel_id && final(self).channel_keep_selection_visible == old(self).channel_keep_selection_visible && final(self).member_keep_selection_visible == old(self).member_keep_selection_visible,
            final(self).discord == old(self).discord,
            final(self).focus == old(self).focus,
            final(self).selected_guild == old(self).selected_guild,
            final(self).selected_channel == old(self).selected_channel,
            final(self).guild_scroll == old(self).guild_scroll,
            final(self).guild_keep_selection_visible == old(self).guild_keep_selection_visible,
            final(self).guild_view_height == old(self).guild_view_height,
            final(self).selected_member == old(self).selected_member,
            final(self).unread_divider_last_acked_id == old(self).unread_divider_last_acked_id,
            final(self).pending_unread_anchor_scroll == old(self).pending_unread_anchor_scroll,
            final(self).pinned_message_view_channel_id == old(self).pinned_message_view_channel_id,
            final(self).forum_post_lists == old(self).forum_post_lists,
            final(self).message_view_height == old(self).message_view_height,
            final(self).member_view_height == old(self).member_view_height,
            final(self).current_user == old(self).current_user,
            final(self).current_user_id == old(self).current_user_id,
            final(self).last_status == old(self).last_status,
            final(self).pending_commands == old(self).pending_commands,
            final(self).older_history_requests == old(self).older_history_requests,
    {
        if let ActiveGuildScope::Guild(g) = self.active_guild {
            if find_index(&self.discord.guilds, g).is_none() {
                self.active_guild = ActiveGuildScope::Unset;
            }
        }
        let valid = match self.selected_channel_state() {
            Some(c) => match self.active_guild {
                ActiveGuildScope::Unset => false,
                ActiveGuildScope::DirectMessages => c.guild_id.is_none() && c.kind
                    != ChannelKind::GuildCategory,
                ActiveGuildScope::Guild(g) => c.guild_id == Some(g) && c.kind
                    != ChannelKind::GuildCategory && c.viewable,
            },
            None => false,
        };
        if self.active_channel_id.is_some() && !valid {
            self.clear_active_channel();
        }
    }

    /// Marks a channel read up to its newest message and asks Discord to record that.
    pub fn mark_channel_as_read(&mut self, channel_id: u64)
        ensures
            ({
                let latest = match old(self).discord.channel_spec(channel_id) {
                    Some(c) => c.last_message_id,
                    None => None,
                };
                &&& latest is None ==> final(self).pending_commands == old(self).pending_commands
                    && final(self).discord == old(self).discord
                &&& latest matches Some(m) ==> final(self).pending_commands@ == old(self).pending_commands@.push(AppCommand::AckChannel { channel_id, message_id: m })
                    && final(self).discord.read_after_ack(old(self).discord, channel_id, m)
            }),
            final(self).same_but_discord_and_commands(*old(self)),
            final(self).discord.same_but_reads(old(self).discord),
    {
        let acked = self.discord.ack_channel_read(channel_id);
        if let Some(m) = acked {
            self.pending_commands.push(AppCommand::AckChannel { channel_id, message_id: m });
        }
    }


    /// The id of the channel the channel pane's cursor is on.
    pub open spec fn channel_cursor_id_spec(self) -> Option<u64> {
        let entries = self.channel_entries();
        let i = clamp_index_spec(self.selected_channel as nat, entries.len());
        if i < entries.len() {
            Some(entries[i as int].id)
        } else {
            None
        }
    }

    pub fn selected_channel_cursor_id(&self) -> (id: Option<u64>)
        ensures
            id == self.channel_cursor_id_spec(),
    {
        let count = self.channel_entry_count();
        let target = clamp_selected_index(self.selected_channel, count);
        let channels = &self.discord.channels;
        let mut n: usize = 0;
        let mut i: usize = 0;
        while i < channels.len()
            invariant
                i <= channels@.len(),
                channels@ == self.discord.channels@,
                n == scope_channels(channels@.take(i as int), self.active_guild).len(),
                n <= target,
                count == self.channel_entries().len(),
                target == clamp_index_spec(self.selected_channel as nat, count as nat),
                count > 0 ==> target < count,
            decreases channels@.len() - i,
        {
            assert(channels@.take(i + 1).drop_last() =~= channels@.take(i as int));
            proof {
                lemma_scope_channels_append(
                    channels@.take(i + 1),
                    channels@.skip(i + 1),
                    self.active_guild,
                );
                assert(channels@.take(i + 1) + channels@.skip(i + 1) =~= channels@);
            }
            if self.channel_in_scope_exec(&channels[i]) {
                if n == target {
                    assert(self.channel_entries()[n as int] == channels@[i as int]);
                    return Some(channels[i].id);
                }
                n = n + 1;
            }
            i = i + 1;
        }
        assert(channels@.take(channels@.len() as int) =~= channels@);
        None
    }

    fn channel_in_scope_exec(&self, c: &ChannelState) -> (r: bool)
        ensures
            r == channel_in_scope(*c, self.active_guild),
    {
        match self.active_guild {
            ActiveGuildScope::Unset => false,
            ActiveGuildScope::DirectMessages => c.guild_id.is_none(),
            ActiveGuildScope::Guild(g) => c.guild_id == Some(g) && c.viewable && c.kind
                != ChannelKind::Thread,
        }
    }

    /// The row of the channel pane that shows channel `id`.
    pub open spec fn channel_row_of(self, id: u64) -> Option<int> {
        first_index_of(keys_of(self.channel_entries()), id)
    }

    fn channel_row_of_exec(&self, id: u64) -> (row: Option<usize>)
        ensures
            match row {
                Some(r) => self.channel_row_of(id) == Some(r as int),
                None => self.channel_row_of(id) is None,
            },
    {
        let channels = &self.discord.channels;
        let mut n: usize = 0;
        let mut i: usize = 0;
        while i < channels.len()
            invariant
                i <= channels@.len(),
                channels@ == self.discord.channels@,
                n == scope_channels(channels@.take(i as int), self.active_guild).len(),
                n <= i,
                first_index_of(keys_of(scope_channels(channels@.take(i as int), self.active_guild)), id) is None,
            decreases channels@.len() - i,
        {
            let ghost prefix = scope_channels(channels@.take(i as int), self.active_guild);
            assert(channels@.take(i + 1).drop_last() =~= channels@.take(i as int));
            proof {
                lemma_scope_channels_append(
                    channels@.take(i + 1),
                    channels@.skip(i + 1),
                    self.active_guild,
                );
                assert(channels@.take(i + 1) + channels@.skip(i + 1) =~= channels@);
            }
            if self.channel_in_scope_exec(&channels[i]) {
                let ghost next = prefix.push(channels@[i as int]);
                proof {
                    assert(keys_of(next) =~= keys_of(prefix) + seq![channels@[i as int].id]);
                    lemma_first_index_of_append(keys_of(prefix), seq![channels@[i as int].id], id);
                    assert(first_index_of(seq![channels@[i as int].id].drop_first(), id) is None);
                }
                if channels[i].id == id {
                    proof {
                        let rest = scope_channels(channels@.skip(i + 1), self.active_guild);
                        assert(keys_of(self.channel_entries()) =~= keys_of(next) + keys_of(rest));
                        lemma_first_index_of_append(keys_of(next), keys_of(rest), id);
                    }
                    return Some(n);
                }
                n = n + 1;
            }
            i = i + 1;
        }
        assert(channels@.take(channels@.len() as int) =~= channels@);
        None
    }

    /// Puts the channel pane's cursor back on channel `id`, where it is still listed.
    pub fn restore_channel_cursor(&mut self, id: Option<u64>)
        ensures
            id is Some && old(self).channel_row_of(id->0) is Some ==> final(self).selected_channel
                == old(self).channel_row_of(id->0)->0,
            !(id is Some && old(self).channel_row_of(id->0) is Some) ==> final(self).selected_channel
                == old(self).selected_channel,
            final(self).same_message_view(*old(self)),
            final(self).discord == old(self).discord,
            final(self).active_guild == old(self).active_guild,
            final(self).active_channel_id == old(self).active_channel_id,
            final(self).focus == old(self).focus,
            final(self).same_content(*old(self)),
            final(self).selected_guild == old(self).selected_guild,
            final(self).selected_member == old(self).selected_member,
            final(self).guild_scroll == old(self).guild_scroll,
            final(self).guild_keep_selection_visible == old(self).guild_keep_selection_visible,
            final(self).channel_keep_selection_visible == old(self).channel_keep_selection_visible,
            final(self).member_keep_selection_visible == old(self).member_keep_selection_visible,
    {
        if let Some(c) = id {
            if let Some(r) = self.channel_row_of_exec(c) {
                self.selected_channel = r;
            }
        }
    }


    /// Shows a scope in the channel pane; another scope than the shown one starts at its
    /// first channel.
    pub fn activate_guild(&mut self, scope: ActiveGuildScope)
        ensures
            final(self).selected_guild == old(self).selected_guild,
            final(self).guild_scroll == old(self).guild_scroll,
            final(self).guild_keep_selection_visible == old(self).guild_keep_selection_visible,
            final(self).guild_view_height == old(self).guild_view_height,
            final(self).active_guild == scope,
            old(self).active_guild != scope ==> final(self).selected_channel == 0 && final(self).channel_scroll == 0,
            old(self).active_guild == scope ==> final(self).selected_channel == old(self).selected_channel && final(self).channel_scroll == old(self).channel_scroll,
            final(self).same_message_view(*old(self)),
            final(self).discord == old(self).discord,
            final(self).active_channel_id == old(self).active_channel_id,
            final(self).pinned_message_view_channel_id == old(self).pinned_message_view_channel_id,
            final(self).forum_post_lists == old(self).forum_post_lists,
            final(self).message_view_height == old(self).message_view_height,
            final(self).member_view_height == old(self).member_view_height,
            final(self).focus == old(self).focus,
    {
        if self.active_guild != scope {
            self.selected_channel = 0;
            self.channel_scroll = 0;
        }
        self.active_guild = scope;
    }

    /// The last message the user had read in a channel, when newer messages exist: where
    /// the unread divider goes.
    pub open spec fn unread_anchor_spec(self, channel_id: u64) -> Option<u64> {
        let latest = match self.discord.channel_spec(channel_id) {
            Some(c) => c.last_message_id,
            None => None,
        };
        match (latest, self.discord.last_acked_spec(channel_id)) {
            (Some(l), Some(a)) => if l > a {
                Some(a)
            } else {
                None
            },
            _ => None,
        }
    }

    /// Opens a channel in the message pane: a channel other than the selected one starts
    /// with a fresh message view, outside the pinned view. The unread divider is placed
    /// after the last message read before, the channel is marked read, and its history is
    /// asked for when none is loaded.
    #[verifier::rlimit(30)]
    pub fn activate_channel(&mut self, channel_id: u64)
        ensures
            final(self).selected_guild == old(self).selected_guild,
            final(self).guild_scroll == old(self).guild_scroll,
            final(self).guild_keep_selection_visible == old(self).guild_keep_selection_visible,
            final(self).guild_view_height == old(self).guild_view_height,
            final(self).active_channel_id == Some(channel_id),
            old(self).active_channel_id != Some(channel_id) ==> {
                &&& final(self).selected_message == 0
                &&& final(self).message_scroll == 0
                &&& final(self).message_line_scroll == 0
                &&& final(self).message_auto_follow
                &&& final(self).new_messages_marker_message_id is None
                &&& final(self).pinned_message_view_channel_id is None
                &&& final(self).pinned_message_view_return_target is None
            },
            final(self).unread_divider_last_acked_id == old(self).unread_anchor_spec(channel_id),
            final(self).pending_unread_anchor_scroll == old(self).unread_anchor_spec(
                channel_id,
            ) is Some,
            final(self).discord.same_but_reads(old(self).discord),
            final(self).active_guild == old(self).active_guild,
            final(self).forum_post_lists == old(self).forum_post_lists,
            final(self).message_view_height == old(self).message_view_height,
            final(self).current_user == old(self).current_user,
            final(self).current_user_id == old(self).current_user_id,
            final(self).last_status == old(self).last_status,
            final(self).focus == old(self).focus,
            final(self).composer == old(self).composer,
    {
        if self.active_channel_id != Some(channel_id) {
            self.selected_message = 0;
            self.message_scroll = 0;
            self.message_line_scroll = 0;
            self.message_keep_selection_visible = true;
            self.message_auto_follow = true;
            self.new_messages_marker_message_id = None;
            self.pinned_message_view_channel_id = None;
            self.pinned_message_view_return_target = None;
        }
        self.active_channel_id = Some(channel_id);
        let latest = match find_index(&self.discord.channels, channel_id) {
            Some(i) => self.discord.channels[i].last_message_id,
            None => None,
        };
        let acked = match find_index(&self.discord.read_states, channel_id) {
            Some(i) => self.discord.read_states[i].last_acked_message_id,
            None => None,
        };
        let anchor = match (latest, acked) {
            (Some(l), Some(a)) => if l > a {
                Some(a)
            } else {
                None
            },
            _ => None,
        };
        self.unread_divider_last_acked_id = anchor;
        self.pending_unread_anchor_scroll = anchor.is_some();
        self.mark_channel_as_read(channel_id);
        if self.channel_messages_of(channel_id).len() == 0 {
            self.pending_commands.push(AppCommand::LoadMessageHistory { channel_id, before: None });
        }
    }

    /// Keeps every selection inside its pane and every viewport around its selection.
    pub fn clamp_selection_indices(&mut self)
        ensures
            final(self).selected_channel == clamp_index_spec(
                old(self).selected_channel as nat,
                old(self).channel_entries().len(),
            ),
            final(self).selected_message == clamp_index_spec(
                old(self).selected_message as nat,
                old(self).message_len_spec(),
            ),
            final(self).message_scroll == old(self).message_scroll,
            final(self).message_line_scroll == old(self).message_line_scroll,
            final(self).message_keep_selection_visible == old(self).message_keep_selection_visible,
            final(self).message_auto_follow == old(self).message_auto_follow,
            final(self).new_messages_marker_message_id == old(self).new_messages_marker_message_id,
            final(self).unread_divider_last_acked_id == old(self).unread_divider_last_acked_id,
            final(self).pending_unread_anchor_scroll == old(self).pending_unread_anchor_scroll,
            final(self).discord == old(self).discord,
            final(self).active_guild == old(self).active_guild,
            final(self).active_channel_id == old(self).active_channel_id,
            final(self).focus == old(self).focus,
            final(self).same_content(*old(self)),
            final(self).composer == old(self).composer,
            final(self).current_user == old(self).current_user,
            final(self).current_user_id == old(self).current_user_id,
            final(self).last_status == old(self).last_status,
            final(self).pending_commands == old(self).pending_commands,
            final(self).older_history_requests == old(self).older_history_requests,
            final(self).pinned_message_view_return_target == old(self).pinned_message_view_return_target,
            final(self).selected_guild == clamp_index_spec(
                old(self).selected_guild as nat,
                old(self).guild_len_spec(),
            ),
            final(self).guild_scroll == clamp_list_scroll_spec(
                final(self).selected_guild as nat,
                old(self).guild_scroll as nat,
                pane_content_height_spec(old(self).guild_view_height as nat),
                old(self).guild_len_spec(),
                old(self).guild_keep_selection_visible,
            ),
            final(self).guild_keep_selection_visible == old(self).guild_keep_selection_visible,
    {
        self.selected_message = self.selected_message();
        self.clamp_list_viewports();
    }


    /// The message view was showing the latest message before an event (or following it).
    pub open spec fn was_at_latest_spec(self) -> bool {
        self.message_auto_follow || self.viewport_at_latest_spec()
    }

    /// The message view was following the latest message: at the latest, cursor on it.
    pub open spec fn was_following_spec(self) -> bool {
        self.was_at_latest_spec() && self.cursor_on_last_spec()
    }

    /// The message pane shows a channel's messages (not a forum, not the pinned view).
    pub open spec fn in_message_view_spec(self) -> bool {
        !self.selected_channel_is_forum_spec() && !self.pinned_view_active_spec()
    }

    /// What the message view looked like before an event: at the latest message or not,
    /// following it or not, and the messages under the cursor and at the top of the viewport
    /// where those are to be kept.
    pub open spec fn view_snapshot_spec(self) -> MessageViewSnapshot {
        let was_at_latest = self.was_at_latest_spec();
        let was_following = self.was_following_spec();
        MessageViewSnapshot {
            was_at_latest,
            was_following,
            selected_message_id: if !was_following {
                self.message_id_at(
                    clamp_index_spec(self.selected_message as nat, self.message_len_spec()),
                )
            } else {
                None
            },
            scroll_message_id: if !was_at_latest {
                self.message_id_at(self.message_scroll as nat)
            } else {
                None
            },
        }
    }

    pub fn capture_message_view(&self) -> (snapshot: MessageViewSnapshot)
        ensures
            snapshot == self.view_snapshot_spec(),
    {
        let was_at_latest = self.message_auto_follow || self.is_viewport_at_latest_message();
        let was_following = was_at_latest && self.cursor_on_last_message();
        let selected_message_id = if !was_following {
            let i = self.selected_message();
            self.message_id_at_exec(i)
        } else {
            None
        };
        let scroll_message_id = if !was_at_latest {
            self.message_id_at_exec(self.message_scroll)
        } else {
            None
        };
        MessageViewSnapshot { was_at_latest, was_following, selected_message_id, scroll_message_id }
    }

    /// Records what an event says outside the client state: the user, a status line, the
    /// end of a history request, a forum page, a channel to open. Hands back the channel the
    /// channel pane's cursor should be on: an opened channel, or `cursor`.
    pub fn record_event(&mut self, event: &AppEvent, cursor: Option<u64>) -> (new_cursor: Option<
        u64,
    >)
        ensures
            *event matches AppEvent::Ready { user, user_id } ==> final(self).current_user == Some(
                user,
            ) && final(self).current_user_id == user_id,
            *event matches AppEvent::StatusMessage { message } ==> final(self).last_status == Some(
                message,
            ),
            *event matches AppEvent::MessageHistoryLoadFailed { channel_id, .. } ==> lookup(
                final(self).older_history_requests@,
                channel_id,
            ) is None,
            !((*event) is ActivateChannel) ==> final(self).discord == old(self).discord,
            final(self).discord.same_but_reads(old(self).discord),
            (*event) is MessageCreate ==> *final(self) == *old(self) && new_cursor == cursor,
            (*event) is ForumPostsLoaded ==> ({
                let (a0, r0, _) = old(self).forum_lists_of((*event)->ForumPostsLoaded_channel_id);
                final(self).forum_lists_of((*event)->ForumPostsLoaded_channel_id) == crate::message_view::forum_lists_after(
                    a0,
                    r0,
                    (*event)->archive_state,
                    (*event)->offset,
                    (*event)->posts@,
                    (*event)->has_more,
                )
            }),
            !((*event) is ForumPostsLoaded) ==> final(self).forum_post_lists == old(self).forum_post_lists,
            final(self).selected_guild == old(self).selected_guild,
            final(self).guild_scroll == old(self).guild_scroll,
            final(self).guild_keep_selection_visible == old(self).guild_keep_selection_visible,
            final(self).guild_view_height == old(self).guild_view_height,
            *event matches AppEvent::ActivateChannel { channel_id } ==> (old(self).discord.channel_spec(
                channel_id,
            ) matches Some(ch) ==> final(self).active_channel_id == Some(channel_id)
                && final(self).active_guild == (match ch.guild_id {
                Some(g) => ActiveGuildScope::Guild(g),
                None => ActiveGuildScope::DirectMessages,
            })),
    {
        match event {
            AppEvent::Ready { user, user_id } => {
                self.current_user = Some(user.clone());
                self.current_user_id = *user_id;
                cursor
            },
            AppEvent::StatusMessage { message } => {
                self.last_status = Some(message.clone());
                cursor
            },
            AppEvent::MessageHistoryLoadFailed { channel_id, .. } => {
                self.record_older_history_failed(*channel_id);
                cursor
            },
            AppEvent::ForumPostsLoaded { channel_id, archive_state, offset, posts, has_more, .. } => {
                self.record_forum_posts_loaded(
                    *channel_id,
                    *archive_state,
                    *offset,
                    posts.as_slice(),
                    *has_more,
                );
                cursor
            },
            AppEvent::MessageHistoryLoaded { channel_id, before, messages } => {
                self.record_older_history_loaded(*channel_id, *before, messages.as_slice());
                cursor
            },
            AppEvent::ActivateChannel { channel_id } => {
                let scope = match find_index(&self.discord.channels, *channel_id) {
                    Some(i) => match self.discord.channels[i].guild_id {
                        Some(g) => Some(ActiveGuildScope::Guild(g)),
                        None => Some(ActiveGuildScope::DirectMessages),
                    },
                    None => None,
                };
                match scope {
                    Some(scope) => {
                        self.activate_guild(scope);
                        self.activate_channel(*channel_id);
                        self.channel_keep_selection_visible = true;
                        Some(*channel_id)
                    },
                    None => cursor,
                }
            },
            _ => cursor,
        }
    }

    /// Moves the message view after an event as `snapshot` asks. A view that followed the
    /// latest message follows it still; one that showed the latest message keeps showing
    /// it, with a new message in it marked read (or, for the user's own, the unread divider
    /// retired); one that was reading older messages stays on the messages it was on and
    /// marks a new message from someone else as new.
    #[verifier::rlimit(100)]
    pub fn settle_message_view(
        &mut self,
        snapshot: MessageViewSnapshot,
        user_just_sent: bool,
        active_new_message: Option<(u64, u64)>,
    )
        ensures
            final(self).messages_spec() == old(self).messages_spec(),
            final(self).message_len_spec() == old(self).message_len_spec(),
            final(self).in_message_view_spec() == old(self).in_message_view_spec(),
            snapshot.following_after(*final(self)) ==> final(self).selected_message == (if final(self).message_len_spec() == 0 {
                0
            } else {
                (final(self).message_len_spec() - 1) as usize
            }),
            snapshot.scrolling_after(*final(self)) ==> final(self).message_auto_follow
                && final(self).new_messages_marker_message_id is None,
            !snapshot.scrolling_after(*final(self)) ==> final(self).message_auto_follow == (
            final(self).cursor_on_last_spec() && final(self).viewport_at_latest_spec()),
            snapshot.selected_message_id matches Some(id) ==> (old(self).message_position(id) matches Some(
                i,
            ) ==> (!snapshot.following_after(*final(self)) ==> final(self).selected_message == i)),
            active_new_message matches Some((_, m)) ==> (!snapshot.scrolling_after(*final(self))
                && final(self).in_message_view_spec() && !snapshot.was_at_latest && !user_just_sent
                && old(self).new_messages_marker_message_id is None && !final(self).message_auto_follow
                ==> final(self).new_messages_marker_message_id == Some(m)),
            final(self).discord.same_but_reads(old(self).discord),
            active_new_message is None ==> final(self).discord == old(self).discord,
            final(self).current_user == old(self).current_user,
            final(self).current_user_id == old(self).current_user_id,
            final(self).last_status == old(self).last_status,
            final(self).older_history_requests == old(self).older_history_requests,
            final(self).active_channel_id == old(self).active_channel_id,
            final(self).pinned_message_view_channel_id == old(self).pinned_message_view_channel_id,
            final(self).forum_post_lists == old(self).forum_post_lists,
            final(self).selected_guild == clamp_index_spec(
                old(self).selected_guild as nat,
                old(self).guild_len_spec(),
            ),
            final(self).guild_scroll == clamp_list_scroll_spec(
                final(self).selected_guild as nat,
                old(self).guild_scroll as nat,
                pane_content_height_spec(old(self).guild_view_height as nat),
                old(self).guild_len_spec(),
                old(self).guild_keep_selection_visible,
            ),
            final(self).guild_keep_selection_visible == old(self).guild_keep_selection_visible,
            final(self).guild_view_height == old(self).guild_view_height,
            final(self).discord.guilds == old(self).discord.guilds,
            old(self).new_messages_marker_message_id is Some && !snapshot.scrolling_after(*final(self))
                && !final(self).message_auto_follow ==> final(self).new_messages_marker_message_id
                == old(self).new_messages_marker_message_id,
    {
        let ghost mid = *self;
        let message_count = self.messages().len();
        assert(!mid.selected_channel_is_forum_spec() ==> mid.message_len_spec() == message_count);
        let in_message_view = !self.selected_channel_is_forum() && !self.is_pinned_message_view();
        let should_follow = snapshot.was_following && in_message_view;
        let should_scroll = should_follow || (snapshot.was_at_latest && in_message_view);
        if should_follow {
            self.follow_latest_message();
        } else {
            self.restore_message_position(snapshot.selected_message_id, snapshot.scroll_message_id);
            proof {
                if snapshot.selected_message_id is Some {
                    crate::dashboard::lemma_first_index_of_contains(
                        keys_of(mid.messages_spec()),
                        snapshot.selected_message_id->0,
                    );
                    if mid.message_position(snapshot.selected_message_id->0) is Some {
                        assert(!mid.selected_channel_is_forum_spec());
                        assert(self.selected_message < mid.message_len_spec());
                    }
                }
            }
        }
        if should_scroll {
            self.message_auto_follow = true;
            self.new_messages_marker_message_id = None;
            if let Some((channel_id, _)) = active_new_message {
                if user_just_sent {
                    self.unread_divider_last_acked_id = None;
                    self.pending_unread_anchor_scroll = false;
                } else {
                    self.mark_channel_as_read(channel_id);
                }
            }
        } else if in_message_view && !snapshot.was_at_latest && !user_just_sent
            && self.new_messages_marker_message_id.is_none() {
            self.new_messages_marker_message_id = match active_new_message {
                Some((_, m)) => Some(m),
                None => None,
            };
        }
        let ghost before_clamp = *self;
        assert(before_clamp.messages_spec() == mid.messages_spec());
        assert(before_clamp.message_len_spec() == mid.message_len_spec());
        assert(before_clamp.in_message_view_spec() == in_message_view);
        assert(before_clamp.selected_guild == mid.selected_guild
            && before_clamp.guild_scroll == mid.guild_scroll
            && before_clamp.guild_keep_selection_visible == mid.guild_keep_selection_visible
            && before_clamp.guild_view_height == mid.guild_view_height
            && before_clamp.discord.guilds == mid.discord.guilds);
        self.clamp_views_after_settle(should_scroll);
    }

    /// The end of `settle_message_view`: keeps every selection and viewport in range and,
    /// unless the view scrolls with new messages, works out again whether it follows them.
    #[verifier::rlimit(60)]
    fn clamp_views_after_settle(&mut self, should_scroll: bool)
        ensures
            final(self).selected_channel == clamp_index_spec(
                old(self).selected_channel as nat,
                old(self).channel_entries().len(),
            ),
            final(self).messages_spec() == old(self).messages_spec(),
            final(self).message_len_spec() == old(self).message_len_spec(),
            final(self).in_message_view_spec() == old(self).in_message_view_spec(),
            final(self).selected_message == clamp_index_spec(
                old(self).selected_message as nat,
                old(self).message_len_spec(),
            ),
            should_scroll ==> final(self).message_auto_follow == old(self).message_auto_follow
                && final(self).new_messages_marker_message_id == old(self).new_messages_marker_message_id,
            !should_scroll ==> final(self).message_auto_follow == (final(self).cursor_on_last_spec()
                && final(self).viewport_at_latest_spec()),
            !final(self).message_auto_follow ==> final(self).new_messages_marker_message_id
                == old(self).new_messages_marker_message_id,
            final(self).discord == old(self).discord,
            final(self).current_user == old(self).current_user,
            final(self).current_user_id == old(self).current_user_id,
            final(self).last_status == old(self).last_status,
            final(self).older_history_requests == old(self).older_history_requests,
            final(self).active_channel_id == old(self).active_channel_id,
            final(self).pinned_message_view_channel_id == old(self).pinned_message_view_channel_id,
            final(self).forum_post_lists == old(self).forum_post_lists,
            final(self).active_guild == old(self).active_guild,
            final(self).selected_guild == clamp_index_spec(
                old(self).selected_guild as nat,
                old(self).guild_len_spec(),
            ),
            final(self).guild_scroll == clamp_list_scroll_spec(
                final(self).selected_guild as nat,
                old(self).guild_scroll as nat,
                pane_content_height_spec(old(self).guild_view_height as nat),
                old(self).guild_len_spec(),
                old(self).guild_keep_selection_visible,
            ),
            final(self).guild_keep_selection_visible == old(self).guild_keep_selection_visible,
            final(self).guild_view_height == old(self).guild_view_height,
    {
        let ghost start = *self;
        self.clamp_list_viewports();
        let ghost listed = *self;
        assert(listed.messages_spec() == start.messages_spec());
        assert(listed.message_len_spec() == start.message_len_spec());
        assert(listed.in_message_view_spec() == start.in_message_view_spec());
        self.clamp_message_viewport();
        let ghost clamped = *self;
        assert(clamped.messages_spec() == start.messages_spec());
        assert(clamped.message_len_spec() == start.message_len_spec());
        assert(clamped.in_message_view_spec() == start.in_message_view_spec());
        if !should_scroll {
            self.refresh_message_auto_follow();
            assert(self.cursor_on_last_spec() == clamped.cursor_on_last_spec());
            assert(self.viewport_at_latest_spec() == clamped.viewport_at_latest_spec());
        }
    }

    /// After an event was applied: keeps the selections valid, puts the channel pane's
    /// cursor on `channel_cursor_id` where it is listed, drops a new-messages marker whose
    /// message is gone, then moves the message view as `settle_message_view` says.
    pub fn settle_after_event(
        &mut self,
        snapshot: MessageViewSnapshot,
        channel_cursor_id: Option<u64>,
        user_just_sent: bool,
        active_new_message: Option<(u64, u64)>,
    )
        ensures
            snapshot.following_after(*final(self)) ==> final(self).selected_message == (if final(self).message_len_spec() == 0 {
                0
            } else {
                (final(self).message_len_spec() - 1) as usize
            }),
            snapshot.scrolling_after(*final(self)) ==> final(self).message_auto_follow
                && final(self).new_messages_marker_message_id is None,
            !snapshot.scrolling_after(*final(self)) ==> final(self).message_auto_follow == (
            final(self).cursor_on_last_spec() && final(self).viewport_at_latest_spec()),
            snapshot.selected_message_id matches Some(id) ==> (final(self).message_position(id) matches Some(
                i,
            ) ==> (!snapshot.following_after(*final(self)) ==> final(self).selected_message == i)),
            active_new_message matches Some((_, m)) ==> (!snapshot.scrolling_after(*final(self))
                && final(self).in_message_view_spec() && !snapshot.was_at_latest && !user_just_sent
                && old(self).new_messages_marker_message_id is None && !final(self).message_auto_follow
                ==> final(self).new_messages_marker_message_id == Some(m)),
            final(self).discord.same_but_reads(old(self).discord),
            active_new_message is None ==> final(self).discord == old(self).discord,
            final(self).current_user == old(self).current_user,
            final(self).current_user_id == old(self).current_user_id,
            final(self).last_status == old(self).last_status,
            final(self).older_history_requests == old(self).older_history_requests,
            old(self).active_channel_id is Some && old(self).active_channel_valid(
                old(self).clamped_scope(),
            ) ==> final(self).active_channel_id == old(self).active_channel_id,
            final(self).selected_guild == clamp_index_spec(
                old(self).selected_guild as nat,
                old(self).guild_len_spec(),
            ),
            final(self).guild_scroll == clamp_list_scroll_spec(
                final(self).selected_guild as nat,
                old(self).guild_scroll as nat,
                pane_content_height_spec(old(self).guild_view_height as nat),
                old(self).guild_len_spec(),
                old(self).guild_keep_selection_visible,
            ),
            final(self).guild_keep_selection_visible == old(self).guild_keep_selection_visible,
            final(self).guild_view_height == old(self).guild_view_height,
            final(self).discord.guilds == old(self).discord.guilds,
            final(self).active_channel_id is Some ==> final(self).active_channel_id == old(
                self,
            ).active_channel_id && final(self).pinned_message_view_channel_id == old(
                self,
            ).pinned_message_view_channel_id && final(self).forum_post_lists == old(self).forum_post_lists,
            match old(self).new_messages_marker_message_id {
                Some(x) => keys_of(final(self).messages_spec()).contains(x)
                    && !snapshot.scrolling_after(*final(self)) && !final(self).message_auto_follow
                    ==> final(self).new_messages_marker_message_id == Some(x),
                None => true,
            },
    {
        self.clamp_active_selection();
        self.restore_channel_cursor(channel_cursor_id);
        self.clamp_selection_indices();
        let ghost clamped = *self;
        self.clear_missing_new_messages_marker();
        self.settle_message_view(snapshot, user_just_sent, active_new_message);
        proof {
            crate::scroll::lemma_clamp_list_scroll_idempotent(
                clamped.selected_guild as nat,
                old(self).guild_scroll as nat,
                pane_content_height_spec(old(self).guild_view_height as nat),
                old(self).guild_len_spec(),
                old(self).guild_keep_selection_visible,
            );
        }
    }

    /// Whether opening channel `c` leaves it open: the channel is known and is not a
    /// category, and it is a direct message or a channel the user may see of a known guild.
    pub open spec fn opens_channel_spec(self, c: u64) -> bool {
        match self.discord.channel_spec(c) {
            Some(ch) => ch.kind != ChannelKind::GuildCategory && match ch.guild_id {
                Some(g) => ch.viewable && lookup(self.discord.guilds@, g) is Some,
                None => true,
            },
            None => false,
        }
    }

    /// `fin` is this dashboard after it took `event` in (see `push_event_inner`).
    pub open spec fn after_event(self, fin: DashboardState, event: AppEvent, apply_discord: bool) -> bool {
        &&& (apply_discord ==> self.discord_after(fin.discord, event))
        &&& (!apply_discord ==> fin.discord.same_but_reads(self.discord))
        &&& (event matches AppEvent::Ready { user, user_id } ==> fin.current_user == Some(
                user,
            ) && fin.current_user_id == user_id)
        &&& (event matches AppEvent::StatusMessage { message } ==> fin.last_status == Some(
                message,
            ))
        &&& (event matches AppEvent::MessageHistoryLoadFailed { channel_id, .. } ==> lookup(
                fin.older_history_requests@,
                channel_id,
            ) is None)
        &&& fin.selected_guild == clamp_index_spec(self.selected_guild as nat, fin.guild_len_spec())
        &&& fin.guild_scroll == clamp_list_scroll_spec(
            fin.selected_guild as nat,
            self.guild_scroll as nat,
            pane_content_height_spec(self.guild_view_height as nat),
            fin.guild_len_spec(),
            self.guild_keep_selection_visible,
        )
        &&& (!apply_discord && event is MessageCreate && fin.active_channel_id is Some
            ==> fin.messages_spec() == self.messages_spec())
        &&& (fin.active_channel_id is None ==> fin.messages_spec().len() == 0)
        &&& (event is MessageCreate && fin.active_channel_id is Some ==> fin.active_channel_id
            == self.active_channel_id && fin.pinned_message_view_channel_id
            == self.pinned_message_view_channel_id && fin.forum_post_lists == self.forum_post_lists)
        &&& (event matches AppEvent::ActivateChannel { channel_id } ==> (self.opens_channel_spec(
                channel_id,
            ) ==> fin.active_channel_id == Some(channel_id)))
        &&& (({
                let following = self.was_following_spec() && fin.in_message_view_spec();
                let scrolling = following || (self.was_at_latest_spec()
                    && fin.in_message_view_spec());
                &&& following ==> fin.selected_message == (if fin.message_len_spec()
                    == 0 {
                    0
                } else {
                    (fin.message_len_spec() - 1) as usize
                })
                &&& scrolling ==> fin.message_auto_follow
                    && fin.new_messages_marker_message_id is None
                &&& !scrolling ==> fin.message_auto_follow == (fin.cursor_on_last_spec()
                    && fin.viewport_at_latest_spec())
                &&& (self.message_id_at(
                    clamp_index_spec(self.selected_message as nat, self.message_len_spec()),
                ) matches Some(id) ==> (fin.message_position(id) matches Some(i) ==> (
                !self.was_following_spec() ==> fin.selected_message == i)))
                &&& (self.active_new_message_spec(event) matches Some((_, m)) ==> (!scrolling
                    && fin.in_message_view_spec() && !self.was_at_latest_spec()
                    && !self.self_message_in_active_channel_spec(event)
                    && self.new_messages_marker_message_id is None
                    && !fin.message_auto_follow ==> fin.new_messages_marker_message_id
                    == Some(m)))
                &&& (event is MessageCreate ==> match self.new_messages_marker_message_id {
                    Some(x) => keys_of(fin.messages_spec()).contains(x) && !scrolling
                        && !fin.message_auto_follow ==> fin.new_messages_marker_message_id == Some(x),
                    None => true,
                })
            }))
    }

    /// Takes an event in: records what it says, lets the client state apply it when
    /// `apply_discord`, and moves the message view as `settle_after_event` says, from how
    /// the view looked before the event.
    #[verifier::rlimit(40)]
    pub fn push_event_inner(&mut self, event: AppEvent, apply_discord: bool)
        ensures
            old(self).after_event(*final(self), event, apply_discord),
    {
        let ghost o = *self;
        let snapshot = self.capture_message_view();
        let user_just_sent = self.event_is_self_message_in_active_channel(&event);
        let active_new_message = self.active_channel_message_create(&event);
        let cursor = self.selected_channel_cursor_id();
        let cursor = self.record_event(&event, cursor);
        let ghost recorded = *self;
        let ghost ev = event;
        if apply_discord {
            let discord_event = self.discord_event_for_apply(event);
            let ghost e = discord_event;
            self.discord.apply_event(discord_event);
            proof {
                lemma_applied_is_discord_after(o, recorded, ev, e, self.discord);
            }
        }
        let ghost applied_state = *self;
        self.settle_after_event(snapshot, cursor, user_just_sent, active_new_message);
        proof {
            if apply_discord && ev is MessageCreate {
                lemma_discord_after_ignores_reads(o, applied_state.discord, self.discord, ev);
            }
        }
    }


    /// Takes in an event that the client state has not seen yet, and applies it there too.
    pub fn push_event(&mut self, event: AppEvent)
        ensures
            old(self).after_event(*final(self), event, true),
    {
        self.push_event_inner(event, true);
    }

    /// Takes in an event whose effect on the client state is already in place.
    pub fn push_effect(&mut self, event: AppEvent)
        ensures
            old(self).after_event(*final(self), event, false),
    {
        self.push_event_inner(event, false);
    }

    /// Replaces what the client knows with a snapshot, keeping the user's identity where the
    /// snapshot lacks it, then keeps the selections valid and moves the message view as
    /// after an event that brought no message: a view that followed the latest message
    /// follows it, one reading older messages stays on them.
    pub fn restore_discord_snapshot(&mut self, discord: crate::discord_state::DiscordState)
        ensures
            old(self).channel_cursor_id_spec() matches Some(c) ==> (final(self).channel_row_of(c) matches Some(
                r,
            ) ==> final(self).selected_channel == r),
            final(self).discord.same_but_reads(discord),
            final(self).discord.read_states == discord.read_states,
            final(self).current_user == (if discord.current_user is Some {
                discord.current_user
            } else {
                old(self).current_user
            }),
            final(self).current_user_id == (if discord.current_user_id is Some {
                discord.current_user_id
            } else {
                old(self).current_user_id
            }),
            ({
                let snapshot = old(self).view_snapshot_spec();
                &&& snapshot.following_after(*final(self)) ==> final(self).selected_message == (
                if final(self).message_len_spec() == 0 {
                    0
                } else {
                    (final(self).message_len_spec() - 1) as usize
                })
                &&& snapshot.scrolling_after(*final(self)) ==> final(self).message_auto_follow
                &&& (snapshot.selected_message_id matches Some(id) ==> (final(self).message_position(
                    id,
                ) matches Some(i) ==> (!snapshot.following_after(*final(self))
                    ==> final(self).selected_message == i)))
            }),
    {
        let snapshot = self.capture_message_view();
        let cursor = self.selected_channel_cursor_id();
        self.discord = discord;
        match &self.discord.current_user {
            Some(user) => {
                self.current_user = Some(user.clone());
            },
            None => {},
        }
        if let Some(user_id) = self.discord.current_user_id {
            self.current_user_id = Some(user_id);
        }
        self.clamp_active_selection();
        let ghost scoped = *self;
        self.restore_channel_cursor(cursor);
        let ghost restored = *self;
        assert(restored.channel_entries() == scoped.channel_entries());
        proof {
            if cursor is Some {
                crate::dashboard::lemma_first_index_of_contains(
                    keys_of(restored.channel_entries()),
                    cursor->0,
                );
            }
        }
        self.clamp_selection_indices();
        let ghost clamped = *self;
        assert(clamped.channel_entries() == restored.channel_entries());
        self.settle_snapshot_view(snapshot);
        assert(self.channel_entries() == restored.channel_entries());
        proof {
            if let Some(c) = cursor {
                if let Some(r) = restored.channel_row_of(c) {
                    assert(restored.selected_channel == r);
                    assert(clamped.selected_channel == r);
                    assert(self.selected_channel == r);
                }
            }
        }
    }

    /// Moves the message view after a new snapshot as `snapshot` asks: follows the latest
    /// message, keeps showing it, or stays on the messages it was on.
    #[verifier::rlimit(100)]
    fn settle_snapshot_view(&mut self, snapshot: MessageViewSnapshot)
        ensures
            final(self).selected_channel == clamp_index_spec(
                old(self).selected_channel as nat,
                old(self).channel_entries().len(),
            ),
            final(self).active_guild == old(self).active_guild,
            final(self).discord == old(self).discord,
            final(self).current_user == old(self).current_user,
            final(self).current_user_id == old(self).current_user_id,
            final(self).messages_spec() == old(self).messages_spec(),
            final(self).message_len_spec() == old(self).message_len_spec(),
            final(self).in_message_view_spec() == old(self).in_message_view_spec(),
            snapshot.following_after(*final(self)) ==> final(self).selected_message == (if final(self).message_len_spec() == 0 {
                0
            } else {
                (final(self).message_len_spec() - 1) as usize
            }),
            snapshot.scrolling_after(*final(self)) ==> final(self).message_auto_follow,
            snapshot.selected_message_id matches Some(id) ==> (old(self).message_position(id) matches Some(
                i,
            ) ==> (!snapshot.following_after(*final(self)) ==> final(self).selected_message == i)),
    {
        let ghost mid = *self;
        let message_count = self.messages().len();
        assert(!mid.selected_channel_is_forum_spec() ==> mid.message_len_spec() == message_count);
        let in_message_view = !self.selected_channel_is_forum() && !self.is_pinned_message_view();
        let should_follow = snapshot.was_following && in_message_view;
        let should_scroll = should_follow || (snapshot.was_at_latest && in_message_view);
        if should_follow {
            self.follow_latest_message();
        } else {
            self.restore_message_position(snapshot.selected_message_id, snapshot.scroll_message_id);
            proof {
                if snapshot.selected_message_id is Some {
                    crate::dashboard::lemma_first_index_of_contains(
                        keys_of(mid.messages_spec()),
                        snapshot.selected_message_id->0,
                    );
                    if mid.message_position(snapshot.selected_message_id->0) is Some {
                        assert(!mid.selected_channel_is_forum_spec());
                        assert(self.selected_message < mid.message_len_spec());
                    }
                }
            }
        }
        if should_scroll {
            self.message_auto_follow = true;
        }
        let ghost before_clamp = *self;
        assert(before_clamp.messages_spec() == mid.messages_spec());
        assert(before_clamp.message_len_spec() == mid.message_len_spec());
        self.clamp_views_after_settle(should_scroll);
    }

}

} // verus!
