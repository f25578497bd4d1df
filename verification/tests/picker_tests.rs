use concord_core::dashboard::{DashboardState, FocusPane};
use concord_core::discord::{ChannelInfo, MemberInfo, MessageInfo, MessageReferenceInfo};
use concord_core::events::AppEvent;
use concord_core::mention_picker::MAX_MENTION_PICKER_VISIBLE;
use concord_core::mouse_input::{
    action_menu_row_target, handle_mouse, handle_mouse_event_at, pane_row_mouse_target,
    rect_contains, ActionMenuTarget, MouseAction, MouseClickTracker, MouseTarget, Rect,
};
use concord_core::profile::{
    parse_u64, parse_user_profile_response, reaction_user_info_from_raw, FriendStatus,
    RawMutualGuild, RawProfileUser, RawReactionUser, RawRoleId, RawUserProfile,
};
use concord_core::unread::UnreadBanner;
use concord_core::rest::forum_post_page;

fn channel(channel_id: u64, parent_id: Option<u64>, name: &str, kind: &str, last: Option<u64>) -> ChannelInfo {
    ChannelInfo {
        guild_id: Some(1),
        channel_id,
        parent_id,
        position: None,
        last_message_id: last,
        name: name.to_owned(),
        kind: kind.to_owned(),
        message_count: None,
        total_message_sent: None,
        thread_archived: None,
        thread_locked: None,
        thread_pinned: None,
    }
}

fn member(user_id: u64, display_name: &str, username: Option<&str>) -> MemberInfo {
    MemberInfo {
        user_id,
        display_name: display_name.to_owned(),
        username: username.map(str::to_owned),
        is_bot: false,
        avatar_url: None,
        role_ids: Vec::new(),
    }
}

fn message_create(message_id: u64, content: &str, kind: u8, reference: Option<u64>) -> AppEvent {
    AppEvent::MessageCreate {
        guild_id: Some(1),
        channel_id: 2,
        message_id,
        author_id: 99,
        author: "neo".to_owned(),
        content: Some(content.to_owned()),
        message_kind: kind,
        reference: reference.map(|channel_id| MessageReferenceInfo {
            channel_id: Some(channel_id),
            message_id: None,
        }),
        mentions: Vec::new(),
        sticker_names: Vec::new(),
        attachments: Vec::new(),
        embed_count: 0,
        forwarded_snapshots: Vec::new(),
    }
}

fn state_with(channels: Vec<ChannelInfo>, members: Vec<MemberInfo>) -> DashboardState {
    let mut state = DashboardState::new();
    state.push_event(AppEvent::GuildCreate {
        guild_id: 1,
        name: "guild".to_owned(),
        channels,
        members,
        roles: Vec::new(),
    });
    state.push_event(AppEvent::ActivateChannel { channel_id: 2 });
    state.focus_pane(FocusPane::Messages);
    state.set_message_view_height(20);
    state
}

fn picker_state() -> DashboardState {
    let mut state = state_with(
        vec![channel(2, None, "general", "GuildText", None)],
        vec![
            member(10, "Malcolm", Some("mal")),
            member(11, "alice", Some("wonder")),
            member(12, "Bob", Some("alpha")),
            member(13, "Zed", Some("zz")),
            member(14, "Alan", None),
        ],
    );
    state.start_composer();
    state
}

fn type_text(state: &mut DashboardState, text: &str) {
    for c in text.chars() {
        state.push_composer_char(c);
    }
}

#[test]
fn mention_candidates_rank_prefix_then_username_then_substring() {
    let mut state = picker_state();
    type_text(&mut state, "hi @al");
    assert_eq!(state.composer_mention_query().as_deref(), Some("al"));
    let names: Vec<String> = state
        .composer_mention_candidates()
        .into_iter()
        .map(|entry| entry.display_name)
        .collect();
    assert_eq!(names, vec!["Alan", "alice", "Bob", "Malcolm"]);
}

#[test]
fn mention_candidates_are_empty_while_picker_is_closed() {
    let mut state = picker_state();
    type_text(&mut state, "hello");
    assert!(state.composer_mention_candidates().is_empty());
}

#[test]
fn empty_mention_query_lists_everyone_alphabetically() {
    let mut state = picker_state();
    type_text(&mut state, "@");
    let names: Vec<String> = state
        .composer_mention_candidates()
        .into_iter()
        .map(|entry| entry.display_name)
        .collect();
    assert_eq!(names, vec!["Alan", "alice", "Bob", "Malcolm", "Zed"]);
}

#[test]
fn mention_candidates_are_capped() {
    let mut members = Vec::new();
    for id in 0..20u64 {
        members.push(member(100 + id, &format!("user{id:02}"), None));
    }
    let mut state = state_with(vec![channel(2, None, "general", "GuildText", None)], members);
    state.start_composer();
    type_text(&mut state, "@user");
    let candidates = state.composer_mention_candidates();
    assert_eq!(candidates.len(), MAX_MENTION_PICKER_VISIBLE);
    assert_eq!(candidates[0].display_name, "user00");
    assert_eq!(candidates[7].display_name, "user07");
}

#[test]
fn mention_selection_moves_within_the_list() {
    let mut state = picker_state();
    type_text(&mut state, "@al");
    state.move_composer_mention_selection(1);
    assert_eq!(state.composer_mention_selected(), 1);
    state.move_composer_mention_selection(10);
    assert_eq!(state.composer_mention_selected(), 3);
    state.move_composer_mention_selection(-10);
    assert_eq!(state.composer_mention_selected(), 0);
}

#[test]
fn confirming_a_mention_writes_the_name_and_sends_the_tag() {
    let mut state = picker_state();
    type_text(&mut state, "hi @al");
    state.move_composer_mention_selection(1);
    assert!(state.confirm_composer_mention());
    assert_eq!(state.composer_input(), "hi @alice ");
    assert_eq!(state.composer_mention_query(), None);
    type_text(&mut state, "there");
    let command = state.submit_composer();
    match command {
        Some(concord_core::events::AppCommand::SendMessage { content, .. }) => {
            assert_eq!(content, "hi <@11> there");
        }
        other => panic!("expected a send, got {other:?}"),
    }
}

#[test]
fn confirming_without_picker_changes_nothing() {
    let mut state = picker_state();
    type_text(&mut state, "plain");
    assert!(!state.confirm_composer_mention());
    assert_eq!(state.composer_input(), "plain");
}

#[test]
fn confirming_with_no_match_changes_nothing() {
    let mut state = picker_state();
    type_text(&mut state, "@qqq");
    assert!(!state.confirm_composer_mention());
    assert_eq!(state.composer_input(), "@qqq");
    assert_eq!(state.composer_mention_query().as_deref(), Some("qqq"));
}

#[test]
fn unread_banner_counts_messages_after_the_last_read_one() {
    let mut state = state_with(vec![channel(2, None, "general", "GuildText", None)], Vec::new());
    for id in 1..=3 {
        state.push_event(message_create(id, "text", 0, None));
    }
    assert_eq!(state.unread_banner(), None);
    state.unread_divider_last_acked_id = Some(1);
    assert_eq!(
        state.unread_banner(),
        Some(UnreadBanner {
            since_message_id: 1,
            unread_count: 2
        })
    );
    assert_eq!(state.unread_divider_message_index(), Some(1));
    assert!(state.should_draw_unread_divider_at(1));
    assert!(!state.should_draw_unread_divider_at(0));
    state.unread_divider_last_acked_id = Some(3);
    assert_eq!(state.unread_banner(), None);
    assert_eq!(state.unread_divider_message_index(), None);
}

fn thread_state(thread_last: Option<u64>) -> DashboardState {
    state_with(
        vec![
            channel(2, None, "general", "GuildText", None),
            channel(5, Some(2), "topic", "public_thread", thread_last),
        ],
        Vec::new(),
    )
}

#[test]
fn thread_preview_is_requested_for_unloaded_latest_message() {
    let mut state = thread_state(Some(50));
    state.push_event(message_create(1, "topic", 18, Some(5)));
    assert_eq!(state.missing_thread_preview_load_requests(), vec![(5, 50)]);
}

#[test]
fn thread_preview_found_by_name_without_reference() {
    let mut state = thread_state(Some(50));
    state.push_event(message_create(1, "  topic  ", 18, None));
    state.push_event(message_create(2, "topic", 0, None));
    assert_eq!(state.missing_thread_preview_load_requests(), vec![(5, 50)]);
}

#[test]
fn thread_preview_not_requested_once_latest_message_is_loaded() {
    let mut state = thread_state(Some(50));
    state.push_event(message_create(1, "topic", 18, Some(5)));
    state.push_event(AppEvent::MessageHistoryLoaded {
        channel_id: 5,
        before: None,
        messages: vec![MessageInfo {
            guild_id: Some(1),
            channel_id: 5,
            message_id: 50,
            author_id: 99,
            author: "neo".to_owned(),
            content: Some("reply".to_owned()),
            message_kind: 0,
            reference: None,
            sticker_names: Vec::new(),
            pinned: false,
            mentions: Vec::new(),
            attachments: Vec::new(),
            forwarded_snapshots: Vec::new(),
        }],
    });
    assert!(state.missing_thread_preview_load_requests().is_empty());
}

#[test]
fn thread_preview_not_requested_without_known_latest_message() {
    let mut state = thread_state(None);
    state.push_event(message_create(1, "topic", 18, Some(5)));
    assert!(state.missing_thread_preview_load_requests().is_empty());
}

#[test]
fn user_profile_parser_keeps_guild_member_roles() {
    let body = RawUserProfile {
        user: Some(RawProfileUser {
            id: Some("10".to_owned()),
            username: Some("test-user".to_owned()),
            global_name: None,
            avatar: None,
        }),
        bio: None,
        pronouns: None,
        mutual_guilds: None,
        mutual_friends_count: None,
        guild_nick: None,
        roles: Some(vec![
            RawRoleId::Text("90".to_owned()),
            RawRoleId::Text("91".to_owned()),
        ]),
    };
    let profile = parse_user_profile_response(10, &body, None);

    assert_eq!(profile.role_ids, vec![90, 91]);
}

#[test]
fn user_profile_parser_reads_every_field() {
    let body = RawUserProfile {
        user: Some(RawProfileUser {
            id: Some("10".to_owned()),
            username: Some("neo".to_owned()),
            global_name: Some(String::new()),
            avatar: Some("a_beef".to_owned()),
        }),
        bio: Some("hello".to_owned()),
        pronouns: Some(String::new()),
        mutual_guilds: Some(vec![
            RawMutualGuild {
                id: Some("1".to_owned()),
                nick: Some("n".to_owned()),
            },
            RawMutualGuild {
                id: Some("x".to_owned()),
                nick: None,
            },
            RawMutualGuild {
                id: Some("0".to_owned()),
                nick: None,
            },
        ]),
        mutual_friends_count: Some(5_000_000_000),
        guild_nick: Some("nick".to_owned()),
        roles: Some(vec![RawRoleId::Number(3), RawRoleId::Number(0), RawRoleId::Other]),
    };
    let profile = parse_user_profile_response(10, &body, Some("note".to_owned()));
    assert_eq!(profile.user_id, 10);
    assert_eq!(profile.username, "neo");
    assert_eq!(profile.global_name, None);
    assert_eq!(
        profile.avatar_url.as_deref(),
        Some("https://cdn.discordapp.com/avatars/10/a_beef.gif")
    );
    assert_eq!(profile.bio.as_deref(), Some("hello"));
    assert_eq!(profile.pronouns, None);
    assert_eq!(profile.mutual_guilds.len(), 1);
    assert_eq!(profile.mutual_guilds[0].guild_id, 1);
    assert_eq!(profile.mutual_guilds[0].nick.as_deref(), Some("n"));
    assert_eq!(profile.mutual_friends_count, u32::MAX);
    assert_eq!(profile.guild_nick.as_deref(), Some("nick"));
    assert_eq!(profile.role_ids, vec![3]);
    assert_eq!(profile.friend_status, FriendStatus::NoRelationship);
    assert_eq!(profile.note.as_deref(), Some("note"));
}

#[test]
fn user_profile_without_user_has_empty_username_and_png_avatar_rules() {
    let body = RawUserProfile {
        user: None,
        bio: None,
        pronouns: None,
        mutual_guilds: None,
        mutual_friends_count: Some(7),
        guild_nick: Some(String::new()),
        roles: None,
    };
    let profile = parse_user_profile_response(3, &body, None);
    assert_eq!(profile.username, "");
    assert_eq!(profile.avatar_url, None);
    assert_eq!(profile.mutual_friends_count, 7);
    assert_eq!(profile.guild_nick, None);
    assert!(profile.role_ids.is_empty());

    let body = RawUserProfile {
        user: Some(RawProfileUser {
            id: Some("42".to_owned()),
            username: None,
            global_name: Some("Neo".to_owned()),
            avatar: Some("cafe".to_owned()),
        }),
        ..body
    };
    let profile = parse_user_profile_response(42, &body, None);
    assert_eq!(profile.global_name.as_deref(), Some("Neo"));
    assert_eq!(
        profile.avatar_url.as_deref(),
        Some("https://cdn.discordapp.com/avatars/42/cafe.png")
    );
}

#[test]
fn numbers_are_read_as_std_reads_them() {
    assert_eq!(parse_u64("42"), Some(42));
    assert_eq!(parse_u64("+7"), Some(7));
    assert_eq!(parse_u64("18446744073709551615"), Some(u64::MAX));
    assert_eq!(parse_u64("18446744073709551616"), None);
    assert_eq!(parse_u64(""), None);
    assert_eq!(parse_u64("+"), None);
    assert_eq!(parse_u64("-1"), None);
    assert_eq!(parse_u64("1a"), None);
    for text in ["0", "+0", "00012", "999", "+", "++1", " 1", "12345678901234567890"] {
        assert_eq!(parse_u64(text), text.parse::<u64>().ok(), "{text}");
    }
}

#[test]
fn rect_contains_checks_both_edges() {
    let area = Rect {
        x: 2,
        y: 3,
        width: 4,
        height: 2,
    };
    assert!(rect_contains(area, 2, 3));
    assert!(rect_contains(area, 5, 4));
    assert!(!rect_contains(area, 6, 4));
    assert!(!rect_contains(area, 5, 5));
    assert!(!rect_contains(area, 1, 3));
}

#[test]
fn pane_row_target_counts_rows_inside_the_border() {
    let area = Rect {
        x: 0,
        y: 0,
        width: 10,
        height: 6,
    };
    assert_eq!(
        pane_row_mouse_target(area, FocusPane::Channels, 3, 1),
        Some(MouseTarget::PaneRow {
            pane: FocusPane::Channels,
            row: 0
        })
    );
    assert_eq!(
        pane_row_mouse_target(area, FocusPane::Channels, 3, 4),
        Some(MouseTarget::PaneRow {
            pane: FocusPane::Channels,
            row: 3
        })
    );
    assert_eq!(
        pane_row_mouse_target(area, FocusPane::Channels, 0, 2),
        Some(MouseTarget::Pane(FocusPane::Channels))
    );
    assert_eq!(pane_row_mouse_target(area, FocusPane::Channels, 11, 2), None);
}

#[test]
fn action_menu_click_outside_items_hits_backdrop() {
    let popup = Rect {
        x: 10,
        y: 5,
        width: 20,
        height: 5,
    };
    assert_eq!(
        action_menu_row_target(Some(popup), 2, ActionMenuTarget::Guild, 12, 6),
        Some(MouseTarget::ActionRow {
            menu: ActionMenuTarget::Guild,
            row: 0
        })
    );
    assert_eq!(
        action_menu_row_target(Some(popup), 2, ActionMenuTarget::Guild, 12, 8),
        Some(MouseTarget::ModalBackdrop)
    );
    assert_eq!(
        action_menu_row_target(Some(popup), 2, ActionMenuTarget::Guild, 0, 0),
        Some(MouseTarget::ModalBackdrop)
    );
    assert_eq!(
        action_menu_row_target(None, 2, ActionMenuTarget::Guild, 12, 6),
        Some(MouseTarget::ModalBackdrop)
    );
}

#[test]
fn double_click_needs_same_target_within_delay() {
    let mut clicks = MouseClickTracker::new();
    let target = MouseTarget::Pane(FocusPane::Guilds);
    assert!(!clicks.record_left_click_at(target, 1_000));
    assert!(clicks.record_left_click_at(target, 1_400));
    assert!(!clicks.record_left_click_at(target, 1_500));
    assert!(!clicks.record_left_click_at(target, 2_100));
    assert!(!clicks.record_left_click_at(MouseTarget::Composer, 2_200));
}

#[test]
fn wheel_focuses_pane_under_pointer() {
    let mut state = thread_state(None);
    let mut clicks = MouseClickTracker::new();
    let outcome = handle_mouse_event_at(
        &mut state,
        MouseAction::ScrollDown,
        Some(MouseTarget::Pane(FocusPane::Channels)),
        Some(FocusPane::Channels),
        &mut clicks,
        0,
    );
    assert!(outcome.handled);
    assert_eq!(state.focus(), FocusPane::Channels);
}

#[test]
fn clicking_nothing_is_ignored_and_release_is_absorbed() {
    let mut state = thread_state(None);
    assert!(!handle_mouse(&mut state, MouseAction::LeftDown, None, None));
    assert!(handle_mouse(&mut state, MouseAction::LeftUp, None, None));
    assert!(!handle_mouse(&mut state, MouseAction::Other, None, None));
    assert!(handle_mouse(
        &mut state,
        MouseAction::LeftDown,
        Some(MouseTarget::Pane(FocusPane::Members)),
        None
    ));
    assert_eq!(state.focus(), FocusPane::Members);
}

fn dm_message(channel_id: u64, content: &str) -> AppEvent {
    AppEvent::MessageCreate {
        guild_id: None,
        channel_id,
        message_id: 77,
        author_id: 99,
        author: "trinity".to_owned(),
        content: Some(content.to_owned()),
        message_kind: 0,
        reference: None,
        mentions: Vec::new(),
        sticker_names: Vec::new(),
        attachments: Vec::new(),
        embed_count: 0,
        forwarded_snapshots: Vec::new(),
    }
}

#[test]
fn direct_message_notifies_with_author_title_and_squeezed_text() {
    let mut state = thread_state(None);
    let mut dm = channel(30, None, "trinity", "dm", None);
    dm.guild_id = None;
    state.push_event(AppEvent::ChannelUpsert(dm));
    let notification = state
        .desktop_notification_for_event_at(&dm_message(30, "  wake \n  up  "), (0, 0))
        .expect("a direct message notifies");
    assert_eq!(notification.title, "trinity");
    assert_eq!(notification.body, "wake up");
}

#[test]
fn message_in_open_channel_does_not_notify() {
    let state = thread_state(None);
    let mut event = dm_message(2, "hello");
    if let AppEvent::MessageCreate { guild_id, .. } = &mut event {
        *guild_id = Some(1);
    }
    assert!(state.desktop_notification_for_event_at(&event, (0, 0)).is_none());
}

#[test]
fn reaction_user_prefers_display_name_over_username() {
    let raw = |id: Option<&str>, global: Option<&str>, user: Option<&str>| RawReactionUser {
        id: id.map(str::to_owned),
        global_name: global.map(str::to_owned),
        username: user.map(str::to_owned),
    };
    let user = reaction_user_info_from_raw(&raw(Some("5"), Some("Neo"), Some("neo"))).unwrap();
    assert_eq!((user.user_id, user.display_name.as_str()), (5, "Neo"));
    let user = reaction_user_info_from_raw(&raw(Some("5"), Some(""), Some("neo"))).unwrap();
    assert_eq!(user.display_name, "neo");
    assert!(reaction_user_info_from_raw(&raw(Some("5"), None, None)).is_none());
    assert!(reaction_user_info_from_raw(&raw(Some("0"), Some("Neo"), None)).is_none());
    assert!(reaction_user_info_from_raw(&raw(None, Some("Neo"), None)).is_none());
}

#[test]
fn unread_anchor_jump_happens_once() {
    let mut state = state_with(vec![channel(2, None, "general", "GuildText", None)], Vec::new());
    for id in 1..=5 {
        state.push_event(message_create(id, "text", 0, None));
    }
    state.try_apply_unread_anchor_scroll();
    assert_eq!(state.selected_message(), 4);

    state.unread_divider_last_acked_id = Some(3);
    state.pending_unread_anchor_scroll = true;
    state.try_apply_unread_anchor_scroll();
    assert_eq!(state.selected_message(), 3);
    assert_eq!(state.message_scroll, 2);
    assert!(!state.message_auto_follow);
    assert!(!state.pending_unread_anchor_scroll);

    state.jump_bottom();
    state.try_apply_unread_anchor_scroll();
    assert_eq!(state.selected_message(), 4);
}

fn thread_message(message_id: u64, channel_id: u64, content: Option<&str>) -> MessageInfo {
    MessageInfo {
        guild_id: Some(1),
        channel_id,
        message_id,
        author_id: 99,
        author: "neo".to_owned(),
        content: content.map(str::to_owned),
        message_kind: 0,
        reference: None,
        sticker_names: Vec::new(),
        pinned: false,
        mentions: Vec::new(),
        attachments: Vec::new(),
        forwarded_snapshots: Vec::new(),
    }
}

#[test]
fn thread_summary_reports_thread_and_preview() {
    let mut thread = channel(5, Some(2), "topic", "public_thread", Some(50));
    thread.message_count = Some(3);
    thread.thread_archived = Some(true);
    let mut state = state_with(
        vec![channel(2, None, "general", "GuildText", None), thread],
        Vec::new(),
    );
    state.push_event(message_create(1, "topic", 18, Some(5)));
    state.push_event(AppEvent::MessageHistoryLoaded {
        channel_id: 5,
        before: None,
        messages: vec![
            thread_message(49, 5, Some("old")),
            thread_message(50, 5, Some("  newest   reply ")),
        ],
    });
    let message = state.messages()[0].clone();
    let summary = state.thread_summary_for_message(&message).expect("thread known");
    assert_eq!(summary.channel_id, 5);
    assert_eq!(summary.name, "topic");
    assert_eq!(summary.message_count, Some(3));
    assert_eq!(summary.archived, Some(true));
    assert_eq!(summary.latest_message_id, Some(50));
    let preview = summary.latest_message_preview.expect("newest message loaded");
    assert_eq!(preview.author, "neo");
    assert_eq!(preview.content, "newest reply");

    let plain = state.messages()[0].clone();
    let mut plain = plain;
    plain.message_kind = 0;
    assert!(state.thread_summary_for_message(&plain).is_none());
}

#[test]
fn thread_summary_preview_falls_back_for_empty_and_missing_text() {
    let mut state = thread_state(None);
    state.push_event(message_create(1, "topic", 18, Some(5)));
    state.push_event(AppEvent::MessageHistoryLoaded {
        channel_id: 5,
        before: None,
        messages: vec![thread_message(60, 5, Some("   "))],
    });
    let message = state.messages()[0].clone();
    let summary = state.thread_summary_for_message(&message).unwrap();
    assert_eq!(summary.latest_message_id, Some(60));
    assert_eq!(summary.latest_message_preview.unwrap().content, "<empty message>");
}

#[test]
fn forum_search_page_keeps_forum_threads_and_their_previews() {
    let mut orphan = channel(11, None, "orphan", "public_thread", None);
    orphan.parent_id = None;
    let page = forum_post_page(
        vec![
            channel(10, Some(20), "post", "public_thread", None),
            orphan,
            channel(12, Some(99), "elsewhere", "public_thread", None),
        ],
        vec![thread_message(300, 10, Some("welcome")), thread_message(301, 12, Some("x"))],
        vec![thread_message(300, 10, Some("welcome again")), thread_message(302, 11, None)],
        Vec::new(),
        20,
        5,
        true,
    );
    let ids: Vec<u64> = page.posts.iter().map(|post| post.channel_id).collect();
    assert_eq!(ids, vec![10, 11]);
    assert_eq!(page.posts[1].parent_id, Some(20));
    let previews: Vec<u64> = page.preview_messages.iter().map(|m| m.message_id).collect();
    assert_eq!(previews, vec![300, 302]);
    assert_eq!(page.preview_messages[0].content.as_deref(), Some("welcome"));
    assert_eq!(page.next_offset, 7);
    assert!(page.has_more);
}
