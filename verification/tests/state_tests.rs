use concord_core::composer_view::format_file_size;
use concord_core::dashboard::{DashboardState, FocusPane};
use concord_core::desktop_notify::message_notification_body;
use concord_core::discord::{ChannelInfo, MentionInfo, MessageAttachmentUpload};
use concord_core::events::{AppCommand, AppEvent};
use concord_core::notifications::ChannelUnreadState;
use concord_core::scroll::{clamp_selected_index, move_index_down, move_index_up};

fn channel_info(guild_id: Option<u64>, channel_id: u64, name: &str, kind: &str) -> ChannelInfo {
    ChannelInfo {
        guild_id,
        channel_id,
        parent_id: None,
        position: None,
        last_message_id: None,
        name: name.to_owned(),
        kind: kind.to_owned(),
        message_count: None,
        total_message_sent: None,
        thread_archived: None,
        thread_locked: None,
        thread_pinned: None,
    }
}

fn message_create(message_id: u64, author_id: u64, content: &str) -> AppEvent {
    AppEvent::MessageCreate {
        guild_id: Some(1),
        channel_id: 2,
        message_id,
        author_id,
        author: "neo".to_owned(),
        content: Some(content.to_owned()),
        message_kind: 0,
        reference: None,
        mentions: Vec::new(),
        sticker_names: Vec::new(),
        attachments: Vec::new(),
        embed_count: 0,
        forwarded_snapshots: Vec::new(),
    }
}

fn state_in_channel() -> DashboardState {
    let mut state = DashboardState::new();
    state.push_event(AppEvent::Ready {
        user: "me".to_owned(),
        user_id: Some(7),
    });
    state.push_event(AppEvent::GuildCreate {
        guild_id: 1,
        name: "guild".to_owned(),
        channels: vec![channel_info(Some(1), 2, "general", "GuildText")],
        members: Vec::new(),
        roles: Vec::new(),
    });
    state.push_event(AppEvent::ActivateChannel { channel_id: 2 });
    state.focus_pane(FocusPane::Messages);
    state
}

fn typed(state: &mut DashboardState, text: &str) {
    for c in text.chars() {
        state.push_composer_char(c);
    }
}

#[test]
fn ready_event_records_the_user() {
    let state = state_in_channel();
    assert_eq!(state.current_user(), Some("me"));
}

#[test]
fn status_message_event_is_kept() {
    let mut state = DashboardState::new();
    state.push_event(AppEvent::StatusMessage {
        message: "connected".to_owned(),
    });
    assert_eq!(state.last_status.as_deref(), Some("connected"));
}

#[test]
fn activating_a_channel_selects_it_and_asks_for_history() {
    let mut state = state_in_channel();
    assert_eq!(state.selected_channel_id(), Some(2));
    let commands = state.drain_pending_commands();
    assert!(commands.iter().any(|command| matches!(
        command,
        AppCommand::LoadMessageHistory { channel_id: 2, before: None }
    )));
}

#[test]
fn view_following_latest_message_follows_new_ones() {
    let mut state = state_in_channel();
    for id in 1..=5 {
        state.push_event(message_create(id, 99, &format!("message {id}")));
    }
    assert_eq!(state.messages().len(), 5);
    assert_eq!(state.selected_message(), 4);
    assert!(state.message_auto_follow());
    assert_eq!(state.new_messages_marker_message_id(), None);
}

#[test]
fn reading_older_messages_keeps_cursor_and_marks_new_message() {
    let mut state = state_in_channel();
    state.set_message_view_height(3);
    for id in 1..=10 {
        state.push_event(message_create(id, 99, &format!("message {id}")));
    }
    state.jump_top();
    let selected_id = state.selected_message_state().map(|message| message.id);
    assert_eq!(selected_id, Some(1));

    state.push_event(message_create(11, 99, "newest"));

    assert_eq!(
        state.selected_message_state().map(|message| message.id),
        Some(1)
    );
    assert_eq!(state.new_messages_marker_message_id(), Some(11));
}

#[test]
fn own_message_does_not_pull_a_reader_down() {
    let mut state = state_in_channel();
    state.set_message_view_height(3);
    for id in 1..=10 {
        state.push_event(message_create(id, 99, &format!("message {id}")));
    }
    state.jump_top();

    state.push_event(message_create(11, 7, "my reply"));

    assert_eq!(
        state.selected_message_state().map(|message| message.id),
        Some(1)
    );
    assert_eq!(state.new_messages_marker_message_id(), None);
}

#[test]
fn duplicate_message_is_kept_once() {
    let mut state = state_in_channel();
    state.push_event(message_create(1, 99, "hello"));
    state.push_event(message_create(1, 99, "hello again"));
    assert_eq!(state.messages().len(), 1);
    assert_eq!(state.messages()[0].content.as_deref(), Some("hello"));
}

#[test]
fn typing_then_backspace_restores_text() {
    let mut state = state_in_channel();
    state.start_composer();
    typed(&mut state, "héllo");
    state.move_composer_cursor_left();
    let before = state.composer_input();
    let cursor = state.composer_cursor_byte_index();

    state.push_composer_char('x');
    assert_eq!(state.composer_input(), "héllxo");
    state.pop_composer_char();

    assert_eq!(state.composer_input(), before);
    assert_eq!(state.composer_cursor_byte_index(), cursor);
}

#[test]
fn composer_cursor_reports_utf8_byte_offset() {
    let mut state = state_in_channel();
    state.start_composer();
    typed(&mut state, "é漢a");
    assert_eq!(state.composer_cursor_byte_index(), 6);
    state.move_composer_cursor_home();
    assert_eq!(state.composer_cursor_byte_index(), 0);
    state.move_composer_cursor_right();
    assert_eq!(state.composer_cursor_byte_index(), 2);
    state.move_composer_cursor_end();
    assert_eq!(state.composer_cursor_byte_index(), 6);
    state.move_composer_cursor_right();
    assert_eq!(state.composer_cursor_byte_index(), 6);
}

#[test]
fn delete_removes_character_after_cursor() {
    let mut state = state_in_channel();
    state.start_composer();
    typed(&mut state, "abc");
    state.move_composer_cursor_home();
    state.delete_composer_char();
    assert_eq!(state.composer_input(), "bc");
    state.move_composer_cursor_end();
    state.delete_composer_char();
    assert_eq!(state.composer_input(), "bc");
}

#[test]
fn mention_query_opens_after_at_sign_and_closes_after_space() {
    let mut state = state_in_channel();
    state.start_composer();
    typed(&mut state, "hi @al");
    assert_eq!(state.composer_mention_query().as_deref(), Some("al"));
    state.push_composer_char(' ');
    assert_eq!(state.composer_mention_query(), None);
}

#[test]
fn mention_query_does_not_open_inside_a_word() {
    let mut state = state_in_channel();
    state.start_composer();
    typed(&mut state, "mail@example");
    assert_eq!(state.composer_mention_query(), None);
}

#[test]
fn cancel_mention_keeps_typed_text() {
    let mut state = state_in_channel();
    state.start_composer();
    typed(&mut state, "@bo");
    state.cancel_composer_mention();
    assert_eq!(state.composer_mention_query(), None);
    assert_eq!(state.composer_input(), "@bo");
}

#[test]
fn submit_sends_trimmed_text_and_keeps_composer_open() {
    let mut state = state_in_channel();
    state.start_composer();
    typed(&mut state, "  hello there \n");
    let command = state.submit_composer();
    match command {
        Some(AppCommand::SendMessage {
            channel_id,
            content,
            reply_to,
            attachments,
        }) => {
            assert_eq!(channel_id, 2);
            assert_eq!(content, "hello there");
            assert_eq!(reply_to, None);
            assert!(attachments.is_empty());
        }
        other => panic!("expected a message to send, got {other:?}"),
    }
    assert!(state.is_composing());
    assert_eq!(state.composer_input(), "");
}

#[test]
fn submit_of_blank_text_sends_nothing() {
    let mut state = state_in_channel();
    state.start_composer();
    typed(&mut state, "   ");
    assert!(state.submit_composer().is_none());
    assert_eq!(state.composer_input(), "   ");
}

#[test]
fn submit_answers_the_reply_target() {
    let mut state = state_in_channel();
    state.push_event(message_create(1, 99, "question"));
    state.start_reply_composer();
    typed(&mut state, "answer");
    match state.submit_composer() {
        Some(AppCommand::SendMessage { reply_to, content, .. }) => {
            assert_eq!(reply_to, Some(1));
            assert_eq!(content, "answer");
        }
        other => panic!("expected a reply, got {other:?}"),
    }
}

#[test]
fn edit_of_own_message_sends_edit_command() {
    let mut state = state_in_channel();
    state.push_event(message_create(1, 7, "typo"));
    state.start_edit_composer();
    assert_eq!(state.composer_input(), "typo");
    state.pop_composer_char();
    typed(&mut state, "o!");
    match state.submit_composer() {
        Some(AppCommand::EditMessage {
            channel_id,
            message_id,
            content,
        }) => {
            assert_eq!((channel_id, message_id), (2, 1));
            assert_eq!(content, "typo!");
        }
        other => panic!("expected an edit, got {other:?}"),
    }
    assert!(!state.is_composing());
}

#[test]
fn editing_someone_elses_message_is_refused() {
    let mut state = state_in_channel();
    state.push_event(message_create(1, 99, "not mine"));
    state.start_edit_composer();
    assert!(!state.is_composing());
}

#[test]
fn editing_a_system_message_is_refused() {
    let mut state = state_in_channel();
    let mut event = message_create(1, 7, "thread name");
    if let AppEvent::MessageCreate { message_kind, .. } = &mut event {
        *message_kind = 18;
    }
    state.push_event(event);
    state.start_edit_composer();
    assert!(!state.is_composing());

    let mut reply = message_create(2, 7, "my reply");
    if let AppEvent::MessageCreate { message_kind, .. } = &mut reply {
        *message_kind = 19;
    }
    state.push_event(reply);
    state.start_edit_composer();
    assert!(state.is_composing());
    assert_eq!(state.composer_input(), "my reply");
}

#[test]
fn attachments_are_capped_and_popped() {
    let mut state = state_in_channel();
    state.start_composer();
    let uploads: Vec<_> = (0..12)
        .map(|i| MessageAttachmentUpload {
            path: format!("/tmp/f{i}"),
            filename: format!("f{i}"),
            size_bytes: 1,
        })
        .collect();
    state.add_pending_composer_attachments(uploads);
    assert_eq!(state.pending_composer_attachments().len(), 10);
    state.pop_pending_composer_attachment();
    assert_eq!(state.pending_composer_attachments().len(), 9);
    assert_eq!(state.pending_composer_attachments()[8].filename, "f8");
}

#[test]
fn cancel_composer_clears_everything() {
    let mut state = state_in_channel();
    state.start_composer();
    typed(&mut state, "draft");
    state.cancel_composer();
    assert!(!state.is_composing());
    assert_eq!(state.composer_input(), "");
    assert_eq!(state.composer_cursor_byte_index(), 0);
}

#[test]
fn forum_channel_refuses_composer() {
    let mut state = DashboardState::new();
    state.push_event(AppEvent::GuildCreate {
        guild_id: 1,
        name: "guild".to_owned(),
        channels: vec![channel_info(Some(1), 3, "forum", "GuildForum")],
        members: Vec::new(),
        roles: Vec::new(),
    });
    state.push_event(AppEvent::ActivateChannel { channel_id: 3 });
    assert!(!state.can_send_in_selected_channel());
    state.start_composer();
    assert!(!state.is_composing());
}

#[test]
fn notification_body_collapses_whitespace_and_truncates() {
    assert_eq!(
        message_notification_body(Some("  hello \n\t world  "), 0, 0, 0),
        "hello world"
    );
    let long = "x".repeat(250);
    let body = message_notification_body(Some(&long), 0, 0, 0);
    assert_eq!(body.chars().count(), 203);
    assert!(body.ends_with("..."));
    assert_eq!(
        message_notification_body(Some(""), 1, 2, 0),
        "sent 2 attachment(s)"
    );
    assert_eq!(message_notification_body(None, 3, 0, 0), "sent 3 sticker(s)");
    assert_eq!(message_notification_body(None, 0, 0, 4), "sent 4 embed(s)");
    assert_eq!(message_notification_body(None, 0, 0, 0), "sent a message");
}

#[test]
fn file_sizes_are_written_for_people() {
    let text = |bytes: u64| format_file_size(bytes).into_iter().collect::<String>();
    assert_eq!(text(512), "512 B");
    assert_eq!(text(2_048), "2.0 KiB");
    assert_eq!(text(1_536), "1.5 KiB");
    assert_eq!(text(78_364_758), "74.7 MiB");
}

#[test]
fn channel_with_newer_message_is_unread_until_opened() {
    let mut state = DashboardState::new();
    let mut channel = channel_info(Some(1), 2, "general", "GuildText");
    channel.last_message_id = Some(50);
    state.push_event(AppEvent::GuildCreate {
        guild_id: 1,
        name: "guild".to_owned(),
        channels: vec![channel],
        members: Vec::new(),
        roles: Vec::new(),
    });
    assert_eq!(state.channel_unread(2), ChannelUnreadState::Unread);
    state.push_event(AppEvent::ActivateChannel { channel_id: 2 });
    assert_eq!(state.channel_unread(2), ChannelUnreadState::Seen);
}

#[test]
fn mention_of_current_user_counts_as_mention() {
    let mut state = state_in_channel();
    let event = AppEvent::MessageCreate {
        guild_id: Some(1),
        channel_id: 5,
        message_id: 9,
        author_id: 99,
        author: "neo".to_owned(),
        content: Some("hi <@7>".to_owned()),
        message_kind: 0,
        reference: None,
        mentions: vec![MentionInfo {
            user_id: 7,
            guild_nick: None,
            display_name: "me".to_owned(),
        }],
        sticker_names: Vec::new(),
        attachments: Vec::new(),
        embed_count: 0,
        forwarded_snapshots: Vec::new(),
    };
    assert!(state.discord.message_event_triggers_notification(&event));
    let own = message_create(10, 7, "my own");
    assert!(!state.discord.message_event_triggers_notification(&own));
    state.quit();
    assert!(state.should_quit());
}

#[test]
fn list_indices_stay_in_range() {
    assert_eq!(clamp_selected_index(10, 3), 2);
    assert_eq!(clamp_selected_index(1, 3), 1);
    assert_eq!(clamp_selected_index(5, 0), 0);
    let mut index = 2;
    move_index_down(&mut index, 3);
    assert_eq!(index, 2);
    move_index_up(&mut index);
    assert_eq!(index, 1);
}

#[test]
fn focus_cycles_through_visible_panes_and_back() {
    let mut state = DashboardState::new();
    state.set_channel_pane_visibility(false);
    state.focus_pane(FocusPane::Guilds);
    state.cycle_focus();
    assert_eq!(state.focus(), FocusPane::Messages);
    state.cycle_focus_backward();
    assert_eq!(state.focus(), FocusPane::Guilds);
}

#[test]
fn pinned_view_round_trip_restores_position() {
    let mut state = state_in_channel();
    state.set_message_view_height(3);
    for id in 1..=6 {
        state.push_event(message_create(id, 99, "m"));
    }
    state.jump_top();
    state.enter_pinned_message_view(2);
    assert!(state.is_pinned_message_view());
    assert!(state.return_from_pinned_message_view());
    assert!(!state.is_pinned_message_view());
    assert_eq!(state.selected_message(), 0);
}

#[test]
fn older_history_is_requested_once() {
    let mut state = state_in_channel();
    for id in 5..=6 {
        state.push_event(message_create(id, 99, "m"));
    }
    let _ = state.drain_pending_commands();
    assert!(state.next_older_history_command().is_none());
    state.jump_top();
    let first = state.next_older_history_command();
    assert!(matches!(
        first,
        Some(AppCommand::LoadMessageHistory { channel_id: 2, before: Some(5) })
    ));
    assert!(state.next_older_history_command().is_none());
    state.push_event(AppEvent::MessageHistoryLoadFailed {
        channel_id: 2,
        message: "boom".to_owned(),
    });
    assert!(state.next_older_history_command().is_some());
}

#[test]
fn guild_row_can_be_selected_after_the_guild_arrives() {
    let mut state = DashboardState::new();
    state.push_event(AppEvent::GuildCreate {
        guild_id: 1,
        name: "guild".to_owned(),
        channels: vec![channel_info(Some(1), 2, "general", "GuildText")],
        members: Vec::new(),
        roles: Vec::new(),
    });
    // The pane shows one row and keeps the selected guild (the new one) on it.
    assert!(state.select_visible_pane_row(FocusPane::Guilds, 0));
    assert!(!state.select_visible_pane_row(FocusPane::Guilds, 1));
}
