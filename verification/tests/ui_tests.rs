use concord_core::dashboard::{DashboardState, FocusPane};
use concord_core::discord::{
    AttachmentInfo, ChannelInfo, MemberInfo, MentionInfo, MessageInfo, MessageSnapshotInfo,
    PresenceStatus, RoleInfo,
};
use concord_core::discord_state::{GuildMemberState, MessageState, ReadState};
use concord_core::notifications::ChannelUnreadState;
use concord_core::events::AppEvent;
use concord_core::composer_view::composer_prompt_line_count;
use concord_core::message_format::{
    format_message_content, format_message_content_lines, MessageContentLine,
};
use concord_core::text_layout::{
    member_display_label, truncate_display_width, truncate_display_width_from, wrap_text_lines,
};
use unicode_width::UnicodeWidthStr;

fn line_texts(lines: &[MessageContentLine]) -> Vec<&str> {
    lines.iter().map(|line| line.text.as_str()).collect()
}

fn channel_info(guild_id: Option<u64>, channel_id: u64, name: &str) -> ChannelInfo {
    ChannelInfo {
        guild_id,
        channel_id,
        parent_id: None,
        position: None,
        last_message_id: None,
        name: name.to_owned(),
        kind: "GuildText".to_owned(),
        message_count: None,
        total_message_sent: None,
        thread_archived: None,
        thread_locked: None,
        thread_pinned: None,
    }
}

fn message_create(message_id: u64, content: &str) -> AppEvent {
    AppEvent::MessageCreate {
        guild_id: Some(1),
        channel_id: 2,
        message_id,
        author_id: 99,
        author: "neo".to_owned(),
        content: Some(content.to_owned()),
        message_kind: 0,
        reference: None,
        mentions: Vec::new(),
        sticker_names: Vec::new(),
        attachments: Vec::new(),
        embed_count: 0,
        forwarded_snapshots: Vec::new(),
    }
}

fn state_with_message() -> DashboardState {
    let mut state = DashboardState::new();
    state.push_event(AppEvent::GuildCreate {
        guild_id: 1,
        name: "guild".to_owned(),
        channels: vec![channel_info(Some(1), 2, "general")],
        members: Vec::new(),
        roles: Vec::new(),
    });
    state.push_event(AppEvent::ActivateChannel { channel_id: 2 });
    state.focus_pane(FocusPane::Messages);
    state.push_event(message_create(1, "hello"));
    state
}

fn push_message(state: &mut DashboardState, message_id: u64, content: &str) {
    state.push_event(message_create(message_id, content));
}

fn message_info(message_id: u64, author: &str, content: &str, pinned: bool) -> MessageInfo {
    MessageInfo {
        guild_id: Some(1),
        channel_id: 2,
        message_id,
        author_id: 99,
        author: author.to_owned(),
        content: Some(content.to_owned()),
        message_kind: 0,
        reference: None,
        sticker_names: Vec::new(),
        pinned,
        mentions: Vec::new(),
        attachments: Vec::new(),
        forwarded_snapshots: Vec::new(),
    }
}

fn member_info(user_id: u64, display_name: &str) -> MemberInfo {
    MemberInfo {
        user_id,
        display_name: display_name.to_owned(),
        username: None,
        is_bot: false,
        avatar_url: None,
        role_ids: Vec::new(),
    }
}

fn state_with_member(user_id: u64, display_name: &str) -> DashboardState {
    let mut state = DashboardState::new();
    state.push_event(AppEvent::GuildCreate {
        guild_id: 1,
        name: "guild".to_owned(),
        channels: Vec::new(),
        members: vec![member_info(user_id, display_name)],
        roles: Vec::new(),
    });
    state
}

fn state_with_role(role_id: u64, name: &str) -> DashboardState {
    let mut state = DashboardState::new();
    state.push_event(AppEvent::GuildCreate {
        guild_id: 1,
        name: "guild".to_owned(),
        channels: Vec::new(),
        members: Vec::new(),
        roles: vec![RoleInfo {
            id: role_id,
            name: name.to_owned(),
            color: None,
            position: 1,
            hoist: false,
            permissions: 0,
        }],
    });
    state
}

fn mention_info(user_id: u64, display_name: &str) -> MentionInfo {
    MentionInfo {
        user_id,
        guild_nick: None,
        display_name: display_name.to_owned(),
    }
}

fn mention_info_with_nick(user_id: u64, nick: &str) -> MentionInfo {
    MentionInfo {
        user_id,
        guild_nick: Some(nick.to_owned()),
        display_name: nick.to_owned(),
    }
}

fn message_with_attachment(content: Option<String>, attachment: AttachmentInfo) -> MessageState {
    MessageState {
        id: 1,
        guild_id: Some(1),
        channel_id: 2,
        author_id: 99,
        author: "neo".to_owned(),
        content,
        message_kind: 0,
        reference: None,
        sticker_names: Vec::new(),
        mentions: Vec::new(),
        pinned: false,
        attachments: vec![attachment],
        forwarded_snapshots: Vec::new(),
    }
}

fn message_with_content(content: Option<String>) -> MessageState {
    let mut message = message_with_attachment(content, image_attachment());
    message.attachments.clear();
    message
}

fn message_with_forwarded_snapshot(snapshot: MessageSnapshotInfo) -> MessageState {
    MessageState {
        id: 1,
        guild_id: Some(1),
        channel_id: 2,
        author_id: 99,
        author: "neo".to_owned(),
        content: Some(String::new()),
        message_kind: 0,
        reference: None,
        sticker_names: Vec::new(),
        mentions: Vec::new(),
        pinned: false,
        attachments: Vec::new(),
        forwarded_snapshots: vec![snapshot],
    }
}

fn forwarded_snapshot(
    content: Option<&str>,
    attachments: Vec<AttachmentInfo>,
) -> MessageSnapshotInfo {
    MessageSnapshotInfo {
        content: content.map(str::to_owned),
        sticker_names: Vec::new(),
        mentions: Vec::new(),
        attachments,
        source_channel_id: None,
        timestamp: None,
    }
}

fn image_attachment() -> AttachmentInfo {
    AttachmentInfo {
        id: 3,
        filename: "cat.png".to_owned(),
        url: "https://cdn.discordapp.com/cat.png".to_owned(),
        proxy_url: "https://media.discordapp.net/cat.png".to_owned(),
        content_type: Some("image/png".to_owned()),
        size: 2048,
        width: Some(640),
        height: Some(480),
        description: None,
    }
}

fn video_attachment() -> AttachmentInfo {
    AttachmentInfo {
        id: 4,
        filename: "clip.mp4".to_owned(),
        url: "https://cdn.discordapp.com/clip.mp4".to_owned(),
        proxy_url: "https://media.discordapp.net/clip.mp4".to_owned(),
        content_type: Some("video/mp4".to_owned()),
        size: 78_364_758,
        width: Some(1920),
        height: Some(1080),
        description: None,
    }
}

fn guild_member(display_name: &str) -> GuildMemberState {
    GuildMemberState {
        user_id: 10,
        display_name: display_name.to_owned(),
        username: None,
        is_bot: false,
        avatar_url: None,
        role_ids: Vec::new(),
        status: PresenceStatus::Online,
    }
}

#[test]
fn composer_prompt_line_count_uses_display_width_for_wide_chars() {
    assert_eq!(composer_prompt_line_count("漢字仮", 4), 2);
}

#[test]
fn reply_composer_text_uses_original_reply_target_after_selection_changes() {
    let mut state = state_with_message();
    state.start_reply_composer();
    push_message(&mut state, 2, "newer selected message");

    assert_eq!(
        state
            .selected_message_state()
            .and_then(|message| message.content.as_deref()),
        Some("newer selected message")
    );

    assert_eq!(state.composer_text(80), "reply to hello\n> ");
}

#[test]
fn later_history_does_not_clear_loaded_pin_state() {
    let mut state = state_with_message();
    state.push_event(AppEvent::PinnedMessagesLoaded {
        channel_id: 2,
        messages: vec![message_info(10, "mod", "important announcement", true)],
    });

    assert!(state.messages().iter().all(|message| message.id != 10));

    state.push_event(AppEvent::MessageHistoryLoaded {
        channel_id: 2,
        before: None,
        messages: vec![message_info(10, "mod", "important announcement", false)],
    });

    assert_eq!(state.pinned_messages().len(), 1);
    assert!(state
        .messages()
        .iter()
        .any(|message| message.id == 10 && message.pinned));
}

#[test]
fn reply_composer_line_count_includes_reply_hint() {
    let mut state = state_with_message();
    state.start_reply_composer();
    state.push_composer_char('h');
    state.push_composer_char('\n');
    state.push_composer_char('i');

    assert_eq!(state.composer_content_line_count(80), 3);
}

#[test]
fn image_attachment_replaces_empty_message_placeholder() {
    let message = message_with_attachment(Some(String::new()), image_attachment());

    assert_eq!(
        format_message_content(&message, 200),
        "[image: cat.png] 640x480"
    );
}

#[test]
fn message_content_preserves_explicit_newlines() {
    let message = message_with_content(Some("hello\nworld".to_owned()));

    let lines = format_message_content_lines(&message, &DashboardState::new(), 200);

    assert_eq!(line_texts(&lines), vec!["hello", "world"]);
}

#[test]
fn message_content_wraps_long_lines_to_content_width() {
    let message = message_with_content(Some("abcdefghijkl".to_owned()));

    let lines = format_message_content_lines(&message, &DashboardState::new(), 5);

    assert_eq!(line_texts(&lines), vec!["abcde", "fghij", "kl"]);
}

#[test]
fn message_content_wraps_wide_characters_by_terminal_width() {
    let message = message_with_content(Some("漢字仮名交じ".to_owned()));

    let lines = format_message_content_lines(&message, &DashboardState::new(), 10);

    assert_eq!(line_texts(&lines), vec!["漢字仮名交", "じ"]);
}

#[test]
fn message_content_renders_known_user_mentions() {
    let message = message_with_content(Some("hello <@10>".to_owned()));
    let state = state_with_member(10, "alice");

    let lines = format_message_content_lines(&message, &state, 200);

    assert_eq!(line_texts(&lines), vec!["hello @alice"]);
}

#[test]
fn message_content_keeps_unknown_user_mentions_raw() {
    let message = message_with_content(Some("hello <@10>".to_owned()));

    let lines = format_message_content_lines(&message, &DashboardState::new(), 200);

    assert_eq!(line_texts(&lines), vec!["hello <@10>"]);
}

#[test]
fn message_content_renders_mentions_from_message_metadata() {
    let mut message = message_with_content(Some("hello <@10>".to_owned()));
    message.mentions = vec![mention_info(10, "alice")];

    let lines = format_message_content_lines(&message, &DashboardState::new(), 200);

    assert_eq!(line_texts(&lines), vec!["hello @alice"]);
}

#[test]
fn message_content_keeps_role_mentions_raw_without_guild_context() {
    let mut message = message_with_content(Some("hello <@&10>".to_owned()));
    message.guild_id = None;
    let state = state_with_role(10, "moderators");

    let lines = format_message_content_lines(&message, &state, 200);

    assert_eq!(line_texts(&lines), vec!["hello <@&10>"]);
}

#[test]
fn message_content_prefers_cached_member_alias_over_mention_metadata() {
    let mut message = message_with_content(Some("hello <@10>".to_owned()));
    message.mentions = vec![mention_info(10, "username")];
    let state = state_with_member(10, "server alias");

    let lines = format_message_content_lines(&message, &state, 200);

    assert_eq!(line_texts(&lines), vec!["hello @server alias"]);
}

#[test]
fn message_content_prefers_message_mention_nick_over_cached_member_name() {
    let mut message = message_with_content(Some("hello <@10>".to_owned()));
    message.mentions = vec![mention_info_with_nick(10, "server alias")];
    let state = state_with_member(10, "username");

    let lines = format_message_content_lines(&message, &state, 200);

    assert_eq!(line_texts(&lines), vec!["hello @server alias"]);
}

#[test]
fn message_content_does_not_split_grapheme_clusters() {
    let lines = wrap_text_lines("👨‍👩‍👧‍👦", 7);

    assert_eq!(lines, vec!["👨‍👩‍👧‍👦".to_owned()]);
}

#[test]
fn message_content_preserves_blank_lines() {
    let message = message_with_content(Some("one\n\nthree".to_owned()));

    let lines = format_message_content_lines(&message, &DashboardState::new(), 200);

    assert_eq!(line_texts(&lines), vec!["one", "", "three"]);
}

#[test]
fn video_attachment_is_labeled_as_video() {
    let message = message_with_attachment(Some(String::new()), video_attachment());

    assert_eq!(
        format_message_content(&message, 200),
        "[video: clip.mp4] 1920x1080"
    );
}

#[test]
fn forwarded_snapshot_replaces_empty_message_placeholder() {
    let message =
        message_with_forwarded_snapshot(forwarded_snapshot(Some("forwarded text"), Vec::new()));

    assert_eq!(
        format_message_content(&message, 200),
        "↱ Forwarded │ forwarded text"
    );
}

#[test]
fn forwarded_snapshot_attachment_replaces_empty_message_placeholder() {
    let message =
        message_with_forwarded_snapshot(forwarded_snapshot(Some(""), vec![image_attachment()]));

    assert_eq!(
        format_message_content(&message, 200),
        "↱ Forwarded │ [image: cat.png] 640x480"
    );
}

#[test]
fn forwarded_snapshot_content_appends_attachment_summary() {
    let message = message_with_forwarded_snapshot(forwarded_snapshot(
        Some("hello"),
        vec![image_attachment()],
    ));

    assert_eq!(
        format_message_content(&message, 200),
        "↱ Forwarded │ hello │ [image: cat.png] 640x480"
    );
}

#[test]
fn forwarded_snapshot_content_wraps_after_prefix() {
    let message =
        message_with_forwarded_snapshot(forwarded_snapshot(Some("abcdefghijkl"), Vec::new()));

    let lines = format_message_content_lines(&message, &DashboardState::new(), 7);

    assert_eq!(
        line_texts(&lines),
        vec!["↱ Forwarded", "│ abcde", "│ fghij", "│ kl"]
    );
}

#[test]
fn forwarded_snapshot_content_renders_known_user_mentions() {
    let message =
        message_with_forwarded_snapshot(forwarded_snapshot(Some("hello <@10>"), Vec::new()));
    let state = state_with_member(10, "alice");

    let lines = format_message_content_lines(&message, &state, 200);

    assert_eq!(line_texts(&lines), vec!["↱ Forwarded", "│ hello <@10>"]);
}

#[test]
fn forwarded_snapshot_content_uses_source_channel_guild_for_mentions() {
    let mut snapshot = forwarded_snapshot(Some("hello <@10>"), Vec::new());
    snapshot.source_channel_id = Some(9);
    let message = message_with_forwarded_snapshot(snapshot);
    let mut state = state_with_member(10, "outer");
    state.push_event(AppEvent::ChannelUpsert(channel_info(Some(2), 9, "source")));
    state.push_event(AppEvent::GuildMemberUpsert {
        guild_id: 2,
        member: member_info(10, "source"),
    });

    let lines = format_message_content_lines(&message, &state, 200);

    assert_eq!(
        line_texts(&lines),
        vec!["↱ Forwarded", "│ hello @source", "│ #source"]
    );
}

#[test]
fn forwarded_snapshot_content_renders_mentions_from_snapshot_metadata() {
    let mut snapshot = forwarded_snapshot(Some("hello <@10>"), Vec::new());
    snapshot.mentions = vec![mention_info(10, "alice")];
    let message = message_with_forwarded_snapshot(snapshot);

    let lines = format_message_content_lines(&message, &DashboardState::new(), 200);

    assert_eq!(line_texts(&lines), vec!["↱ Forwarded", "│ hello @alice"]);
}

#[test]
fn forwarded_snapshot_content_wraps_wide_characters_after_prefix() {
    let message =
        message_with_forwarded_snapshot(forwarded_snapshot(Some("漢字仮名交じ"), Vec::new()));

    let lines = format_message_content_lines(&message, &DashboardState::new(), 12);

    assert_eq!(
        line_texts(&lines),
        vec!["↱ Forwarded", "│ 漢字仮名交", "│ じ"]
    );
}

#[test]
fn shared_truncation_uses_display_width_for_wide_characters() {
    let author = truncate_display_width("漢字仮名交じり", 8);

    assert_eq!(author, "漢字...");
    assert_eq!(author.width(), 7);
}

#[test]
fn member_label_truncates_by_display_width() {
    let member = guild_member("漢字仮名交じり文章");

    let label = member_display_label(&member, 0, 12);

    assert_eq!(label, "漢字仮名...");
    assert!(label.width() <= 12);
}

#[test]
fn server_label_truncates_by_display_width() {
    let label = truncate_display_width("漢字仮名交じりサーバー", 12);

    assert_eq!(label, "漢字仮名...");
    assert!(label.width() <= 12);
}

#[test]
fn horizontal_truncation_skips_display_width_offset() {
    let label = truncate_display_width_from("abcdef", 2, 4);

    assert_eq!(label, "cdef");
}

#[test]
fn horizontal_truncation_respects_wide_character_boundaries() {
    let label = truncate_display_width_from("가나다abc", 2, 6);

    assert_eq!(label, "나...");
    assert!(label.width() <= 6);
}

#[test]
fn member_label_uses_horizontal_scroll_offset() {
    let member = guild_member("long-member-name");

    let label = member_display_label(&member, 5, 8);

    assert_eq!(label, "membe...");
}

#[test]
fn channel_label_truncates_by_display_width_after_prefixes() {
    let branch_prefix = "├ ";
    let channel_prefix = "# ";
    let max_width = 14usize;
    let label_width = max_width
        .saturating_sub(branch_prefix.width())
        .saturating_sub(channel_prefix.width());
    let label = truncate_display_width("漢字仮名交じり", label_width);

    assert_eq!(label, "漢字仮...");
    assert!(branch_prefix.width() + channel_prefix.width() + label.width() <= max_width);
}

#[test]
fn role_mentions_use_role_names_with_guild_context() {
    let message = message_with_content(Some("ping <@&10>".to_owned()));
    let state = state_with_role(10, "moderators");

    let lines = format_message_content_lines(&message, &state, 200);

    assert_eq!(line_texts(&lines), vec!["ping @moderators"]);
}

#[test]
fn short_text_is_not_truncated() {
    assert_eq!(truncate_display_width("abc", 3), "abc");
    assert_eq!(truncate_display_width("abcd", 3), "...");
    assert_eq!(truncate_display_width("abcd", 2), "ab");
}

#[test]
fn render_messages_shows_new_messages_notice_at_bottom_of_message_pane() {
    let mut state = state_with_message();
    for id in 2..=4 {
        push_message(&mut state, id, &format!("older {id}"));
    }
    state.focus_pane(FocusPane::Messages);
    state.jump_top();
    push_message(&mut state, 5, "first unread");
    push_message(&mut state, 6, "second unread");

    assert_eq!(state.new_messages_marker_message_id(), Some(5));
    assert_eq!(state.new_messages_count(), 2);
    assert_eq!(
        state.selected_message_state().map(|message| message.id),
        Some(1)
    );
    assert!(!state.message_auto_follow());
}

#[test]
fn new_messages_count_is_zero_without_marker() {
    let state = state_with_message();
    assert_eq!(state.new_messages_count(), 0);
}

fn read_state(channel_id: u64, last_acked: Option<u64>, mention_count: u32) -> ReadState {
    ReadState {
        channel_id,
        last_acked_message_id: last_acked,
        mention_count,
        notification_count: 0,
    }
}

#[test]
fn guild_unread_reports_mentions_of_its_channels() {
    let mut state = DashboardState::new();
    let mut channel = channel_info(Some(1), 2, "general");
    channel.last_message_id = Some(10);
    state.push_event(AppEvent::GuildCreate {
        guild_id: 1,
        name: "guild".to_owned(),
        channels: vec![channel],
        members: Vec::new(),
        roles: Vec::new(),
    });
    state.discord.read_states.push(read_state(2, Some(10), 2));
    assert_eq!(state.discord.guild_unread(1), ChannelUnreadState::Mentioned(2));
    assert_eq!(state.discord.guild_unread(5), ChannelUnreadState::Seen);
}

#[test]
fn direct_message_unread_count_counts_unread_direct_channels() {
    let mut state = DashboardState::new();
    for (channel_id, name, last) in [(10, "old", Some(100)), (20, "new", Some(200)), (30, "empty", None)] {
        let mut channel = channel_info(None, channel_id, name);
        channel.kind = "dm".to_owned();
        channel.last_message_id = last;
        state.push_event(AppEvent::ChannelUpsert(channel));
    }
    state.discord.read_states.push(read_state(10, Some(100), 0));
    state.discord.read_states.push(read_state(20, Some(100), 0));
    assert_eq!(state.discord.direct_message_unread_count(), 1);
    assert_eq!(state.discord.channel_unread(20), ChannelUnreadState::Unread);
    assert_eq!(state.discord.channel_unread(10), ChannelUnreadState::Seen);
}

#[test]
fn message_viewport_scrolling_waits_for_the_first_layout() {
    let mut state = state_with_message();
    push_message(&mut state, 2, "second");
    assert!(state.message_auto_follow);
    let scroll = state.message_scroll;
    state.scroll_message_viewport_up();
    state.scroll_message_viewport_down();
    state.scroll_message_viewport_bottom();
    assert!(state.message_auto_follow);
    assert!(state.message_keep_selection_visible);
    assert_eq!(state.message_scroll, scroll);
}

#[test]
fn following_view_is_bottom_aligned_over_rendered_rows() {
    let mut state = state_with_message();
    push_message(&mut state, 2, "second");
    push_message(&mut state, 3, "third");
    state.set_message_view_height(5);
    assert!(state.message_auto_follow);
    state.clamp_message_viewport_for_image_previews(40, vec![2, 3, 4]);
    assert_eq!(state.message_content_width, 40);
    assert_eq!(state.selected_message, 2);
    assert_eq!((state.message_scroll, state.message_line_scroll), (1, 2));
}

#[test]
fn scrolling_to_the_bottom_uses_rendered_rows_after_layout() {
    let mut state = state_with_message();
    push_message(&mut state, 2, "second");
    push_message(&mut state, 3, "third");
    state.set_message_view_height(5);
    state.clamp_message_viewport_for_image_previews(40, vec![2, 3, 4]);
    state.scroll_message_viewport_top();
    assert_eq!((state.message_scroll, state.message_line_scroll), (0, 0));
    assert!(!state.message_auto_follow);
    state.scroll_message_viewport_bottom();
    assert_eq!((state.message_scroll, state.message_line_scroll), (1, 2));
    assert_eq!(state.selected_message, 2);
    assert!(!state.message_keep_selection_visible);
}

#[test]
fn moving_the_cursor_up_stops_following_and_back_down_follows_again() {
    let mut state = state_with_message();
    push_message(&mut state, 2, "second");
    state.set_message_view_height(5);
    state.move_up();
    assert_eq!(state.selected_message, 0);
    assert!(!state.message_auto_follow);
    state.move_down();
    assert_eq!(state.selected_message, 1);
    assert!(state.message_auto_follow);
    state.jump_top();
    assert!(!state.message_auto_follow);
}
