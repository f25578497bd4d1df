use concord_core::discord::{
    ChannelInfo, MessageAttachmentUpload, ReactionEmoji, MAX_MESSAGE_CHARS,
    MAX_UPLOAD_ATTACHMENT_COUNT, MAX_UPLOAD_FILE_BYTES,
};
use concord_core::error::AppError;
use concord_core::rest::{
    is_search_index_warming, merge_forum_pages, next_reaction_users_after,
    percent_encode_path_segment, reaction_route_component, validate_message_content,
    upload_content_type, validate_message_payload, ForumPostPage, ForumSearchSort,
};
use concord_core::request_body::message_request_body;

fn upload(name: &str, size_bytes: u64) -> MessageAttachmentUpload {
    MessageAttachmentUpload {
        path: format!("/tmp/{name}"),
        filename: name.to_owned(),
        size_bytes,
    }
}

fn forum_post(parent_id: u64, post_id: u64, name: &str) -> ChannelInfo {
    ChannelInfo {
        guild_id: Some(1),
        channel_id: post_id,
        parent_id: Some(parent_id),
        position: None,
        last_message_id: None,
        name: name.to_owned(),
        kind: "public_thread".to_owned(),
        message_count: None,
        total_message_sent: None,
        thread_archived: Some(false),
        thread_locked: Some(false),
        thread_pinned: None,
    }
}

#[test]
fn rejects_invalid_message_content() {
    let error = validate_message_content("   ").expect_err("blank messages must fail");
    assert!(matches!(error, AppError::EmptyMessageContent));

    let content = "x".repeat(2_001);
    let error = validate_message_content(&content).expect_err("oversized message must fail");
    assert!(matches!(error, AppError::MessageTooLong { len: 2_001 }));
}

#[test]
fn rejects_attachment_upload_limits() {
    let too_large_file = vec![upload("large.bin", MAX_UPLOAD_FILE_BYTES + 1)];
    let error = validate_message_payload("", &too_large_file)
        .expect_err("oversized attachment must fail");
    assert!(matches!(error, AppError::AttachmentTooLarge { .. }));

    let too_large_total = vec![
        upload("a.bin", MAX_UPLOAD_FILE_BYTES - 1),
        upload("b.bin", MAX_UPLOAD_FILE_BYTES - 1),
        upload("c.bin", MAX_UPLOAD_FILE_BYTES - 1),
    ];
    let error = validate_message_payload("", &too_large_total)
        .expect_err("oversized attachment total must fail");
    assert!(matches!(error, AppError::AttachmentsTooLarge { .. }));
}

#[test]
fn reaction_route_component_formats_unicode_and_custom_reactions() {
    let custom = ReactionEmoji::Custom {
        id: 42,
        name: Some("party".to_owned()),
        animated: true,
    };
    let cases = [
        (ReactionEmoji::Unicode("🎉".to_owned()), "%F0%9F%8E%89"),
        (custom, "party%3A42"),
    ];

    for (reaction, expected) in cases {
        assert_eq!(reaction_route_component(&reaction), expected);
    }
}

#[test]
fn reaction_user_pagination_continues_only_after_full_pages() {
    let last_user_id = 123;

    assert_eq!(
        next_reaction_users_after(100, Some(last_user_id)),
        Some(last_user_id)
    );
    assert_eq!(next_reaction_users_after(99, Some(last_user_id)), None);
    assert_eq!(next_reaction_users_after(100, None), None);
}

#[test]
fn forum_search_sort_serializes_to_discord_query_value() {
    assert_eq!(
        ForumSearchSort::LastMessageTime.as_str(),
        "last_message_time"
    );
    assert_eq!(ForumSearchSort::CreationTime.as_str(), "creation_time");
}

#[test]
fn merge_forum_pages_dedupes_posts_and_keeps_last_message_time_has_more() {
    let forum_id = 20;
    let active = ForumPostPage {
        next_offset: 25,
        posts: vec![
            forum_post(forum_id, 100, "active-only"),
            forum_post(forum_id, 200, "shared"),
        ],
        preview_messages: Vec::new(),
        has_more: true,
    };
    let recent = ForumPostPage {
        next_offset: 25,
        posts: vec![
            forum_post(forum_id, 200, "shared-from-creation"),
            forum_post(forum_id, 300, "creation-only"),
        ],
        preview_messages: Vec::new(),
        has_more: false,
    };

    let merged = merge_forum_pages(active, recent);

    let names: Vec<_> = merged.posts.iter().map(|p| p.name.as_str()).collect();
    assert_eq!(names, vec!["active-only", "shared", "creation-only"]);
    assert!(merged.has_more, "must follow last_message_time has_more");
    assert_eq!(merged.next_offset, 25);
}

#[test]
fn search_index_warming_error_is_detected() {
    let warming = AppError::DiscordRequest("forum post search index is not ready".to_owned());
    let other = AppError::DiscordRequest("forum post search failed: 500".to_owned());

    assert!(is_search_index_warming(&warming));
    assert!(!is_search_index_warming(&other));
    assert!(!is_search_index_warming(&AppError::EmptyMessageContent));
}

#[test]
fn attachment_only_message_payload_is_valid() {
    let attachments = vec![upload("cat.png", 2_048)];
    assert!(validate_message_payload("   ", &attachments).is_ok());
}

#[test]
fn empty_payload_is_rejected() {
    let error = validate_message_payload("  \n ", &[]).expect_err("nothing to send");
    assert!(matches!(error, AppError::EmptyMessageContent));
}

#[test]
fn too_many_attachments_are_rejected() {
    let attachments: Vec<_> = (0..=MAX_UPLOAD_ATTACHMENT_COUNT)
        .map(|i| upload(&format!("f{i}.bin"), 1))
        .collect();
    let error = validate_message_payload("hi", &attachments).expect_err("too many files");
    assert!(matches!(error, AppError::TooManyAttachments { count } if count == MAX_UPLOAD_ATTACHMENT_COUNT + 1));
}

#[test]
fn message_at_the_limit_is_accepted() {
    let content = "x".repeat(MAX_MESSAGE_CHARS);
    assert!(validate_message_content(&content).is_ok());
    let wide = "漢".repeat(MAX_MESSAGE_CHARS);
    assert!(validate_message_content(&wide).is_ok());
}

#[test]
fn percent_encoding_escapes_reserved_bytes() {
    assert_eq!(percent_encode_path_segment("a-b_c.d~e"), "a-b_c.d~e");
    assert_eq!(percent_encode_path_segment("a b/c:d"), "a%20b%2Fc%3Ad");
    assert_eq!(percent_encode_path_segment("é"), "%C3%A9");
}

#[test]
fn custom_reaction_without_name_keeps_only_the_id() {
    let custom = ReactionEmoji::Custom {
        id: 7,
        name: None,
        animated: false,
    };
    assert_eq!(reaction_route_component(&custom), "%3A7");
}

#[test]
fn validates_attachment_only_message_payload() {
    let attachments = vec![MessageAttachmentUpload {
        path: "/tmp/cat.png".into(),
        filename: "cat.png".to_owned(),
        size_bytes: 2_048,
    }];

    validate_message_payload("   ", &attachments).expect("file-only messages should be valid");

    let body: serde_json::Value =
        serde_json::from_str(&message_request_body("", Some(44), &attachments))
            .expect("the body is JSON");
    assert_eq!(body["content"], "");
    assert_eq!(body["message_reference"]["message_id"], "44");
    assert_eq!(body["attachments"][0]["id"], 0);
    assert_eq!(body["attachments"][0]["filename"], "cat.png");
}

#[test]
fn upload_content_type_uses_common_media_types() {
    assert_eq!(upload_content_type("clip.MP4"), "video/mp4");
    assert_eq!(upload_content_type("song.mp3"), "audio/mpeg");
    assert_eq!(
        upload_content_type("sheet.xlsx"),
        "application/vnd.openxmlformats-officedocument.spreadsheetml.sheet"
    );
    assert_eq!(
        upload_content_type("unknown.concord"),
        "application/octet-stream"
    );
}

#[test]
fn upload_content_type_without_extension_is_octet_stream() {
    assert_eq!(upload_content_type("README"), "application/octet-stream");
}

#[test]
fn message_body_escapes_text_and_numbers_files() {
    let tricky = "say \"hi\"\\ \n\t\u{1}\u{8}\u{c}\r é 🎉";
    let attachments = vec![
        MessageAttachmentUpload {
            path: "/tmp/a".into(),
            filename: "a \"b\".txt".to_owned(),
            size_bytes: 1,
        },
        MessageAttachmentUpload {
            path: "/tmp/c".into(),
            filename: "c.png".to_owned(),
            size_bytes: 1,
        },
    ];
    let text = message_request_body(tricky, None, &attachments);
    let body: serde_json::Value = serde_json::from_str(&text).expect("the body is JSON");
    assert_eq!(body["content"], tricky);
    assert!(body.get("message_reference").is_none());
    assert_eq!(body["attachments"][1]["id"], 1);
    assert_eq!(body["attachments"][0]["filename"], "a \"b\".txt");
    assert_eq!(body["attachments"][1]["filename"], "c.png");
    assert_eq!(
        message_request_body("plain", None, &[]),
        "{\"content\":\"plain\"}"
    );
}
