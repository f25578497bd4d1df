use vstd::prelude::*;

use crate::discord::{
    ChannelInfo, MAX_MESSAGE_CHARS, MAX_UPLOAD_ATTACHMENT_COUNT, MAX_UPLOAD_FILE_BYTES,
    MAX_UPLOAD_TOTAL_BYTES, MessageAttachmentUpload, MessageInfo, ReactionEmoji,
};
use crate::error::AppError;
use crate::keyed::{append_unseen, dedup_by_key, ids_contain, lemma_dedup_by_key, unique_keys, keys_of};
use crate::text::{
    chars_of, contains_spec, decimal_spec, is_blank, is_blank_spec, push_decimal, push_str,
    str_contains, string_push,
};

verus! {

/// Reaction users are fetched in pages of this many users.
pub const REACTION_USERS_PAGE_LIMIT: u16 = 100;
/// Forum post searches ask for pages of this many posts.
pub const FORUM_POST_SEARCH_PAGE_LIMIT: u16 = 25;

// ---------------------------------------------------------------------------
// Message payload checks
// ---------------------------------------------------------------------------

/// Sum of the sizes of a list of (file name, size) pairs.
pub open spec fn total_size(sizes: Seq<(String, u64)>) -> int
    decreases sizes.len(),
{
    if sizes.len() == 0 {
        0
    } else {
        total_size(sizes.drop_last()) + sizes.last().1
    }
}

/// `j` is the first entry above the per-file limit.
pub open spec fn is_first_oversized(sizes: Seq<(String, u64)>, j: int) -> bool {
    &&& 0 <= j < sizes.len()
    &&& sizes[j].1 > MAX_UPLOAD_FILE_BYTES
    &&& forall|k: int| 0 <= k < j ==> sizes[k].1 <= MAX_UPLOAD_FILE_BYTES
}

/// Some entry is above the per-file limit.
pub open spec fn has_oversized(sizes: Seq<(String, u64)>) -> bool {
    exists|j: int| 0 <= j < sizes.len() && sizes[j].1 > MAX_UPLOAD_FILE_BYTES
}

/// What checking a list of upload sizes gives: too many files, the first file above the
/// per-file limit, a total above the per-message limit, or acceptance.
pub open spec fn attachment_sizes_ok(sizes: Seq<(String, u64)>) -> bool {
    sizes.len() <= MAX_UPLOAD_ATTACHMENT_COUNT && !has_oversized(sizes) && total_size(sizes)
        <= MAX_UPLOAD_TOTAL_BYTES
}

proof fn lemma_total_size_bounded(sizes: Seq<(String, u64)>)
    requires
        forall|j: int| 0 <= j < sizes.len() ==> sizes[j].1 <= MAX_UPLOAD_FILE_BYTES,
    ensures
        0 <= total_size(sizes) <= sizes.len() * MAX_UPLOAD_FILE_BYTES,
    decreases sizes.len(),
{
    if sizes.len() > 0 {
        lemma_total_size_bounded(sizes.drop_last());
    }
}

/// Checks attachment sizes against Discord's upload limits.
pub fn validate_attachment_sizes(attachments: &[(String, u64)]) -> (r: Result<(), AppError>)
    ensures
        attachments@.len() > MAX_UPLOAD_ATTACHMENT_COUNT ==> (r matches Err(
            AppError::TooManyAttachments { count },
        ) && count == attachments@.len()),
        attachments@.len() <= MAX_UPLOAD_ATTACHMENT_COUNT && has_oversized(attachments@) ==> (r matches Err(
            AppError::AttachmentTooLarge { filename, size },
        ) && exists|j: int|
            is_first_oversized(attachments@, j) && filename == attachments@[j].0 && size
                == attachments@[j].1),
        attachments@.len() <= MAX_UPLOAD_ATTACHMENT_COUNT && !has_oversized(attachments@)
            && total_size(attachments@) > MAX_UPLOAD_TOTAL_BYTES ==> (r matches Err(
            AppError::AttachmentsTooLarge { size },
        ) && size == total_size(attachments@)),
        r is Ok <==> attachment_sizes_ok(attachments@),
{
    if attachments.len() > MAX_UPLOAD_ATTACHMENT_COUNT {
        return Err(AppError::TooManyAttachments { count: attachments.len() });
    }
    let mut total: u64 = 0;
    let mut i: usize = 0;
    while i < attachments.len()
        invariant
            attachments@.len() <= MAX_UPLOAD_ATTACHMENT_COUNT,
            i <= attachments@.len(),
            forall|k: int| 0 <= k < i ==> attachments@[k].1 <= MAX_UPLOAD_FILE_BYTES,
            total == total_size(attachments@.take(i as int)),
            total <= i * MAX_UPLOAD_FILE_BYTES,
        decreases attachments@.len() - i,
    {
        let size = attachments[i].1;
        if size > MAX_UPLOAD_FILE_BYTES {
            assert(is_first_oversized(attachments@, i as int));
            return Err(
                AppError::AttachmentTooLarge { filename: attachments[i].0.clone(), size },
            );
        }
        assert(attachments@.take(i + 1).drop_last() == attachments@.take(i as int));
        total = total.saturating_add(size);
        i = i + 1;
    }
    assert(attachments@.take(attachments@.len() as int) == attachments@);
    if total > MAX_UPLOAD_TOTAL_BYTES {
        return Err(AppError::AttachmentsTooLarge { size: total });
    }
    Ok(())
}

/// The (file name, declared size) pairs of the uploads.
pub open spec fn upload_sizes(attachments: Seq<MessageAttachmentUpload>) -> Seq<(String, u64)> {
    attachments.map_values(|a: MessageAttachmentUpload| (a.filename, a.size_bytes))
}

/// A message with only whitespace and no files is empty.
pub open spec fn payload_is_empty(content: Seq<char>, attachment_count: nat) -> bool {
    is_blank_spec(content) && attachment_count == 0
}

/// Checks a message before it is sent: it must carry text or a file, its text may hold at
/// most 2000 characters, and its files must fit the upload limits.
pub fn validate_message_payload(content: &str, attachments: &[MessageAttachmentUpload]) -> (r:
    Result<(), AppError>)
    ensures
        payload_is_empty(content@, attachments@.len()) ==> (r matches Err(
            AppError::EmptyMessageContent,
        )),
        !payload_is_empty(content@, attachments@.len()) && content@.len() > MAX_MESSAGE_CHARS
            ==> (r matches Err(AppError::MessageTooLong { len }) && len == content@.len()),
        !payload_is_empty(content@, attachments@.len()) && content@.len() <= MAX_MESSAGE_CHARS
            ==> (r is Ok <==> attachment_sizes_ok(upload_sizes(attachments@))),
        !payload_is_empty(content@, attachments@.len()) && content@.len() <= MAX_MESSAGE_CHARS
            && upload_sizes(attachments@).len() > MAX_UPLOAD_ATTACHMENT_COUNT ==> (r matches Err(
            AppError::TooManyAttachments { count },
        ) && count == attachments@.len()),
        !payload_is_empty(content@, attachments@.len()) && content@.len() <= MAX_MESSAGE_CHARS
            && attachments@.len() <= MAX_UPLOAD_ATTACHMENT_COUNT && has_oversized(
            upload_sizes(attachments@),
        ) ==> (r matches Err(AppError::AttachmentTooLarge { filename, size }) && exists|j: int|
            is_first_oversized(upload_sizes(attachments@), j) && filename == attachments@[j].filename
                && size == attachments@[j].size_bytes),
        !payload_is_empty(content@, attachments@.len()) && content@.len() <= MAX_MESSAGE_CHARS
            && attachments@.len() <= MAX_UPLOAD_ATTACHMENT_COUNT && !has_oversized(
            upload_sizes(attachments@),
        ) && total_size(upload_sizes(attachments@)) > MAX_UPLOAD_TOTAL_BYTES ==> (r matches Err(
            AppError::AttachmentsTooLarge { size },
        ) && size == total_size(upload_sizes(attachments@))),
{
    if is_blank(content) && attachments.len() == 0 {
        return Err(AppError::EmptyMessageContent);
    }
    let chars = chars_of(content);
    let len = chars.len();
    if len > MAX_MESSAGE_CHARS {
        return Err(AppError::MessageTooLong { len });
    }
    let mut sizes: Vec<(String, u64)> = Vec::new();
    let mut i: usize = 0;
    while i < attachments.len()
        invariant
            i <= attachments@.len(),
            sizes@ == upload_sizes(attachments@.take(i as int)),
        decreases attachments@.len() - i,
    {
        sizes.push((attachments[i].filename.clone(), attachments[i].size_bytes));
        assert(upload_sizes(attachments@.take(i + 1)) =~= upload_sizes(
            attachments@.take(i as int),
        ).push((attachments@[i as int].filename, attachments@[i as int].size_bytes)));
        i = i + 1;
    }
    assert(attachments@.take(attachments@.len() as int) == attachments@);
    validate_attachment_sizes(sizes.as_slice())
}

/// Checks the text of an edited message: the rules of [`validate_message_payload`] without files.
pub fn validate_message_content(content: &str) -> (r: Result<(), AppError>)
    ensures
        is_blank_spec(content@) ==> (r matches Err(AppError::EmptyMessageContent)),
        !is_blank_spec(content@) && content@.len() > MAX_MESSAGE_CHARS ==> (r matches Err(
            AppError::MessageTooLong { len },
        ) && len == content@.len()),
        !is_blank_spec(content@) && content@.len() <= MAX_MESSAGE_CHARS ==> r is Ok,
{
    let none: Vec<MessageAttachmentUpload> = Vec::new();
    let r = validate_message_payload(content, none.as_slice());
    proof {
        assert(upload_sizes(none@) =~= Seq::<(String, u64)>::empty());
        assert(total_size(upload_sizes(none@)) == 0);
        assert(!has_oversized(upload_sizes(none@)));
    }
    r
}

// ---------------------------------------------------------------------------
// Upload content types
// ---------------------------------------------------------------------------

/// The MIME type `mime_guess` gives a file name: the first type known for its extension
/// (compared ignoring case), or `application/octet-stream`.
pub uninterp spec fn guessed_mime_type(filename: Seq<char>) -> Seq<char>;

/// `mime_guess::from_path(filename).first_or_octet_stream()`, as text. The crate looks the
/// extension up in its table of types, so the result is named, not spelled out; what its
/// documentation states is that a name without an extension (here: without a dot) gets
/// `application/octet-stream`.
#[verifier::external_body]
fn guess_mime_type(filename: &str) -> (mime: String)
    ensures
        mime@ == guessed_mime_type(filename@),
        !filename@.contains('.') ==> mime@ == "application/octet-stream"@,
{
    mime_guess::from_path(filename).first_or_octet_stream().essence_str().to_owned()
}

/// The content type an attachment is uploaded with, guessed from its file name.
pub fn upload_content_type(filename: &str) -> (mime: String)
    ensures
        mime@ == guessed_mime_type(filename@),
        !filename@.contains('.') ==> mime@ == "application/octet-stream"@,
{
    guess_mime_type(filename)
}

// ---------------------------------------------------------------------------
// Route components
// ---------------------------------------------------------------------------

/// Bytes that stay as they are in a URL path segment (RFC 3986 "unreserved").
pub open spec fn is_unreserved(b: u8) -> bool {
    (65 <= b && b <= 90) || (97 <= b && b <= 122) || (48 <= b && b <= 57) || b == 45 || b == 46
        || b == 95 || b == 126
}

/// Upper-case hexadecimal digit.
pub open spec fn hex_upper(n: nat) -> char {
    if n < 10 {
        (('0' as u32) + n) as char
    } else {
        (('A' as u32) + (n - 10)) as char
    }
}

/// One byte as it appears in a path segment: itself, or `%` and two hex digits.
pub open spec fn percent_encode_byte(b: u8) -> Seq<char> {
    if is_unreserved(b) {
        seq![b as char]
    } else {
        seq!['%', hex_upper((b / 16) as nat), hex_upper((b % 16) as nat)]
    }
}

/// A byte string as a path segment.
pub open spec fn percent_encode_spec(bytes: Seq<u8>) -> Seq<char>
    decreases bytes.len(),
{
    if bytes.len() == 0 {
        Seq::empty()
    } else {
        percent_encode_byte(bytes[0]) + percent_encode_spec(bytes.drop_first())
    }
}

/// The value of a hexadecimal digit (either case).
pub open spec fn hex_value(c: char) -> int {
    if '0' <= c && c <= '9' {
        (c as int) - ('0' as int)
    } else if 'A' <= c && c <= 'F' {
        (c as int) - ('A' as int) + 10
    } else {
        (c as int) - ('a' as int) + 10
    }
}

/// Reads a path segment back into bytes: `%` and two hex digits give one byte, any other
/// character gives its own code.
pub open spec fn percent_decode_spec(chars: Seq<char>) -> Seq<u8>
    decreases chars.len(),
{
    if chars.len() == 0 {
        Seq::empty()
    } else if chars[0] == '%' && chars.len() >= 3 {
        seq![(hex_value(chars[1]) * 16 + hex_value(chars[2])) as u8] + percent_decode_spec(
            chars.skip(3),
        )
    } else {
        seq![chars[0] as u8] + percent_decode_spec(chars.drop_first())
    }
}

proof fn lemma_percent_encode_push(bytes: Seq<u8>, b: u8)
    ensures
        percent_encode_spec(bytes.push(b)) == percent_encode_spec(bytes) + percent_encode_byte(b),
    decreases bytes.len(),
{
    if bytes.len() == 0 {
        assert(bytes.push(b).drop_first() =~= Seq::<u8>::empty());
        assert(percent_encode_spec(Seq::<u8>::empty()) == Seq::<char>::empty());
        assert(percent_encode_spec(bytes.push(b)) =~= percent_encode_byte(b));
    } else {
        assert(bytes.push(b).drop_first() =~= bytes.drop_first().push(b));
        lemma_percent_encode_push(bytes.drop_first(), b);
        assert(percent_encode_spec(bytes.push(b)) =~= percent_encode_spec(bytes)
            + percent_encode_byte(b));
    }
}

proof fn lemma_hex_round_trip(b: u8)
    ensures
        hex_value(hex_upper((b / 16) as nat)) * 16 + hex_value(hex_upper((b % 16) as nat)) == b,
{
    let hi = (b / 16) as nat;
    let lo = (b % 16) as nat;
    assert(hi < 16 && lo < 16);
    assert(hex_value(hex_upper(hi)) == hi);
    assert(hex_value(hex_upper(lo)) == lo);
}

/// Percent-encoding loses nothing: decoding a segment gives back the encoded bytes.
pub proof fn lemma_percent_encoding_round_trips(bytes: Seq<u8>)
    ensures
        percent_decode_spec(percent_encode_spec(bytes)) == bytes,
    decreases bytes.len(),
{
    if bytes.len() > 0 {
        let b = bytes[0];
        let rest = percent_encode_spec(bytes.drop_first());
        lemma_percent_encoding_round_trips(bytes.drop_first());
        let enc = percent_encode_spec(bytes);
        assert(enc == percent_encode_byte(b) + rest);
        if is_unreserved(b) {
            assert(enc[0] == b as char);
            assert(enc.drop_first() =~= rest);
            assert(enc[0] != '%');
        } else {
            lemma_hex_round_trip(b);
            assert(enc[0] == '%');
            assert(enc.skip(3) =~= rest);
        }
        assert(percent_decode_spec(enc) =~= bytes);
    }
}

fn hex_digit(n: u8) -> (c: char)
    requires
        n < 16,
    ensures
        c == hex_upper(n as nat),
{
    if n < 10 {
        ((48u8 + n) as char)
    } else {
        ((65u8 + (n - 10)) as char)
    }
}

/// Percent-encodes the UTF-8 bytes of a value for use as one URL path segment.
pub fn percent_encode_path_segment(value: &str) -> (encoded: String)
    ensures
        encoded@ == percent_encode_spec(crate::text::utf8_bytes(value@)),
{
    let bytes = value.as_bytes();
    let mut encoded = String::new();
    let mut i: usize = 0;
    assert(bytes@.take(0) =~= Seq::<u8>::empty());
    while i < bytes.len()
        invariant
            i <= bytes@.len(),
            bytes@ == crate::text::utf8_bytes(value@),
            encoded@ == percent_encode_spec(bytes@.take(i as int)),
        decreases bytes@.len() - i,
    {
        let byte = bytes[i];
        proof {
            lemma_percent_encode_push(bytes@.take(i as int), byte);
            assert(bytes@.take(i + 1) =~= bytes@.take(i as int).push(byte));
        }
        if (65 <= byte && byte <= 90) || (97 <= byte && byte <= 122) || (48 <= byte && byte <= 57)
            || byte == 45 || byte == 46 || byte == 95 || byte == 126 {
            string_push(&mut encoded, byte as char);
        } else {
            string_push(&mut encoded, '%');
            string_push(&mut encoded, hex_digit(byte / 16));
            string_push(&mut encoded, hex_digit(byte % 16));
        }
        i = i + 1;
    }
    assert(bytes@.take(bytes@.len() as int) =~= bytes@);
    encoded
}

/// The text that names a reaction: the Unicode emoji itself, or `name:id` for a custom emoji
/// (with an empty name when Discord sent none).
pub open spec fn reaction_name_spec(emoji: ReactionEmoji) -> Seq<char> {
    match emoji {
        ReactionEmoji::Unicode(name) => name@,
        ReactionEmoji::Custom { id, name, .. } => custom_name_spec(name) + seq![':'] + decimal_spec(
            id as nat,
        ),
    }
}

/// A custom emoji's name, empty when Discord sent none.
pub open spec fn custom_name_spec(name: Option<String>) -> Seq<char> {
    match name {
        Some(n) => n@,
        None => Seq::empty(),
    }
}

/// A reaction as it appears in the reactions route: its name, percent-encoded.
pub open spec fn reaction_route_spec(emoji: ReactionEmoji) -> Seq<char> {
    percent_encode_spec(crate::text::utf8_bytes(reaction_name_spec(emoji)))
}

pub fn reaction_route_component(emoji: &ReactionEmoji) -> (component: String)
    ensures
        component@ == reaction_route_spec(*emoji),
{
    match emoji {
        ReactionEmoji::Unicode(name) => percent_encode_path_segment(name.as_str()),
        ReactionEmoji::Custom { id, name, .. } => {
            let mut text = String::new();
            match name {
                Some(n) => push_str(&mut text, n.as_str()),
                None => {},
            }
            string_push(&mut text, ':');
            push_decimal(&mut text, *id);
            assert(text@ == reaction_name_spec(*emoji));
            percent_encode_path_segment(text.as_str())
        },
    }
}

/// The user id after which the next page of reaction users starts: the last user of a full
/// page, and none after a short page (the list is complete).
pub open spec fn next_reaction_users_after_spec(page_len: usize, last_user_id: Option<u64>) -> Option<
    u64,
> {
    if page_len == REACTION_USERS_PAGE_LIMIT as usize {
        last_user_id
    } else {
        None
    }
}

pub fn next_reaction_users_after(page_len: usize, last_user_id: Option<u64>) -> (next: Option<u64>)
    ensures
        next == next_reaction_users_after_spec(page_len, last_user_id),
{
    if page_len == REACTION_USERS_PAGE_LIMIT as usize {
        last_user_id
    } else {
        None
    }
}

// ---------------------------------------------------------------------------
// Forum post search
// ---------------------------------------------------------------------------

/// The order in which a forum search lists posts.
#[derive(Clone, Copy, Debug, PartialEq, Eq, Structural)]
pub enum ForumSearchSort {
    LastMessageTime,
    CreationTime,
}

impl ForumSearchSort {
    pub open spec fn as_str_spec(self) -> Seq<char> {
        match self {
            ForumSearchSort::LastMessageTime => "last_message_time"@,
            ForumSearchSort::CreationTime => "creation_time"@,
        }
    }

    /// The value of the `sort_by` query parameter.
    pub fn as_str(self) -> (s: &'static str)
        ensures
            s@ == self.as_str_spec(),
    {
        match self {
            ForumSearchSort::LastMessageTime => "last_message_time",
            ForumSearchSort::CreationTime => "creation_time",
        }
    }
}

/// The text Discord's answer is turned into while a forum's search index is warming up.
pub open spec fn search_index_warming_text() -> Seq<char> {
    "forum post search index is not ready"@
}

/// Whether an error says that the forum search index is still warming up, so the search
/// is worth retrying.
pub fn is_search_index_warming(error: &AppError) -> (warming: bool)
    ensures
        warming == (error matches AppError::DiscordRequest(m) && contains_spec(
            m@,
            search_index_warming_text(),
        )),
{
    match error {
        AppError::DiscordRequest(message) => str_contains(
            message.as_str(),
            "forum post search index is not ready",
        ),
        _ => false,
    }
}

/// One page of forum posts with the first messages that preview them.
#[derive(Clone, Debug, PartialEq, Eq)]
pub struct ForumPostPage {
    pub posts: Vec<ChannelInfo>,
    pub preview_messages: Vec<MessageInfo>,
    pub has_more: bool,
    pub next_offset: usize,
}

/// Combines the two first pages of a forum (by last activity and by creation time): posts
/// and previews are deduplicated by id, the first occurrence keeping its place; pagination
/// (`has_more`, `next_offset`) follows the last-activity page.
pub fn merge_forum_pages(active: ForumPostPage, recent: ForumPostPage) -> (merged: ForumPostPage)
    ensures
        merged.posts@ == dedup_by_key(active.posts@ + recent.posts@),
        merged.preview_messages@ == dedup_by_key(
            active.preview_messages@ + recent.preview_messages@,
        ),
        merged.has_more == active.has_more,
        merged.next_offset == active.next_offset,
{
    let ForumPostPage { posts: active_posts, preview_messages: active_previews, has_more, next_offset } =
        active;
    let ForumPostPage { posts: recent_posts, preview_messages: recent_previews, .. } = recent;
    let ghost ap = active_posts@;
    let ghost rp = recent_posts@;
    let ghost am = active_previews@;
    let ghost rm = recent_previews@;

    let mut posts: Vec<ChannelInfo> = Vec::new();
    let mut seen_posts: Vec<u64> = Vec::new();
    assert(seen_posts@ =~= keys_of(posts@));
    append_unseen(&mut posts, &mut seen_posts, active_posts, Ghost(Seq::empty()));
    assert(Seq::<ChannelInfo>::empty() + ap =~= ap);
    append_unseen(&mut posts, &mut seen_posts, recent_posts, Ghost(ap));

    let mut preview_messages: Vec<MessageInfo> = Vec::new();
    let mut seen_previews: Vec<u64> = Vec::new();
    assert(seen_previews@ =~= keys_of(preview_messages@));
    append_unseen(&mut preview_messages, &mut seen_previews, active_previews, Ghost(Seq::empty()));
    assert(Seq::<MessageInfo>::empty() + am =~= am);
    append_unseen(&mut preview_messages, &mut seen_previews, recent_previews, Ghost(am));
    ForumPostPage { next_offset, posts, preview_messages, has_more }
}

/// A merged first page lists every post of both pages exactly once.
pub proof fn lemma_merged_forum_posts_unique_and_complete(active: ForumPostPage, recent: ForumPostPage, merged: ForumPostPage)
    requires
        merged.posts@ == dedup_by_key(active.posts@ + recent.posts@),
    ensures
        unique_keys(merged.posts@),
        forall|id: u64| keys_of(merged.posts@).contains(id) <==> (keys_of(active.posts@).contains(id)
            || keys_of(recent.posts@).contains(id)),
{
    let all = active.posts@ + recent.posts@;
    lemma_dedup_by_key(all);
    assert(keys_of(all) =~= keys_of(active.posts@) + keys_of(recent.posts@));
    assert forall|id: u64| keys_of(all).contains(id) <==> (keys_of(active.posts@).contains(id)
        || keys_of(recent.posts@).contains(id)) by {
        let ka = keys_of(active.posts@);
        let kr = keys_of(recent.posts@);
        if keys_of(all).contains(id) {
            let k = choose|k: int| 0 <= k < keys_of(all).len() && keys_of(all)[k] == id;
            if k < ka.len() {
                assert(ka[k] == id);
            } else {
                assert(kr[k - ka.len()] == id);
            }
        }
        if ka.contains(id) {
            let k = choose|k: int| 0 <= k < ka.len() && ka[k] == id;
            assert(keys_of(all)[k] == id);
        }
        if kr.contains(id) {
            let k = choose|k: int| 0 <= k < kr.len() && kr[k] == id;
            assert(keys_of(all)[k + ka.len()] == id);
        }
    }
    assert forall|id: u64| keys_of(merged.posts@).contains(id) <==> (keys_of(active.posts@).contains(id)
        || keys_of(recent.posts@).contains(id)) by {
        assert(keys_of(merged.posts@).contains(id) <==> keys_of(all).contains(id));
    }
}

/// A thread of a forum search page, its parent filled in with the forum where it has none.
pub open spec fn with_parent(post: ChannelInfo, parent: u64) -> ChannelInfo {
    if post.parent_id is None {
        ChannelInfo { parent_id: Some(parent), ..post }
    } else {
        post
    }
}

/// The posts of a forum search page: each thread with its parent filled in, keeping those
/// whose parent is the forum, in order.
pub open spec fn forum_posts_of(threads: Seq<ChannelInfo>, parent: u64) -> Seq<ChannelInfo>
    decreases threads.len(),
{
    if threads.len() == 0 {
        Seq::empty()
    } else {
        let prev = forum_posts_of(threads.drop_last(), parent);
        let post = with_parent(threads.last(), parent);
        if post.parent_id == Some(parent) {
            prev.push(post)
        } else {
            prev
        }
    }
}

/// The messages of `ms` that belong to one of `posts`, in order.
pub open spec fn previews_of(ms: Seq<MessageInfo>, posts: Seq<ChannelInfo>) -> Seq<MessageInfo>
    decreases ms.len(),
{
    if ms.len() == 0 {
        Seq::empty()
    } else {
        let prev = previews_of(ms.drop_last(), posts);
        if keys_of(posts).contains(ms.last().channel_id) {
            prev.push(ms.last())
        } else {
            prev
        }
    }
}

/// Builds one page of a forum search from Discord's answer: the threads of the forum (with
/// the forum as parent where the answer gives none), the preview messages of those threads
/// from the `first_messages`, `messages` and `most_recent_messages` lists in that order, each
/// message once; the next page starts after these posts.
pub fn forum_post_page(
    threads: Vec<ChannelInfo>,
    first_messages: Vec<MessageInfo>,
    messages: Vec<MessageInfo>,
    most_recent_messages: Vec<MessageInfo>,
    parent_channel_id: u64,
    offset: usize,
    has_more: bool,
) -> (page: ForumPostPage)
    ensures
        page.posts@ == forum_posts_of(threads@, parent_channel_id),
        page.preview_messages@ == dedup_by_key(
            previews_of(first_messages@ + messages@ + most_recent_messages@, page.posts@),
        ),
        page.next_offset == (if offset + page.posts@.len() > usize::MAX {
            usize::MAX as int
        } else {
            offset + page.posts@.len()
        }),
        page.has_more == has_more,
{
    let ghost raw = threads@;
    let mut posts: Vec<ChannelInfo> = Vec::new();
    let mut post_ids: Vec<u64> = Vec::new();
    for thread in it: threads.into_iter()
        invariant
            it.seq() == raw,
            posts@ == forum_posts_of(raw.take(it.index() as int), parent_channel_id),
            post_ids@ == keys_of(posts@),
    {
        let ghost k = it.index() as int;
        assert(raw.take(k + 1).drop_last() =~= raw.take(k));
        assert(raw.take(k + 1).last() == thread);
        let mut post = thread;
        if post.parent_id.is_none() {
            post.parent_id = Some(parent_channel_id);
        }
        if post.parent_id == Some(parent_channel_id) {
            let ghost before = posts@;
            post_ids.push(post.channel_id);
            posts.push(post);
            assert(keys_of(posts@) =~= keys_of(before).push(posts@.last().channel_id));
        }
    }
    assert(raw.take(raw.len() as int) =~= raw);
    let ghost all = first_messages@ + messages@ + most_recent_messages@;
    let mut candidates: Vec<MessageInfo> = Vec::new();
    let mut lists: Vec<Vec<MessageInfo>> = Vec::new();
    lists.push(first_messages);
    lists.push(messages);
    lists.push(most_recent_messages);
    let ghost parts = lists@.map_values(|l: Vec<MessageInfo>| l@);
    let ghost concat = parts[0] + parts[1] + parts[2];
    assert(concat =~= all);
    let mut flat: Vec<MessageInfo> = Vec::new();
    for list in lt: lists.into_iter()
        invariant
            lt.seq().map_values(|l: Vec<MessageInfo>| l@) == parts,
            parts.len() == 3,
            flat@ == (if lt.index() == 0 {
                Seq::empty()
            } else if lt.index() == 1 {
                parts[0]
            } else if lt.index() == 2 {
                parts[0] + parts[1]
            } else {
                parts[0] + parts[1] + parts[2]
            }),
    {
        let ghost before = flat@;
        let ghost idx = lt.index() as int;
        assert(list@ == parts[idx]);
        let mut list = list;
        flat.append(&mut list);
        proof {
            if idx == 0 {
                assert(flat@ =~= parts[0]);
            }
        }
    }
    assert(flat@ =~= all);
    let ghost fl = flat@;
    for m in mt: flat.into_iter()
        invariant
            mt.seq() == fl,
            post_ids@ == keys_of(posts@),
            candidates@ == previews_of(fl.take(mt.index() as int), posts@),
    {
        let ghost k = mt.index() as int;
        assert(fl.take(k + 1).drop_last() =~= fl.take(k));
        assert(fl.take(k + 1).last() == m);
        if ids_contain(&post_ids, m.channel_id) {
            candidates.push(m);
        }
    }
    assert(fl.take(fl.len() as int) =~= fl);
    let mut preview_messages: Vec<MessageInfo> = Vec::new();
    let mut seen: Vec<u64> = Vec::new();
    assert(seen@ =~= keys_of(preview_messages@));
    assert(preview_messages@ =~= dedup_by_key(Seq::<MessageInfo>::empty()));
    let ghost cand = candidates@;
    append_unseen(&mut preview_messages, &mut seen, candidates, Ghost(Seq::empty()));
    assert(Seq::<MessageInfo>::empty() + cand =~= cand);
    let next_offset = offset.saturating_add(posts.len());
    ForumPostPage { posts, preview_messages, has_more, next_offset }
}

} // verus!
