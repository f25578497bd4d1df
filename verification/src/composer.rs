use vstd::prelude::*;

use crate::dashboard::{DashboardState, FocusPane};
use crate::discord::{MAX_UPLOAD_ATTACHMENT_COUNT, MessageAttachmentUpload};
use crate::discord_state::{ChannelKind, MessageState};
use crate::scroll::clamp_index_spec;
use crate::events::AppCommand;
use crate::text::{
    chars_of, utf8_bytes, utf8_prefix_len,
    chars_between, decimal_chars, decimal_spec, is_whitespace, is_whitespace_spec, splice_chars,
    string_from_chars, trim_chars, trim_spec,
};

verus! {

/// A `@name` the mention picker inserted, with the user it stands for. `start` and `end` are
/// character positions in the composer text: the `@` and the position just after the name.
#[derive(Clone, Copy, Debug, PartialEq, Eq, Structural)]
pub struct MentionCompletion {
    pub start: usize,
    pub end: usize,
    pub user_id: u64,
}

/// The message composer: the text being written with its cursor, the files to upload with
/// it, what it answers or edits, and the state of the `@mention` picker.
#[derive(Debug)]
pub struct ComposerState {
    /// The text, one character per entry.
    pub input: Vec<char>,
    /// The cursor, as a number of characters before it; read clamped to the text's length.
    pub cursor: usize,
    pub pending_attachments: Vec<MessageAttachmentUpload>,
    pub active: bool,
    pub reply_target_message_id: Option<u64>,
    /// The channel and message being edited.
    pub edit_target_message: Option<(u64, u64)>,
    /// The characters typed after the `@` while the picker is open.
    pub mention_query: Option<Vec<char>>,
    /// The position of that `@`.
    pub mention_start: Option<usize>,
    pub mention_selected: usize,
    pub mention_completions: Vec<MentionCompletion>,
}

/// Discord's message type for a plain message.
pub const DEFAULT_MESSAGE_KIND: u8 = 0;
/// Discord's message type for a reply.
pub const REPLY_MESSAGE_KIND: u8 = 19;

/// The message types a user writes (plain messages and replies), the ones that can be
/// edited.
pub open spec fn is_regular_message_kind(kind: u8) -> bool {
    kind == DEFAULT_MESSAGE_KIND || kind == REPLY_MESSAGE_KIND
}

/// Characters that may follow `@` in a mention query.
pub open spec fn is_mention_query_char_spec(c: char) -> bool {
    ||| ('a' <= c && c <= 'z')
    ||| ('A' <= c && c <= 'Z')
    ||| ('0' <= c && c <= '9')
    ||| c == '_'
    ||| c == '.'
    ||| c == '-'
}

pub fn is_mention_query_char(c: char) -> (b: bool)
    ensures
        b == is_mention_query_char_spec(c),
{
    ('a' <= c && c <= 'z') || ('A' <= c && c <= 'Z') || ('0' <= c && c <= '9') || c == '_' || c
        == '.' || c == '-'
}

/// An `@` opens the picker only at the start of the text or after whitespace, so that an
/// e-mail address does not.
pub open spec fn starts_mention_query_spec(before: Seq<char>) -> bool {
    before.len() == 0 || is_whitespace_spec(before.last())
}

/// Where the run of mention-query characters that ends at `end` begins.
pub open spec fn query_run_start(s: Seq<char>, end: int) -> int
    decreases end,
{
    if end <= 0 {
        0
    } else if is_mention_query_char_spec(s[end - 1]) {
        query_run_start(s, end - 1)
    } else {
        end
    }
}

/// The position of the `@` of the mention being typed at `cursor`, if one is.
pub open spec fn active_mention(s: Seq<char>, cursor: int) -> Option<int> {
    let q = query_run_start(s, cursor);
    if q > 0 && s[q - 1] == '@' && starts_mention_query_spec(s.take(q - 1)) {
        Some(q - 1)
    } else {
        None
    }
}

/// `i` moved by the change of length of an edit that removed `removed` characters and put
/// `added` in their place, kept within `0..=usize::MAX`.
pub open spec fn shift_index_spec(i: usize, removed: nat, added: nat) -> usize {
    if added >= removed {
        if i + (added - removed) > usize::MAX {
            usize::MAX
        } else {
            (i + (added - removed)) as usize
        }
    } else if i >= removed - added {
        (i - (removed - added)) as usize
    } else {
        0
    }
}

/// A completion after an edit of the positions `start..end`: kept where it lies wholly
/// before the edit, moved where it lies wholly after it, dropped where the edit touches it.
pub open spec fn adjusted_completion(c: MentionCompletion, start: nat, end: nat, added: nat) -> Option<
    MentionCompletion,
> {
    if c.end <= start {
        Some(c)
    } else if c.start >= end {
        Some(
            MentionCompletion {
                start: shift_index_spec(c.start, (end - start) as nat, added),
                end: shift_index_spec(c.end, (end - start) as nat, added),
                user_id: c.user_id,
            },
        )
    } else {
        None
    }
}

/// The completions that survive an edit, in their order, each adjusted.
pub open spec fn adjust_completions(cs: Seq<MentionCompletion>, start: nat, end: nat, added: nat) -> Seq<
    MentionCompletion,
>
    decreases cs.len(),
{
    if cs.len() == 0 {
        Seq::empty()
    } else {
        let prev = adjust_completions(cs.drop_last(), start, end, added);
        match adjusted_completion(cs.last(), start, end, added) {
            Some(c) => prev.push(c),
            None => prev,
        }
    }
}

/// The first completion, in the order they are kept, that starts at `pos` and covers at
/// least one character.
pub open spec fn completion_at(cs: Seq<MentionCompletion>, pos: int) -> Option<MentionCompletion>
    decreases cs.len(),
{
    if cs.len() == 0 {
        None
    } else if cs[0].start == pos && cs[0].start < cs[0].end {
        Some(cs[0])
    } else {
        completion_at(cs.drop_first(), pos)
    }
}

pub proof fn lemma_completion_at(cs: Seq<MentionCompletion>, pos: int)
    ensures
        completion_at(cs, pos) matches Some(c) ==> c.start == pos && c.start < c.end,
    decreases cs.len(),
{
    if cs.len() > 0 {
        lemma_completion_at(cs.drop_first(), pos);
    }
}

/// Discord's wire form of a user mention, `<@USER_ID>`.
pub open spec fn mention_tag(user_id: u64) -> Seq<char> {
    seq!['<', '@'] + decimal_spec(user_id as nat) + seq!['>']
}

/// The text from position `i` on, with every completion that starts there and lies within
/// the text written in wire form in place of the name it covers.
pub open spec fn expand_from(s: Seq<char>, cs: Seq<MentionCompletion>, i: int) -> Seq<char>
    decreases s.len() - i,
{
    if i < 0 || i >= s.len() {
        Seq::empty()
    } else {
        let found = completion_at(cs, i);
        if found is Some && found->0.end <= s.len() {
            proof {
                lemma_completion_at(cs, i);
            }
            mention_tag(found->0.user_id) + expand_from(s, cs, found->0.end as int)
        } else {
            seq![s[i]] + expand_from(s, cs, i + 1)
        }
    }
}

/// The text of the composer with its completions in wire form.
pub open spec fn expand_mentions_spec(s: Seq<char>, cs: Seq<MentionCompletion>) -> Seq<char> {
    expand_from(s, cs, 0)
}

fn find_completion_at(cs: &Vec<MentionCompletion>, pos: usize) -> (found: Option<
    MentionCompletion,
>)
    ensures
        found == completion_at(cs@, pos as int),
{
    let mut k: usize = 0;
    assert(cs@.skip(0) == cs@);
    while k < cs.len()
        invariant
            k <= cs@.len(),
            completion_at(cs@.skip(k as int), pos as int) == completion_at(cs@, pos as int),
        decreases cs@.len() - k,
    {
        assert(cs@.skip(k as int).drop_first() == cs@.skip(k + 1));
        let c = cs[k];
        if c.start == pos && c.start < c.end {
            return Some(c);
        }
        k = k + 1;
    }
    None
}

fn mention_tag_chars(user_id: u64) -> (out: Vec<char>)
    ensures
        out@ == mention_tag(user_id),
{
    let mut out: Vec<char> = Vec::new();
    out.push('<');
    out.push('@');
    let mut digits = decimal_chars(user_id);
    out.append(&mut digits);
    out.push('>');
    out
}

/// The composer text with its completions written as `<@USER_ID>`.
pub fn expand_mention_completions(s: &[char], cs: &Vec<MentionCompletion>) -> (out: Vec<char>)
    ensures
        out@ == expand_mentions_spec(s@, cs@),
{
    let mut out: Vec<char> = Vec::new();
    let mut i: usize = 0;
    while i < s.len()
        invariant
            i <= s@.len(),
            out@ + expand_from(s@, cs@, i as int) == expand_from(s@, cs@, 0),
        decreases s@.len() - i,
    {
        let found = find_completion_at(cs, i);
        proof {
            lemma_completion_at(cs@, i as int);
        }
        match found {
            Some(c) => {
                if c.end <= s.len() {
                    let mut tag = mention_tag_chars(c.user_id);
                    let ghost before = out@;
                    out.append(&mut tag);
                    assert(out@ + expand_from(s@, cs@, c.end as int) == before + (mention_tag(
                        c.user_id,
                    ) + expand_from(s@, cs@, c.end as int)));
                    i = c.end;
                } else {
                    let ghost before = out@;
                    out.push(s[i]);
                    assert(out@ + expand_from(s@, cs@, i + 1) == before + (seq![s@[i as int]]
                        + expand_from(s@, cs@, i + 1)));
                    i = i + 1;
                }
            },
            None => {
                let ghost before = out@;
                out.push(s[i]);
                assert(out@ + expand_from(s@, cs@, i + 1) == before + (seq![s@[i as int]]
                    + expand_from(s@, cs@, i + 1)));
                i = i + 1;
            },
        }
    }
    assert(out@ + expand_from(s@, cs@, i as int) == out@);
    out
}

/// Typing a character and then pressing backspace gives back the text and the cursor.
pub proof fn lemma_typing_then_backspace_restores_text(
    before: ComposerState,
    typed: ComposerState,
    after: ComposerState,
    c: char,
)
    requires
        typed.is_edit_of(before, before.cursor_spec(), before.cursor_spec(), seq![c]),
        after.is_edit_of(
            typed,
            (typed.cursor_spec() - 1) as nat,
            typed.cursor_spec(),
            Seq::empty(),
        ),
    ensures
        after.input@ == before.input@,
        after.cursor_spec() == before.cursor_spec(),
        before.mention_query_fresh() ==> after.mention_start == before.mention_start && (
        after.mention_query is Some <==> before.mention_query is Some),
{
    let k = before.cursor_spec() as int;
    assert(typed.cursor_spec() == k + 1);
    assert(after.input@ =~= before.input@);
}

/// Without completions the composer text goes out as it stands.
pub proof fn lemma_expand_without_completions(s: Seq<char>, i: int)
    requires
        0 <= i <= s.len(),
    ensures
        expand_from(s, Seq::empty(), i) == s.skip(i),
    decreases s.len() - i,
{
    if i < s.len() {
        lemma_expand_without_completions(s, i + 1);
        assert(s.skip(i) =~= seq![s[i]] + s.skip(i + 1));
    } else {
        assert(s.skip(i) =~= Seq::<char>::empty());
    }
}

/// A completion that an edit keeps covers, after the edit, the same characters as before.
pub proof fn lemma_kept_completion_covers_same_text(
    text: Seq<char>,
    c: MentionCompletion,
    start: nat,
    end: nat,
    inserted: Seq<char>,
)
    requires
        start <= end <= text.len(),
        c.start <= c.end <= text.len(),
        text.take(start as int).len() + inserted.len() + text.skip(end as int).len() <= usize::MAX,
        adjusted_completion(c, start, end, inserted.len()) is Some,
    ensures
        ({
            let edited = text.take(start as int) + inserted + text.skip(end as int);
            let d = adjusted_completion(c, start, end, inserted.len())->0;
            &&& d.user_id == c.user_id
            &&& d.start <= d.end <= edited.len()
            &&& edited.subrange(d.start as int, d.end as int) == text.subrange(
                c.start as int,
                c.end as int,
            )
        }),
{
    let edited = text.take(start as int) + inserted + text.skip(end as int);
    let d = adjusted_completion(c, start, end, inserted.len())->0;
    if c.end <= start {
        assert(edited.subrange(d.start as int, d.end as int) =~= text.subrange(
            c.start as int,
            c.end as int,
        ));
    } else {
        let shift = inserted.len() - (end - start);
        assert(d.start == c.start + shift);
        assert(d.end == c.end + shift);
        assert forall|k: int| 0 <= k < c.end - c.start implies #[trigger] edited.subrange(
            d.start as int,
            d.end as int,
        )[k] == text.subrange(c.start as int, c.end as int)[k] by {
            assert(d.start + k >= start + inserted.len());
        }
        assert(edited.subrange(d.start as int, d.end as int) =~= text.subrange(
            c.start as int,
            c.end as int,
        ));
    }
}

/// A position after an edit moves by exactly the change of length (removed characters out,
/// added ones in), unless that would leave the range of `usize`.
pub proof fn lemma_shift_moves_by_change_of_length(i: usize, removed: nat, added: nat)
    ensures
        i + added >= removed && i + added - removed <= usize::MAX ==> shift_index_spec(i, removed, added)
            == i + added - removed,
{
}

/// An edit of `start..end` keeps every completion it does not touch: one lying wholly before
/// the edit stays as it was, and one lying wholly after it is kept, moved by the change of
/// length and still naming the same user.
pub proof fn lemma_edit_keeps_untouched_completions(
    cs: Seq<MentionCompletion>,
    start: nat,
    end: nat,
    added: nat,
    j: int,
)
    requires
        0 <= j < cs.len(),
    ensures
        cs[j].end <= start ==> adjust_completions(cs, start, end, added).contains(cs[j]),
        cs[j].end > start && cs[j].start >= end ==> adjust_completions(cs, start, end, added).contains(
            MentionCompletion {
                start: shift_index_spec(cs[j].start, (end - start) as nat, added),
                end: shift_index_spec(cs[j].end, (end - start) as nat, added),
                user_id: cs[j].user_id,
            },
        ),
    decreases cs.len(),
{
    let prev = adjust_completions(cs.drop_last(), start, end, added);
    let out = adjust_completions(cs, start, end, added);
    assert forall|x: MentionCompletion| prev.contains(x) implies out.contains(x) by {
        let k = choose|k: int| 0 <= k < prev.len() && prev[k] == x;
        match adjusted_completion(cs.last(), start, end, added) {
            Some(c) => assert(out[k] == x),
            None => {},
        }
    }
    if j < cs.len() - 1 {
        assert(cs.drop_last()[j] == cs[j]);
        lemma_edit_keeps_untouched_completions(cs.drop_last(), start, end, added, j);
    } else {
        match adjusted_completion(cs.last(), start, end, added) {
            Some(c) => assert(out[out.len() - 1] == c),
            None => {},
        }
    }
}

/// An edit of `start..end` keeps exactly the completions it does not touch: as many as lie
/// wholly before or wholly after it.
pub proof fn lemma_edit_keeps_count_of_untouched_completions(
    cs: Seq<MentionCompletion>,
    start: nat,
    end: nat,
    added: nat,
)
    ensures
        adjust_completions(cs, start, end, added).len() == cs.filter(
            |c: MentionCompletion| c.end <= start || c.start >= end,
        ).len(),
    decreases cs.len(),
{
    reveal(Seq::filter);
    if cs.len() > 0 {
        lemma_edit_keeps_count_of_untouched_completions(cs.drop_last(), start, end, added);
    }
}

/// Every completion after an edit is one from before the edit, adjusted.
pub proof fn lemma_adjusted_completions_come_from_old(
    cs: Seq<MentionCompletion>,
    start: nat,
    end: nat,
    added: nat,
    i: int,
)
    requires
        0 <= i < adjust_completions(cs, start, end, added).len(),
    ensures
        exists|j: int|
            0 <= j < cs.len() && adjusted_completion(cs[j], start, end, added) == Some(
                #[trigger] adjust_completions(cs, start, end, added)[i],
            ),
    decreases cs.len(),
{
    let prev = adjust_completions(cs.drop_last(), start, end, added);
    if i < prev.len() {
        lemma_adjusted_completions_come_from_old(cs.drop_last(), start, end, added, i);
        let j = choose|j: int|
            0 <= j < cs.drop_last().len() && adjusted_completion(
                cs.drop_last()[j],
                start,
                end,
                added,
            ) == Some(#[trigger] adjust_completions(cs.drop_last(), start, end, added)[i]);
        assert(cs[j] == cs.drop_last()[j]);
    } else {
        assert(adjusted_completion(cs[cs.len() - 1], start, end, added) == Some(
            adjust_completions(cs, start, end, added)[i],
        ));
    }
}

/// Completion `i` of `after` is completion `j` of `before`: same user, and it covers the
/// same characters.
pub open spec fn completion_carried(before: ComposerState, after: ComposerState, j: int, i: int) -> bool {
    let c = before.mention_completions@[j];
    let d = after.mention_completions@[i];
    &&& d.user_id == c.user_id
    &&& d.start <= d.end <= after.input@.len()
    &&& after.input@.subrange(d.start as int, d.end as int) == before.input@.subrange(
        c.start as int,
        c.end as int,
    )
}

/// Editing the composer text leaves each surviving `@name` completion on the very name it
/// was made for, with the same user.
pub proof fn lemma_edit_keeps_completion_text(
    before: ComposerState,
    after: ComposerState,
    start: nat,
    end: nat,
    inserted: Seq<char>,
    i: int,
)
    requires
        after.is_edit_of(before, start, end, inserted),
        start <= end <= before.input@.len(),
        forall|j: int|
            0 <= j < before.mention_completions@.len() ==> #[trigger] before.mention_completions@[j].start
                <= before.mention_completions@[j].end <= before.input@.len(),
        0 <= i < after.mention_completions@.len(),
    ensures
        exists|j: int|
            0 <= j < before.mention_completions@.len() && #[trigger] completion_carried(
                before,
                after,
                j,
                i,
            ),
{
    assert(after.input.len() == after.input@.len());
    lemma_adjusted_completions_come_from_old(
        before.mention_completions@,
        start,
        end,
        inserted.len(),
        i,
    );
    let j = choose|j: int|
        0 <= j < before.mention_completions@.len() && adjusted_completion(
            before.mention_completions@[j],
            start,
            end,
            inserted.len(),
        ) == Some(
            #[trigger] adjust_completions(
                before.mention_completions@,
                start,
                end,
                inserted.len(),
            )[i],
        );
    let c = before.mention_completions@[j];
    lemma_kept_completion_covers_same_text(before.input@, c, start, end, inserted);
    assert(completion_carried(before, after, j, i));
}

fn shift_index(i: usize, removed: usize, added: usize) -> (j: usize)
    ensures
        j == shift_index_spec(i, removed as nat, added as nat),
{
    if added >= removed {
        i.saturating_add(added - removed)
    } else {
        i.saturating_sub(removed - added)
    }
}

fn adjust_completions_exec(cs: &Vec<MentionCompletion>, start: usize, end: usize, added: usize) -> (out:
    Vec<MentionCompletion>)
    requires
        start <= end,
    ensures
        out@ == adjust_completions(cs@, start as nat, end as nat, added as nat),
{
    let mut out: Vec<MentionCompletion> = Vec::new();
    let mut i: usize = 0;
    while i < cs.len()
        invariant
            start <= end,
            i <= cs@.len(),
            out@ == adjust_completions(cs@.take(i as int), start as nat, end as nat, added as nat),
        decreases cs@.len() - i,
    {
        let c = cs[i];
        assert(cs@.take(i + 1).drop_last() == cs@.take(i as int));
        if c.end <= start {
            out.push(c);
        } else if c.start >= end {
            out.push(
                MentionCompletion {
                    start: shift_index(c.start, end - start, added),
                    end: shift_index(c.end, end - start, added),
                    user_id: c.user_id,
                },
            );
        }
        i = i + 1;
    }
    assert(cs@.take(cs@.len() as int) == cs@);
    out
}

impl ComposerState {
    /// A closed composer with no text, attachments, target or completions.
    pub open spec fn is_cleared(self) -> bool {
        &&& self.input@.len() == 0
        &&& self.cursor == 0
        &&& self.pending_attachments@.len() == 0
        &&& !self.active
        &&& self.reply_target_message_id is None
        &&& self.edit_target_message is None
        &&& self.mention_closed()
        &&& self.mention_completions@.len() == 0
    }

    pub fn new() -> (c: Self)
        ensures
            c.is_cleared(),
    {
        ComposerState {
            input: Vec::new(),
            cursor: 0,
            pending_attachments: Vec::new(),
            active: false,
            reply_target_message_id: None,
            edit_target_message: None,
            mention_query: None,
            mention_start: None,
            mention_selected: 0,
            mention_completions: Vec::new(),
        }
    }

    /// The cursor, clamped to the text.
    pub open spec fn cursor_spec(self) -> nat {
        if self.cursor <= self.input@.len() {
            self.cursor as nat
        } else {
            self.input@.len()
        }
    }

    /// The picker is open exactly when a mention is being typed at the cursor, holds what
    /// follows its `@` up to the cursor, and highlights its first entry.
    pub open spec fn mention_query_fresh(self) -> bool {
        let cursor = self.cursor_spec() as int;
        match active_mention(self.input@, cursor) {
            Some(at) => {
                &&& self.mention_query matches Some(q) && q@ == self.input@.subrange(at + 1, cursor)
                &&& self.mention_start == Some(at as usize)
                &&& self.mention_selected == 0
            },
            None => {
                &&& self.mention_query is None
                &&& self.mention_start is None
                &&& self.mention_selected == 0
            },
        }
    }

    /// The picker is closed.
    pub open spec fn mention_closed(self) -> bool {
        &&& self.mention_query is None
        &&& self.mention_start is None
        &&& self.mention_selected == 0
    }

    /// Everything but the picker is as in `other`.
    pub open spec fn same_but_mention(self, other: ComposerState) -> bool {
        &&& self.input == other.input
        &&& self.cursor == other.cursor
        &&& self.pending_attachments == other.pending_attachments
        &&& self.active == other.active
        &&& self.reply_target_message_id == other.reply_target_message_id
        &&& self.edit_target_message == other.edit_target_message
        &&& self.mention_completions == other.mention_completions
    }

    /// Neither the text nor its cursor nor the completions changed.
    pub open spec fn same_targets(self, other: ComposerState) -> bool {
        &&& self.pending_attachments == other.pending_attachments
        &&& self.active == other.active
        &&& self.reply_target_message_id == other.reply_target_message_id
        &&& self.edit_target_message == other.edit_target_message
    }

    /// This composer is `old` with the characters from `start` up to `end` replaced by
    /// `text`: the cursor after the new text, the completions the edit touched dropped and
    /// the others moved with their names, the picker refreshed.
    pub open spec fn is_edit_of(self, old: ComposerState, start: nat, end: nat, text: Seq<char>) -> bool {
        &&& self.input@ == old.input@.take(start as int) + text + old.input@.skip(end as int)
        &&& self.cursor == start + text.len()
        &&& self.mention_completions@ == adjust_completions(
            old.mention_completions@,
            start,
            end,
            text.len(),
        )
        &&& self.mention_query_fresh()
        &&& self.same_targets(old)
    }

    /// This composer is `old` with the cursor at `pos` and the picker refreshed.
    pub open spec fn is_move_of(self, old: ComposerState, pos: nat) -> bool {
        &&& self.cursor == pos
        &&& self.input == old.input
        &&& self.mention_completions == old.mention_completions
        &&& self.mention_query_fresh()
        &&& self.same_targets(old)
    }

    /// The attachments after adding `added`: as many as fit under the limit, in order.
    pub open spec fn with_attachments_spec(
        pending: Seq<MessageAttachmentUpload>,
        added: Seq<MessageAttachmentUpload>,
    ) -> Seq<MessageAttachmentUpload> {
        let room: int = if pending.len() >= MAX_UPLOAD_ATTACHMENT_COUNT {
            0
        } else {
            MAX_UPLOAD_ATTACHMENT_COUNT - pending.len()
        };
        if added.len() <= room {
            pending + added
        } else {
            pending + added.take(room)
        }
    }

    /// What a submit sends: the text with completions in wire form, trimmed.
    pub open spec fn submitted_content(self) -> Seq<char> {
        trim_spec(expand_mentions_spec(self.input@, self.mention_completions@))
    }

    pub fn cursor_index(&self) -> (c: usize)
        ensures
            c == self.cursor_spec(),
    {
        if self.cursor <= self.input.len() {
            self.cursor
        } else {
            self.input.len()
        }
    }

    fn close_mention_query(&mut self)
        ensures
            final(self).mention_closed(),
            final(self).same_but_mention(*old(self)),
    {
        self.mention_query = None;
        self.mention_start = None;
        self.mention_selected = 0;
    }

    /// Opens, updates or closes the picker after the text or the cursor moved.
    fn refresh_mention_query(&mut self)
        ensures
            final(self).mention_query_fresh(),
            final(self).same_but_mention(*old(self)),
    {
        let cursor = self.cursor_index();
        let mut q = cursor;
        while q > 0 && is_mention_query_char(self.input[q - 1])
            invariant
                q <= cursor <= self.input@.len(),
                query_run_start(self.input@, cursor as int) == query_run_start(
                    self.input@,
                    q as int,
                ),
            decreases q,
        {
            q = q - 1;
        }
        assert(query_run_start(self.input@, q as int) == q);
        if q > 0 && self.input[q - 1] == '@' {
            let at = q - 1;
            assert(self.input@.take(at as int).len() == at);
            let starts = at == 0 || is_whitespace(self.input[at - 1]);
            if starts {
                let query = chars_between(self.input.as_slice(), q, cursor);
                self.mention_query = Some(query);
                self.mention_start = Some(at);
                self.mention_selected = 0;
                return;
            }
        }
        self.close_mention_query();
    }

    /// Replaces the characters from `start` up to `end` with `text`, keeps the completions
    /// the edit does not touch, puts the cursor after the new text and refreshes the picker.
    pub fn replace_range(&mut self, start: usize, end: usize, text: &[char])
        requires
            start <= end <= old(self).input@.len(),
        ensures
            final(self).is_edit_of(*old(self), start as nat, end as nat, text@),
    {
        let completions = adjust_completions_exec(&self.mention_completions, start, end, text.len());
        self.mention_completions = completions;
        let spliced = splice_chars(self.input.as_slice(), start, end, text);
        self.input = spliced;
        let total = self.input.len();
        assert(total == start + text@.len() + (old(self).input@.len() - end));
        self.cursor = start + text.len();
        self.refresh_mention_query();
    }

    /// Inserts text at the cursor; nothing happens for empty text.
    pub fn insert_text(&mut self, text: &[char])
        ensures
            text@.len() == 0 ==> *final(self) == *old(self),
            text@.len() > 0 ==> final(self).is_edit_of(
                *old(self),
                old(self).cursor_spec(),
                old(self).cursor_spec(),
                text@,
            ),
    {
        if text.len() == 0 {
            return;
        }
        let cursor = self.cursor_index();
        self.replace_range(cursor, cursor, text);
    }

    /// Removes the character before the cursor; nothing happens at the start of the text.
    pub fn backspace(&mut self)
        ensures
            old(self).cursor_spec() == 0 ==> *final(self) == *old(self),
            old(self).cursor_spec() > 0 ==> final(self).is_edit_of(
                *old(self),
                (old(self).cursor_spec() - 1) as nat,
                old(self).cursor_spec(),
                Seq::empty(),
            ),
    {
        let end = self.cursor_index();
        if end == 0 {
            return;
        }
        let empty: Vec<char> = Vec::new();
        self.replace_range(end - 1, end, empty.as_slice());
    }

    /// Removes the character after the cursor; nothing happens at the end of the text.
    pub fn delete_forward(&mut self)
        ensures
            old(self).cursor_spec() >= old(self).input@.len() ==> *final(self) == *old(self),
            old(self).cursor_spec() < old(self).input@.len() ==> final(self).is_edit_of(
                *old(self),
                old(self).cursor_spec(),
                old(self).cursor_spec() + 1,
                Seq::empty(),
            ),
    {
        let start = self.cursor_index();
        if start >= self.input.len() {
            return;
        }
        let empty: Vec<char> = Vec::new();
        self.replace_range(start, start + 1, empty.as_slice());
    }

    fn move_cursor_to(&mut self, pos: usize)
        requires
            pos <= old(self).input@.len(),
        ensures
            final(self).is_move_of(*old(self), pos as nat),
    {
        self.cursor = pos;
        self.refresh_mention_query();
    }

    /// Moves the cursor one character back, staying at the start.
    pub fn move_left(&mut self)
        ensures
            final(self).is_move_of(
                *old(self),
                if old(self).cursor_spec() == 0 {
                    0
                } else {
                    (old(self).cursor_spec() - 1) as nat
                },
            ),
    {
        let cursor = self.cursor_index();
        let pos = if cursor == 0 {
            0
        } else {
            cursor - 1
        };
        self.move_cursor_to(pos);
    }

    /// Moves the cursor one character on, staying at the end.
    pub fn move_right(&mut self)
        ensures
            final(self).is_move_of(
                *old(self),
                if old(self).cursor_spec() < old(self).input@.len() {
                    old(self).cursor_spec() + 1
                } else {
                    old(self).input@.len()
                },
            ),
    {
        let cursor = self.cursor_index();
        let pos = if cursor < self.input.len() {
            cursor + 1
        } else {
            self.input.len()
        };
        self.move_cursor_to(pos);
    }

    pub fn move_home(&mut self)
        ensures
            final(self).is_move_of(*old(self), 0),
    {
        self.move_cursor_to(0);
    }

    pub fn move_end(&mut self)
        ensures
            final(self).is_move_of(*old(self), old(self).input@.len()),
    {
        let len = self.input.len();
        self.move_cursor_to(len);
    }

    /// Closes the picker and forgets the completions.
    pub fn reset_mention_picker(&mut self)
        ensures
            final(self).mention_closed(),
            final(self).mention_completions@.len() == 0,
            final(self).input == old(self).input,
            final(self).cursor == old(self).cursor,
            final(self).same_targets(*old(self)),
    {
        self.close_mention_query();
        self.mention_completions.clear();
    }

    /// Closes the picker; the typed `@query` stays in the text.
    pub fn cancel_mention(&mut self)
        ensures
            final(self).mention_closed(),
            final(self).same_but_mention(*old(self)),
    {
        self.close_mention_query();
    }

    /// Empties and closes the composer.
    pub fn clear(&mut self)
        ensures
            final(self).is_cleared(),
    {
        self.active = false;
        self.input.clear();
        self.cursor = 0;
        self.pending_attachments.clear();
        self.reply_target_message_id = None;
        self.edit_target_message = None;
        self.reset_mention_picker();
    }

    /// Adds attachments, as many as fit under the limit, when the composer accepts them.
    pub fn add_attachments(&mut self, attachments: Vec<MessageAttachmentUpload>, accepts: bool)
        ensures
            attachments@.len() == 0 || !accepts ==> *final(self) == *old(self),
            attachments@.len() > 0 && accepts ==> final(self).pending_attachments@
                == Self::with_attachments_spec(old(self).pending_attachments@, attachments@),
            final(self).input == old(self).input,
            final(self).cursor == old(self).cursor,
            final(self).active == old(self).active,
            final(self).reply_target_message_id == old(self).reply_target_message_id,
            final(self).edit_target_message == old(self).edit_target_message,
            final(self).mention_query == old(self).mention_query,
            final(self).mention_start == old(self).mention_start,
            final(self).mention_selected == old(self).mention_selected,
            final(self).mention_completions == old(self).mention_completions,
    {
        if attachments.len() == 0 || !accepts {
            return;
        }
        let available = MAX_UPLOAD_ATTACHMENT_COUNT.saturating_sub(self.pending_attachments.len());
        let mut added = attachments;
        added.truncate(available);
        self.pending_attachments.append(&mut added);
    }

    /// Drops the last pending attachment, if there is one.
    pub fn pop_attachment(&mut self)
        ensures
            final(self).pending_attachments@ == if old(self).pending_attachments@.len() > 0 {
                old(self).pending_attachments@.drop_last()
            } else {
                old(self).pending_attachments@
            },
            final(self).input == old(self).input,
            final(self).cursor == old(self).cursor,
            final(self).active == old(self).active,
            final(self).reply_target_message_id == old(self).reply_target_message_id,
            final(self).edit_target_message == old(self).edit_target_message,
            final(self).mention_query == old(self).mention_query,
            final(self).mention_start == old(self).mention_start,
            final(self).mention_selected == old(self).mention_selected,
            final(self).mention_completions == old(self).mention_completions,
    {
        let _ = self.pending_attachments.pop();
    }

    /// Turns the composer into a command. Empty content with no attachment, and an edit to
    /// empty content, send nothing and change nothing. An edit is sent as such and closes the
    /// composer. Otherwise a message for `channel` is sent: with no channel nothing happens;
    /// where the user may not post there, or not attach files while some are pending, the
    /// composer is emptied and closed and nothing is sent; else the text and attachments
    /// go, with the reply target, and the composer stays open for the next message.
    pub fn submit(&mut self, channel: Option<u64>, can_send: bool, can_attach: bool) -> (command:
        Option<AppCommand>)
        ensures
            ({
                let content = old(self).submitted_content();
                let has_attachments = old(self).pending_attachments@.len() > 0;
                if content.len() == 0 && !has_attachments {
                    command is None && *final(self) == *old(self)
                } else if old(self).edit_target_message is Some {
                    let (channel_id, message_id) = old(self).edit_target_message->0;
                    if content.len() == 0 {
                        command is None && *final(self) == *old(self)
                    } else {
                        &&& command matches Some(AppCommand::EditMessage { channel_id: c, message_id: m, content: t })
                        &&& c == channel_id && m == message_id && t@ == content
                        &&& final(self).is_cleared()
                    }
                } else if channel is None {
                    command is None && *final(self) == *old(self)
                } else if !can_send || (has_attachments && !can_attach) {
                    command is None && final(self).is_cleared()
                } else {
                    &&& command matches Some(AppCommand::SendMessage { channel_id: c, content: t, reply_to: r, attachments: a })
                    &&& c == channel->0 && t@ == content && r == old(self).reply_target_message_id
                    &&& a@ == old(self).pending_attachments@
                    &&& final(self).input@.len() == 0
                    &&& final(self).cursor == 0
                    &&& final(self).pending_attachments@.len() == 0
                    &&& final(self).active == old(self).active
                    &&& final(self).reply_target_message_id is None
                    &&& final(self).edit_target_message is None
                    &&& final(self).mention_closed()
                    &&& final(self).mention_completions@.len() == 0
                }
            }),
    {
        let expanded = expand_mention_completions(self.input.as_slice(), &self.mention_completions);
        let content = trim_chars(expanded.as_slice());
        let has_attachments = self.pending_attachments.len() > 0;
        if content.len() == 0 && !has_attachments {
            return None;
        }
        if let Some((channel_id, message_id)) = self.edit_target_message {
            if content.len() == 0 {
                return None;
            }
            self.clear();
            return Some(
                AppCommand::EditMessage {
                    channel_id,
                    message_id,
                    content: string_from_chars(content.as_slice()),
                },
            );
        }
        let channel_id = match channel {
            Some(c) => c,
            None => {
                return None;
            },
        };
        if !can_send || (has_attachments && !can_attach) {
            self.clear();
            return None;
        }
        self.input.clear();
        self.cursor = 0;
        self.reset_mention_picker();
        let reply_to = self.reply_target_message_id.take();
        let mut attachments: Vec<MessageAttachmentUpload> = Vec::new();
        std::mem::swap(&mut attachments, &mut self.pending_attachments);
        Some(
            AppCommand::SendMessage {
                channel_id,
                content: string_from_chars(content.as_slice()),
                reply_to,
                attachments,
            },
        )
    }

}

impl DashboardState {
    /// Everything but the composer and the focus is as in `other`.
    pub open spec fn same_but_composer_and_focus(self, other: DashboardState) -> bool {
        &&& self.discord == other.discord
        &&& self.active_guild == other.active_guild
        &&& self.active_channel_id == other.active_channel_id
        &&& self.selected_guild == other.selected_guild
        &&& self.guild_scroll == other.guild_scroll
        &&& self.guild_horizontal_scroll == other.guild_horizontal_scroll
        &&& self.guild_keep_selection_visible == other.guild_keep_selection_visible
        &&& self.guild_view_height == other.guild_view_height
        &&& self.selected_channel == other.selected_channel
        &&& self.channel_scroll == other.channel_scroll
        &&& self.channel_horizontal_scroll == other.channel_horizontal_scroll
        &&& self.channel_keep_selection_visible == other.channel_keep_selection_visible
        &&& self.channel_view_height == other.channel_view_height
        &&& self.selected_message == other.selected_message
        &&& self.message_scroll == other.message_scroll
        &&& self.message_line_scroll == other.message_line_scroll
        &&& self.message_keep_selection_visible == other.message_keep_selection_visible
        &&& self.message_auto_follow == other.message_auto_follow
        &&& self.new_messages_marker_message_id == other.new_messages_marker_message_id
        &&& self.unread_divider_last_acked_id == other.unread_divider_last_acked_id
        &&& self.pending_unread_anchor_scroll == other.pending_unread_anchor_scroll
        &&& self.message_view_height == other.message_view_height
        &&& self.pinned_message_view_channel_id == other.pinned_message_view_channel_id
        &&& self.pinned_message_view_return_target == other.pinned_message_view_return_target
        &&& self.selected_member == other.selected_member
        &&& self.member_scroll == other.member_scroll
        &&& self.member_horizontal_scroll == other.member_horizontal_scroll
        &&& self.member_keep_selection_visible == other.member_keep_selection_visible
        &&& self.member_view_height == other.member_view_height
        &&& self.guild_action_menu == other.guild_action_menu
        &&& self.channel_action_menu == other.channel_action_menu
        &&& self.member_action_menu == other.member_action_menu
        &&& self.display_options == other.display_options
        &&& self.current_user == other.current_user
        &&& self.current_user_id == other.current_user_id
        &&& self.last_status == other.last_status
        &&& self.should_quit == other.should_quit
        &&& self.older_history_requests == other.older_history_requests
        &&& self.forum_post_lists == other.forum_post_lists
        &&& self.pending_commands == other.pending_commands
        &&& self.guild_pane_visible == other.guild_pane_visible
        &&& self.channel_pane_visible == other.channel_pane_visible
        &&& self.member_pane_visible == other.member_pane_visible
    }

    /// Everything but the composer is as in `other`.
    pub open spec fn same_but_composer(self, other: DashboardState) -> bool {
        self.same_but_composer_and_focus(other) && self.focus == other.focus
    }

    /// The channel the composer would post to, as the client knows it.
    pub open spec fn selected_channel_known(self) -> Option<crate::discord_state::ChannelState> {
        match self.active_channel_id {
            Some(id) => self.discord.channel_spec(id),
            None => None,
        }
    }

    /// Posting is allowed in the selected channel: never in a forum, else as its permissions
    /// say; allowed when no known channel is selected.
    pub open spec fn can_send_spec(self) -> bool {
        match self.selected_channel_known() {
            Some(c) => c.kind != ChannelKind::GuildForum && c.can_send,
            None => true,
        }
    }

    /// Attaching files is allowed in the selected channel, by the same rule.
    pub open spec fn can_attach_spec(self) -> bool {
        match self.selected_channel_known() {
            Some(c) => c.kind != ChannelKind::GuildForum && c.can_attach,
            None => true,
        }
    }

    /// The composer takes attachments: not while editing, and only where files may be attached.
    pub open spec fn accepts_attachments_spec(self) -> bool {
        self.composer.edit_target_message is None && self.can_attach_spec()
    }

    /// The selected message, unless a forum is shown or no message is loaded.
    pub open spec fn selected_message_spec(self) -> Option<MessageState> {
        let i = clamp_index_spec(self.selected_message as nat, self.message_len_spec());
        if !self.selected_channel_is_forum_spec() && i < self.messages_spec().len() {
            Some(self.messages_spec()[i as int])
        } else {
            None
        }
    }

    pub fn is_composing(&self) -> (composing: bool)
        ensures
            composing == self.composer.active,
    {
        self.composer.active
    }

    /// Whether the user can post messages in the selected channel; `true` when no channel is
    /// selected.
    pub fn can_send_in_selected_channel(&self) -> (can: bool)
        ensures
            can == self.can_send_spec(),
    {
        match self.selected_channel_state() {
            Some(channel) => channel.kind != ChannelKind::GuildForum && channel.can_send,
            None => true,
        }
    }

    /// Whether the user can attach files in the selected channel; `true` when no channel is
    /// selected.
    pub fn can_attach_in_selected_channel(&self) -> (can: bool)
        ensures
            can == self.can_attach_spec(),
    {
        match self.selected_channel_state() {
            Some(channel) => channel.kind != ChannelKind::GuildForum && channel.can_attach,
            None => true,
        }
    }

    pub fn composer_accepts_attachments(&self) -> (accepts: bool)
        ensures
            accepts == self.accepts_attachments_spec(),
    {
        self.composer.edit_target_message.is_none() && self.can_attach_in_selected_channel()
    }

    /// The composer text.
    pub fn composer_input(&self) -> (text: String)
        ensures
            text@ == self.composer.input@,
    {
        string_from_chars(self.composer.input.as_slice())
    }

    /// The cursor as a byte offset into the UTF-8 composer text.
    pub fn composer_cursor_byte_index(&self) -> (index: usize)
        ensures
            utf8_bytes(self.composer.input@.take(self.composer.cursor_spec() as int)).len()
                <= usize::MAX ==> index == utf8_bytes(
                self.composer.input@.take(self.composer.cursor_spec() as int),
            ).len(),
    {
        let cursor = self.composer.cursor_index();
        utf8_prefix_len(self.composer.input.as_slice(), cursor)
    }

    pub fn pending_composer_attachments(&self) -> (attachments: &[MessageAttachmentUpload])
        ensures
            attachments@ == self.composer.pending_attachments@,
    {
        self.composer.pending_attachments.as_slice()
    }

    /// Queues attachments for the next message, as many as fit under the limit; ignored
    /// while the composer does not take attachments.
    pub fn add_pending_composer_attachments(&mut self, attachments: Vec<MessageAttachmentUpload>)
        ensures
            final(self).same_but_composer(*old(self)),
            attachments@.len() == 0 || !old(self).accepts_attachments_spec() ==> final(self).composer
                == old(self).composer,
            attachments@.len() > 0 && old(self).accepts_attachments_spec() ==> final(self).composer.pending_attachments@ == ComposerState::with_attachments_spec(
                old(self).composer.pending_attachments@,
                attachments@,
            ),
            final(self).composer.input == old(self).composer.input,
            final(self).composer.cursor == old(self).composer.cursor,
            final(self).composer.edit_target_message == old(self).composer.edit_target_message,
    {
        let accepts = self.composer_accepts_attachments();
        self.composer.add_attachments(attachments, accepts);
    }

    pub fn pop_pending_composer_attachment(&mut self)
        ensures
            final(self).same_but_composer(*old(self)),
            final(self).composer.pending_attachments@ == if old(self).composer.pending_attachments@.len() > 0 {
                old(self).composer.pending_attachments@.drop_last()
            } else {
                old(self).composer.pending_attachments@
            },
            final(self).composer.input == old(self).composer.input,
            final(self).composer.cursor == old(self).composer.cursor,
    {
        self.composer.pop_attachment();
    }

    /// What `start_composer` leaves: the composer opened for a new message at the end of its
    /// text, with the message pane focused, where a channel is selected and posting there is
    /// allowed; otherwise composer and focus as they were. Nothing else changes.
    pub open spec fn composer_started(self, fin: DashboardState) -> bool {
        &&& (self.active_channel_id is None || !self.can_send_spec() ==> fin.composer == self.composer
            && fin.focus == self.focus)
        &&& (self.active_channel_id is Some && self.can_send_spec() ==> {
            &&& fin.composer.active
            &&& fin.composer.reply_target_message_id is None
            &&& fin.composer.edit_target_message is None
            &&& fin.composer.pending_attachments == self.composer.pending_attachments
            &&& fin.composer.input == self.composer.input
            &&& fin.composer.cursor == self.composer.input@.len()
            &&& fin.composer.mention_completions == self.composer.mention_completions
            &&& fin.composer.mention_query_fresh()
            &&& fin.focus == FocusPane::Messages
        })
        &&& fin.same_but_composer_and_focus(self)
    }

    /// Opens the composer for a new message in the selected channel, cursor at the end of
    /// the kept text; nothing happens without a selected channel or where posting is not
    /// allowed.
    pub fn start_composer(&mut self)
        ensures
            old(self).composer_started(*final(self)),
    {
        if self.selected_channel_id().is_none() {
            return;
        }
        if !self.can_send_in_selected_channel() {
            return;
        }
        self.composer.reply_target_message_id = None;
        self.composer.edit_target_message = None;
        self.composer.active = true;
        self.composer.move_end();
        self.focus = FocusPane::Messages;
    }

    /// Opens the composer to answer the selected message, with empty text; nothing happens
    /// without a selected message or where posting is not allowed.
    pub fn start_reply_composer(&mut self)
        ensures
            old(self).selected_message_spec() is None || !old(self).can_send_spec() ==> final(self).composer == old(self).composer && final(self).focus == old(self).focus,
            old(self).selected_message_spec() is Some && old(self).can_send_spec() ==> {
                &&& final(self).composer.active
                &&& final(self).composer.input@.len() == 0
                &&& final(self).composer.cursor == 0
                &&& final(self).composer.pending_attachments@.len() == 0
                &&& final(self).composer.reply_target_message_id == Some(
                    old(self).selected_message_spec()->0.id,
                )
                &&& final(self).composer.edit_target_message is None
                &&& final(self).composer.mention_closed()
                &&& final(self).composer.mention_completions@.len() == 0
                &&& final(self).focus == FocusPane::Messages
            },
            final(self).same_but_composer_and_focus(*old(self)),
    {
        let message_id = match self.selected_message_state() {
            Some(message) => message.id,
            None => {
                return;
            },
        };
        if !self.can_send_in_selected_channel() {
            return;
        }
        self.composer.clear();
        self.composer.reply_target_message_id = Some(message_id);
        self.composer.active = true;
        self.focus = FocusPane::Messages;
    }

    /// Opens the composer to edit the selected message, with its text and the cursor at the
    /// end; only the current user's own plain messages or replies with text can be edited.
    pub fn start_edit_composer(&mut self)
        ensures
            ({
                let m = old(self).selected_message_spec();
                let editable = m is Some && old(self).current_user_id == Some(m->0.author_id)
                    && is_regular_message_kind(m->0.message_kind) && m->0.content is Some;
                &&& !editable ==> final(self).composer == old(self).composer && final(self).focus
                    == old(self).focus
                &&& editable ==> {
                    &&& final(self).composer.active
                    &&& final(self).composer.input@ == m->0.content->0@
                    &&& final(self).composer.cursor == final(self).composer.input@.len()
                    &&& final(self).composer.pending_attachments@.len() == 0
                    &&& final(self).composer.reply_target_message_id is None
                    &&& final(self).composer.edit_target_message == Some((m->0.channel_id, m->0.id))
                    &&& final(self).composer.mention_closed()
                    &&& final(self).composer.mention_completions@.len() == 0
                    &&& final(self).focus == FocusPane::Messages
                }
            }),
            final(self).same_but_composer_and_focus(*old(self)),
    {
        let (channel_id, message_id, text) = match self.selected_message_state() {
            Some(message) => {
                if self.current_user_id != Some(message.author_id) || !(message.message_kind
                    == DEFAULT_MESSAGE_KIND || message.message_kind == REPLY_MESSAGE_KIND) {
                    return;
                }
                match &message.content {
                    Some(content) => (message.channel_id, message.id, chars_of(content.as_str())),
                    None => {
                        return;
                    },
                }
            },
            None => {
                return;
            },
        };
        self.composer.clear();
        self.composer.input = text;
        self.composer.cursor = self.composer.input.len();
        self.composer.edit_target_message = Some((channel_id, message_id));
        self.composer.active = true;
        self.focus = FocusPane::Messages;
    }

    /// Closes the composer and throws its text, attachments and targets away.
    /// What `cancel_composer` leaves: the composer emptied and closed, nothing else changed.
    pub open spec fn composer_cancelled(self, fin: DashboardState) -> bool {
        fin.composer.is_cleared() && fin.same_but_composer(self)
    }

    pub fn cancel_composer(&mut self)
        ensures
            old(self).composer_cancelled(*final(self)),
    {
        self.composer.clear();
    }

    /// Types one character at the cursor.
    pub fn push_composer_char(&mut self, value: char)
        ensures
            final(self).composer.is_edit_of(
                old(self).composer,
                old(self).composer.cursor_spec(),
                old(self).composer.cursor_spec(),
                seq![value],
            ),
            final(self).same_but_composer(*old(self)),
    {
        let mut text: Vec<char> = Vec::new();
        text.push(value);
        self.composer.insert_text(text.as_slice());
    }

    /// Inserts text at the cursor; empty text changes nothing.
    pub fn insert_composer_text_at_cursor(&mut self, value: &str)
        ensures
            value@.len() == 0 ==> final(self).composer == old(self).composer,
            value@.len() > 0 ==> final(self).composer.is_edit_of(
                old(self).composer,
                old(self).composer.cursor_spec(),
                old(self).composer.cursor_spec(),
                value@,
            ),
            final(self).same_but_composer(*old(self)),
    {
        let text = chars_of(value);
        self.composer.insert_text(text.as_slice());
    }

    /// Backspace: removes the character before the cursor.
    pub fn pop_composer_char(&mut self)
        ensures
            old(self).composer.cursor_spec() == 0 ==> final(self).composer == old(self).composer,
            old(self).composer.cursor_spec() > 0 ==> final(self).composer.is_edit_of(
                old(self).composer,
                (old(self).composer.cursor_spec() - 1) as nat,
                old(self).composer.cursor_spec(),
                Seq::empty(),
            ),
            final(self).same_but_composer(*old(self)),
    {
        self.composer.backspace();
    }

    /// Delete: removes the character after the cursor.
    pub fn delete_composer_char(&mut self)
        ensures
            old(self).composer.cursor_spec() >= old(self).composer.input@.len() ==> final(self).composer == old(self).composer,
            old(self).composer.cursor_spec() < old(self).composer.input@.len() ==> final(self).composer.is_edit_of(
                old(self).composer,
                old(self).composer.cursor_spec(),
                old(self).composer.cursor_spec() + 1,
                Seq::empty(),
            ),
            final(self).same_but_composer(*old(self)),
    {
        self.composer.delete_forward();
    }

    pub fn move_composer_cursor_left(&mut self)
        ensures
            final(self).composer.is_move_of(
                old(self).composer,
                if old(self).composer.cursor_spec() == 0 {
                    0
                } else {
                    (old(self).composer.cursor_spec() - 1) as nat
                },
            ),
            final(self).same_but_composer(*old(self)),
    {
        self.composer.move_left();
    }

    pub fn move_composer_cursor_right(&mut self)
        ensures
            final(self).composer.is_move_of(
                old(self).composer,
                if old(self).composer.cursor_spec() < old(self).composer.input@.len() {
                    old(self).composer.cursor_spec() + 1
                } else {
                    old(self).composer.input@.len()
                },
            ),
            final(self).same_but_composer(*old(self)),
    {
        self.composer.move_right();
    }

    pub fn move_composer_cursor_home(&mut self)
        ensures
            final(self).composer.is_move_of(old(self).composer, 0),
            final(self).same_but_composer(*old(self)),
    {
        self.composer.move_home();
    }

    pub fn move_composer_cursor_end(&mut self)
        ensures
            final(self).composer.is_move_of(old(self).composer, old(self).composer.input@.len()),
            final(self).same_but_composer(*old(self)),
    {
        self.composer.move_end();
    }

    /// Turns the composer into a command for the selected channel, as `ComposerState::submit`
    /// says, with the channel's permissions.
    pub fn submit_composer(&mut self) -> (command: Option<AppCommand>)
        ensures
            ({
                let old_c = old(self).composer;
                let content = old_c.submitted_content();
                let has_attachments = old_c.pending_attachments@.len() > 0;
                let channel = old(self).active_channel_id;
                let can_send = old(self).can_send_spec();
                let can_attach = old(self).can_attach_spec();
                if content.len() == 0 && !has_attachments {
                    command is None && final(self).composer == old_c
                } else if old_c.edit_target_message is Some {
                    let (channel_id, message_id) = old_c.edit_target_message->0;
                    if content.len() == 0 {
                        command is None && final(self).composer == old_c
                    } else {
                        &&& command matches Some(AppCommand::EditMessage { channel_id: c, message_id: m, content: t })
                        &&& c == channel_id && m == message_id && t@ == content
                        &&& final(self).composer.is_cleared()
                    }
                } else if channel is None {
                    command is None && final(self).composer == old_c
                } else if !can_send || (has_attachments && !can_attach) {
                    command is None && final(self).composer.is_cleared()
                } else {
                    &&& command matches Some(AppCommand::SendMessage { channel_id: c, content: t, reply_to: r, attachments: a })
                    &&& c == channel->0 && t@ == content && r == old_c.reply_target_message_id
                    &&& a@ == old_c.pending_attachments@
                    &&& final(self).composer.input@.len() == 0
                    &&& final(self).composer.cursor == 0
                    &&& final(self).composer.pending_attachments@.len() == 0
                    &&& final(self).composer.active == old_c.active
                    &&& final(self).composer.reply_target_message_id is None
                    &&& final(self).composer.edit_target_message is None
                    &&& final(self).composer.mention_closed()
                    &&& final(self).composer.mention_completions@.len() == 0
                }
            }),
            final(self).same_but_composer(*old(self)),
    {
        let channel = self.selected_channel_id();
        let can_send = self.can_send_in_selected_channel();
        let can_attach = self.can_attach_in_selected_channel();
        self.composer.submit(channel, can_send, can_attach)
    }

    /// The characters typed after the `@` while the mention picker is open.
    pub fn composer_mention_query(&self) -> (query: Option<String>)
        ensures
            match query {
                Some(q) => self.composer.mention_query matches Some(v) && q@ == v@,
                None => self.composer.mention_query is None,
            },
    {
        match &self.composer.mention_query {
            Some(v) => Some(string_from_chars(v.as_slice())),
            None => None,
        }
    }

    pub fn composer_mention_selected(&self) -> (selected: usize)
        ensures
            selected == self.composer.mention_selected,
    {
        self.composer.mention_selected
    }

    /// Closes the mention picker; the typed `@query` stays in the text.
    pub fn cancel_composer_mention(&mut self)
        ensures
            final(self).composer.mention_closed(),
            final(self).composer.same_but_mention(old(self).composer),
            final(self).same_but_composer(*old(self)),
    {
        self.composer.cancel_mention();
    }
}

} // verus!
