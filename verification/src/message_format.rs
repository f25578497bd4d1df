use vstd::prelude::*;

use crate::discord::{AttachmentInfo, MentionInfo, MessageSnapshotInfo};
use crate::dashboard::DashboardState;
use crate::discord_state::{DiscordState, MessageState};
use crate::keyed::{find_index, lookup};
use crate::text::{
    chars_between, chars_of, decimal_chars, decimal_spec, push_chars, push_str, string_from_chars,
};
use crate::text_layout::{views_of, wrap_chars, wrap_text_spec};

verus! {

/// One line of a message as the message pane shows it.
#[derive(Clone, Debug)]
pub struct MessageContentLine {
    pub text: String,
}

pub open spec fn is_ascii_digit(c: char) -> bool {
    '0' <= c && c <= '9'
}

/// The number of decimal digits starting at position `j`.
pub open spec fn digit_run(s: Seq<char>, j: int) -> nat
    decreases s.len() - j,
{
    if 0 <= j < s.len() && is_ascii_digit(s[j]) {
        1 + digit_run(s, j + 1)
    } else {
        0
    }
}

/// The value of a decimal digit (0 for any other character).
pub open spec fn digit_value(c: char) -> nat {
    if is_ascii_digit(c) {
        ((c as u32) - ('0' as u32)) as nat
    } else {
        0
    }
}

/// The number that decimal digits write.
pub open spec fn digits_value(d: Seq<char>) -> nat
    decreases d.len(),
{
    if d.len() == 0 {
        0
    } else {
        digits_value(d.drop_last()) * 10 + digit_value(d.last())
    }
}

/// A mention written in a message: `<@ID>` or `<@!ID>` for a user, `<@&ID>` for a role.
#[derive(Clone, Copy, Debug, PartialEq, Eq, Structural)]
pub struct MentionToken {
    pub role: bool,
    pub id: u64,
    /// The number of characters it takes.
    pub len: usize,
}

/// The mention written at position `i`, if one is.
pub open spec fn mention_token_at(s: Seq<char>, i: int) -> Option<MentionToken> {
    if 0 <= i && i + 1 < s.len() && s[i] == '<' && s[i + 1] == '@' {
        let marked = i + 2 < s.len() && (s[i + 2] == '&' || s[i + 2] == '!');
        let role = i + 2 < s.len() && s[i + 2] == '&';
        let start = if marked {
            i + 3
        } else {
            i + 2
        };
        let n = digit_run(s, start);
        if n > 0 && start + n < s.len() && s[start + n] == '>' && digits_value(
            s.subrange(start, start + n),
        ) <= u64::MAX && start + n + 1 - i <= usize::MAX {
            Some(
                MentionToken {
                    role,
                    id: digits_value(s.subrange(start, start + n)) as u64,
                    len: (start + n + 1 - i) as usize,
                },
            )
        } else {
            None
        }
    } else {
        None
    }
}

/// The first mention Discord sent along for user `id`.
pub open spec fn first_mention(ms: Seq<MentionInfo>, id: u64) -> Option<MentionInfo>
    decreases ms.len(),
{
    if ms.len() == 0 {
        None
    } else if ms[0].user_id == id {
        Some(ms[0])
    } else {
        first_mention(ms.drop_first(), id)
    }
}

/// The name a user mention shows: the nickname Discord sent with the message, else the
/// member's name in the guild, else the name Discord sent; none for an unknown user.
pub open spec fn user_mention_name(
    ctx: Option<DiscordState>,
    guild: Option<u64>,
    ms: Seq<MentionInfo>,
    id: u64,
) -> Option<Seq<char>> {
    let m = first_mention(ms, id);
    let member = match (ctx, guild) {
        (Some(d), Some(g)) => lookup(d.guild_members_spec(g), id),
        _ => None,
    };
    if m is Some && m->0.guild_nick is Some {
        Some(m->0.guild_nick->0@)
    } else if member is Some {
        Some(member->0.display_name@)
    } else if m is Some {
        Some(m->0.display_name@)
    } else {
        None
    }
}

/// The name a role mention shows: the role's name, when the guild and the role are known.
pub open spec fn role_mention_name(ctx: Option<DiscordState>, guild: Option<u64>, id: u64) -> Option<
    Seq<char>,
> {
    match (ctx, guild) {
        (Some(d), Some(g)) => match lookup(d.roles@, g) {
            Some(gr) => match lookup(gr.roles@, id) {
                Some(r) => Some(r.name@),
                None => None,
            },
            None => None,
        },
        _ => None,
    }
}

/// The text from position `i` on with every mention of a known user or role written as
/// `@name`; other mentions stay as written.
pub open spec fn render_mentions_from(
    s: Seq<char>,
    i: int,
    ctx: Option<DiscordState>,
    guild: Option<u64>,
    ms: Seq<MentionInfo>,
) -> Seq<char>
    decreases s.len() - i,
{
    if i < 0 || i >= s.len() {
        Seq::empty()
    } else {
        match mention_token_at(s, i) {
            Some(t) => {
                let name = if t.role {
                    role_mention_name(ctx, guild, t.id)
                } else {
                    user_mention_name(ctx, guild, ms, t.id)
                };
                let shown = match name {
                    Some(n) => seq!['@'] + n,
                    None => s.subrange(i, i + t.len),
                };
                shown + render_mentions_from(s, i + t.len, ctx, guild, ms)
            },
            None => seq![s[i]] + render_mentions_from(s, i + 1, ctx, guild, ms),
        }
    }
}

pub open spec fn render_mentions_spec(
    s: Seq<char>,
    ctx: Option<DiscordState>,
    guild: Option<u64>,
    ms: Seq<MentionInfo>,
) -> Seq<char> {
    render_mentions_from(s, 0, ctx, guild, ms)
}

fn digit_run_exec(s: &[char], j: usize) -> (n: usize)
    requires
        j <= s@.len(),
    ensures
        n == digit_run(s@, j as int),
        j + n <= s@.len(),
{
    let mut k: usize = j;
    while k < s.len() && '0' <= s[k] && s[k] <= '9'
        invariant
            j <= k <= s@.len(),
            digit_run(s@, j as int) == (k - j) + digit_run(s@, k as int),
        decreases s@.len() - k,
    {
        k = k + 1;
    }
    k - j
}

pub(crate) fn digits_to_u64(s: &[char], start: usize, end: usize) -> (v: Option<u64>)
    requires
        start <= end <= s@.len(),
        forall|k: int| start <= k < end ==> is_ascii_digit(#[trigger] s@[k]),
    ensures
        match v {
            Some(x) => x as nat == digits_value(s@.subrange(start as int, end as int)),
            None => digits_value(s@.subrange(start as int, end as int)) > u64::MAX,
        },
{
    let mut value: u64 = 0;
    let mut k: usize = start;
    while k < end
        invariant
            start <= k <= end <= s@.len(),
            forall|q: int| start <= q < end ==> is_ascii_digit(#[trigger] s@[q]),
            value as nat == digits_value(s@.subrange(start as int, k as int)),
        decreases end - k,
    {
        assert(s@.subrange(start as int, k + 1).drop_last() =~= s@.subrange(start as int, k as int));
        let d = (s[k] as u32 - '0' as u32) as u64;
        assert(is_ascii_digit(s@[k as int]));
        if value > (u64::MAX - d) / 10 {
            proof {
                assert(digits_value(s@.subrange(start as int, k + 1)) == value * 10 + d);
                assert(value * 10 + d > u64::MAX) by (nonlinear_arith)
                    requires
                        value > (u64::MAX - d) / 10,
                        d <= 9,
                ;
                lemma_digits_value_prefix_grows(s@.subrange(start as int, end as int), k + 1 - start);
                assert(s@.subrange(start as int, end as int).take(k + 1 - start) =~= s@.subrange(
                    start as int,
                    k + 1,
                ));
            }
            return None;
        }
        value = value * 10 + d;
        k = k + 1;
    }
    Some(value)
}

/// A number written with more digits is at least as large as one written with a prefix of
/// them.
pub proof fn lemma_digits_value_prefix_grows(d: Seq<char>, n: int)
    requires
        0 <= n <= d.len(),
    ensures
        digits_value(d.take(n)) <= digits_value(d),
    decreases d.len() - n,
{
    if n < d.len() {
        lemma_digits_value_prefix_grows(d, n + 1);
        assert(d.take(n + 1).drop_last() =~= d.take(n));
        let p = digits_value(d.take(n));
        assert(p * 10 >= p) by (nonlinear_arith)
            requires
                p >= 0,
        ;
    } else {
        assert(d.take(n) =~= d);
    }
}

/// Reads the mention written at position `i`, if one is.
pub fn mention_token(s: &[char], i: usize) -> (t: Option<MentionToken>)
    requires
        i <= s@.len(),
    ensures
        t == mention_token_at(s@, i as int),
{
    if !(i < s.len() && s.len() - i > 1 && s[i] == '<' && s[i + 1] == '@') {
        return None;
    }
    let marked = s.len() - i > 2 && (s[i + 2] == '&' || s[i + 2] == '!');
    let role = s.len() - i > 2 && s[i + 2] == '&';
    let start = if marked {
        i + 3
    } else {
        i + 2
    };
    let n = digit_run_exec(s, start);
    if n == 0 || start + n >= s.len() || s[start + n] != '>' {
        return None;
    }
    proof {
        assert forall|k: int| start <= k < start + n implies is_ascii_digit(#[trigger] s@[k]) by {
            lemma_digit_run_digits(s@, start as int, k);
        }
    }
    match digits_to_u64(s, start, start + n) {
        Some(id) => Some(MentionToken { role, id, len: start + n + 1 - i }),
        None => None,
    }
}

/// Every character of a run of digits is a digit.
pub proof fn lemma_digit_run_digits(s: Seq<char>, j: int, k: int)
    requires
        j <= k < j + digit_run(s, j),
    ensures
        is_ascii_digit(s[k]),
    decreases k - j,
{
    if k > j {
        lemma_digit_run_digits(s, j + 1, k);
    }
}

fn first_mention_exec(ms: &Vec<MentionInfo>, id: u64) -> (m: Option<&MentionInfo>)
    ensures
        match m {
            Some(x) => first_mention(ms@, id) == Some(*x),
            None => first_mention(ms@, id) is None,
        },
{
    let mut k: usize = 0;
    assert(ms@.skip(0) =~= ms@);
    while k < ms.len()
        invariant
            k <= ms@.len(),
            first_mention(ms@.skip(k as int), id) == first_mention(ms@, id),
        decreases ms@.len() - k,
    {
        assert(ms@.skip(k as int).drop_first() =~= ms@.skip(k + 1));
        if ms[k].user_id == id {
            return Some(&ms[k]);
        }
        k = k + 1;
    }
    None
}

fn guild_member_name(ctx: Option<&DiscordState>, guild: Option<u64>, id: u64) -> (name: Option<
    &String,
>)
    ensures
        match name {
            Some(n) => (match (ctx, guild) {
                (Some(d), Some(g)) => lookup(d.guild_members_spec(g), id),
                _ => None,
            }) matches Some(mem) && mem.display_name == *n,
            None => (match (ctx, guild) {
                (Some(d), Some(g)) => lookup(d.guild_members_spec(g), id),
                _ => None,
            }) is None,
        },
{
    match (ctx, guild) {
        (Some(d), Some(g)) => match find_index(&d.members, g) {
            Some(i) => match find_index(&d.members[i].members, id) {
                Some(j) => Some(&d.members[i].members[j].display_name),
                None => None,
            },
            None => None,
        },
        _ => None,
    }
}

fn user_name_for(
    ctx: Option<&DiscordState>,
    guild: Option<u64>,
    ms: &Vec<MentionInfo>,
    id: u64,
) -> (name: Option<Vec<char>>)
    ensures
        match name {
            Some(n) => user_mention_name(
                match ctx {
                    Some(d) => Some(*d),
                    None => None,
                },
                guild,
                ms@,
                id,
            ) == Some(n@),
            None => user_mention_name(
                match ctx {
                    Some(d) => Some(*d),
                    None => None,
                },
                guild,
                ms@,
                id,
            ) is None,
        },
{
    let m = first_mention_exec(ms, id);
    if let Some(x) = m {
        if let Some(nick) = &x.guild_nick {
            return Some(chars_of(nick.as_str()));
        }
    }
    if let Some(n) = guild_member_name(ctx, guild, id) {
        return Some(chars_of(n.as_str()));
    }
    match m {
        Some(x) => Some(chars_of(x.display_name.as_str())),
        None => None,
    }
}

fn role_name_for(ctx: Option<&DiscordState>, guild: Option<u64>, id: u64) -> (name: Option<Vec<char>>)
    ensures
        match name {
            Some(n) => role_mention_name(
                match ctx {
                    Some(d) => Some(*d),
                    None => None,
                },
                guild,
                id,
            ) == Some(n@),
            None => role_mention_name(
                match ctx {
                    Some(d) => Some(*d),
                    None => None,
                },
                guild,
                id,
            ) is None,
        },
{
    match (ctx, guild) {
        (Some(d), Some(g)) => match find_index(&d.roles, g) {
            Some(i) => match find_index(&d.roles[i].roles, id) {
                Some(j) => Some(chars_of(d.roles[i].roles[j].name.as_str())),
                None => None,
            },
            None => None,
        },
        _ => None,
    }
}

/// The text with every mention of a known user or role written as `@name`.
pub fn render_mentions(
    s: &[char],
    ctx: Option<&DiscordState>,
    guild: Option<u64>,
    ms: &Vec<MentionInfo>,
) -> (out: Vec<char>)
    ensures
        out@ == render_mentions_spec(
            s@,
            match ctx {
                Some(d) => Some(*d),
                None => None,
            },
            guild,
            ms@,
        ),
{
    let ghost c = match ctx {
        Some(d) => Some(*d),
        None => None,
    };
    let mut out: Vec<char> = Vec::new();
    let mut i: usize = 0;
    while i < s.len()
        invariant
            i <= s@.len(),
            c == (match ctx {
                Some(d) => Some(*d),
                None => None,
            }),
            out@ + render_mentions_from(s@, i as int, c, guild, ms@) == render_mentions_from(
                s@,
                0,
                c,
                guild,
                ms@,
            ),
        decreases s@.len() - i,
    {
        let ghost before = out@;
        match mention_token(s, i) {
            Some(t) => {
                let name = if t.role {
                    role_name_for(ctx, guild, t.id)
                } else {
                    user_name_for(ctx, guild, ms, t.id)
                };
                let ghost shown = match &name {
                    Some(n) => seq!['@'] + n@,
                    None => s@.subrange(i as int, i + t.len),
                };
                match name {
                    Some(n) => {
                        out.push('@');
                        let mut n = n;
                        out.append(&mut n);
                    },
                    None => {
                        let mut raw = chars_between(s, i, i + t.len);
                        out.append(&mut raw);
                    },
                }
                assert(out@ =~= before + shown);
                assert(out@ + render_mentions_from(s@, i + t.len, c, guild, ms@) =~= before + (
                shown + render_mentions_from(s@, i + t.len, c, guild, ms@)));
                i = i + t.len;
            },
            None => {
                out.push(s[i]);
                assert(out@ + render_mentions_from(s@, i + 1, c, guild, ms@) =~= before + (seq![
                    s@[i as int],
                ] + render_mentions_from(s@, i + 1, c, guild, ms@)));
                i = i + 1;
            },
        }
    }
    assert(out@ + render_mentions_from(s@, i as int, c, guild, ms@) =~= out@);
    out
}

/// Whether `s` begins with `p`.
pub open spec fn starts_with(s: Seq<char>, p: Seq<char>) -> bool {
    p.len() <= s.len() && s.take(p.len() as int) == p
}

fn chars_start_with(s: &[char], p: &str) -> (b: bool)
    ensures
        b == starts_with(s@, p@),
{
    let pc = chars_of(p);
    if pc.len() > s.len() {
        return false;
    }
    let mut k: usize = 0;
    while k < pc.len()
        invariant
            pc@ == p@,
            pc@.len() <= s@.len(),
            k <= pc@.len(),
            forall|q: int| 0 <= q < k ==> s@[q] == pc@[q],
        decreases pc@.len() - k,
    {
        if s[k] != pc[k] {
            assert(s@.take(pc@.len() as int)[k as int] != pc@[k as int]);
            return false;
        }
        k = k + 1;
    }
    assert(s@.take(pc@.len() as int) =~= pc@);
    true
}

/// What kind of file an attachment is, from its MIME type.
pub open spec fn attachment_kind(a: AttachmentInfo) -> Seq<char> {
    match a.content_type {
        Some(t) => if starts_with(t@, "image/"@) {
            "image"@
        } else if starts_with(t@, "video/"@) {
            "video"@
        } else {
            "file"@
        },
        None => "file"@,
    }
}

/// The line that stands for an attachment: `[kind: name]`, then its size in pixels when
/// known.
pub open spec fn attachment_summary_spec(a: AttachmentInfo) -> Seq<char> {
    "["@ + attachment_kind(a) + ": "@ + a.filename@ + "]"@ + match (a.width, a.height) {
        (Some(w), Some(h)) => " "@ + decimal_spec(w as nat) + "x"@ + decimal_spec(h as nat),
        _ => Seq::empty(),
    }
}

pub fn attachment_summary(a: &AttachmentInfo) -> (line: Vec<char>)
    ensures
        line@ == attachment_summary_spec(*a),
{
    let mut s = String::new();
    push_str(&mut s, "[");
    match &a.content_type {
        Some(t) => {
            let tc = chars_of(t.as_str());
            if chars_start_with(tc.as_slice(), "image/") {
                push_str(&mut s, "image");
            } else if chars_start_with(tc.as_slice(), "video/") {
                push_str(&mut s, "video");
            } else {
                push_str(&mut s, "file");
            }
        },
        None => push_str(&mut s, "file"),
    }
    push_str(&mut s, ": ");
    push_str(&mut s, a.filename.as_str());
    push_str(&mut s, "]");
    match (a.width, a.height) {
        (Some(w), Some(h)) => {
            push_str(&mut s, " ");
            let wd = decimal_chars(w as u64);
            push_chars(&mut s, wd.as_slice());
            push_str(&mut s, "x");
            let hd = decimal_chars(h as u64);
            push_chars(&mut s, hd.as_slice());
        },
        _ => {},
    }
    chars_of(s.as_str())
}

/// The lines a text takes: its mentions written out, wrapped to `width`; none for an
/// empty or missing text.
pub open spec fn text_lines_spec(
    content: Option<String>,
    ctx: Option<DiscordState>,
    guild: Option<u64>,
    ms: Seq<MentionInfo>,
    width: nat,
) -> Seq<Seq<char>> {
    match content {
        Some(c) => if c@.len() > 0 {
            wrap_text_spec(render_mentions_spec(c@, ctx, guild, ms), width)
        } else {
            Seq::empty()
        },
        None => Seq::empty(),
    }
}

pub open spec fn summaries_spec(attachments: Seq<AttachmentInfo>) -> Seq<Seq<char>> {
    attachments.map_values(|a: AttachmentInfo| attachment_summary_spec(a))
}

pub open spec fn prefixed(lines: Seq<Seq<char>>, p: Seq<char>) -> Seq<Seq<char>> {
    lines.map_values(|l: Seq<char>| p + l)
}

/// The guild a forwarded message came from, when its channel is known.
pub open spec fn snapshot_guild(ctx: Option<DiscordState>, snap: MessageSnapshotInfo) -> Option<u64> {
    match (ctx, snap.source_channel_id) {
        (Some(d), Some(c)) => match d.channel_spec(c) {
            Some(ch) => ch.guild_id,
            None => None,
        },
        _ => None,
    }
}

/// The line naming the channel a forwarded message came from, when it is known.
pub open spec fn snapshot_channel_lines(ctx: Option<DiscordState>, snap: MessageSnapshotInfo) -> Seq<
    Seq<char>,
> {
    match (ctx, snap.source_channel_id) {
        (Some(d), Some(c)) => match d.channel_spec(c) {
            Some(ch) => seq!["#"@ + ch.name@],
            None => Seq::empty(),
        },
        _ => Seq::empty(),
    }
}

/// The lines of a forwarded message: a heading, then its text (wrapped two columns
/// narrower), attachments and source channel, each behind a bar.
pub open spec fn snapshot_lines_spec(ctx: Option<DiscordState>, snap: MessageSnapshotInfo, width: nat) -> Seq<
    Seq<char>,
> {
    let inner: nat = if width >= 2 {
        (width - 2) as nat
    } else {
        0
    };
    seq!["↱ Forwarded"@] + prefixed(
        text_lines_spec(snap.content, ctx, snapshot_guild(ctx, snap), snap.mentions@, inner)
            + summaries_spec(snap.attachments@) + snapshot_channel_lines(ctx, snap),
        "│ "@,
    )
}

pub open spec fn snapshots_lines_spec(
    ctx: Option<DiscordState>,
    snaps: Seq<MessageSnapshotInfo>,
    width: nat,
) -> Seq<Seq<char>>
    decreases snaps.len(),
{
    if snaps.len() == 0 {
        Seq::empty()
    } else {
        snapshots_lines_spec(ctx, snaps.drop_last(), width) + snapshot_lines_spec(
            ctx,
            snaps.last(),
            width,
        )
    }
}

/// The lines of a message: its text, then a line per attachment, then its forwarded
/// messages.
pub open spec fn message_lines_spec(ctx: Option<DiscordState>, m: MessageState, width: nat) -> Seq<
    Seq<char>,
> {
    text_lines_spec(m.content, ctx, m.guild_id, m.mentions@, width) + summaries_spec(
        m.attachments@,
    ) + snapshots_lines_spec(ctx, m.forwarded_snapshots@, width)
}

/// Lines written one after another with a space between.
pub open spec fn join_spaced(lines: Seq<Seq<char>>) -> Seq<char>
    decreases lines.len(),
{
    if lines.len() == 0 {
        Seq::empty()
    } else if lines.len() == 1 {
        lines[0]
    } else {
        join_spaced(lines.drop_last()) + seq![' '] + lines.last()
    }
}

fn text_lines(
    content: &Option<String>,
    ctx: Option<&DiscordState>,
    guild: Option<u64>,
    ms: &Vec<MentionInfo>,
    width: usize,
) -> (lines: Vec<Vec<char>>)
    ensures
        views_of(lines@) == text_lines_spec(
            *content,
            match ctx {
                Some(d) => Some(*d),
                None => None,
            },
            guild,
            ms@,
            width as nat,
        ),
{
    match content {
        Some(c) => {
            let chars = chars_of(c.as_str());
            if chars.len() > 0 {
                let rendered = render_mentions(chars.as_slice(), ctx, guild, ms);
                wrap_chars(rendered.as_slice(), width)
            } else {
                let v: Vec<Vec<char>> = Vec::new();
                assert(views_of(v@) =~= Seq::<Seq<char>>::empty());
                v
            }
        },
        None => {
            let v: Vec<Vec<char>> = Vec::new();
            assert(views_of(v@) =~= Seq::<Seq<char>>::empty());
            v
        },
    }
}

fn push_summaries(lines: &mut Vec<Vec<char>>, attachments: &Vec<AttachmentInfo>)
    ensures
        views_of(final(lines)@) == views_of(old(lines)@) + summaries_spec(attachments@),
{
    let mut k: usize = 0;
    while k < attachments.len()
        invariant
            k <= attachments@.len(),
            views_of(lines@) == views_of(old(lines)@) + summaries_spec(attachments@.take(k as int)),
        decreases attachments@.len() - k,
    {
        let line = attachment_summary(&attachments[k]);
        let ghost before = views_of(lines@);
        lines.push(line);
        assert(views_of(lines@) =~= before.push(attachment_summary_spec(attachments@[k as int])));
        assert(summaries_spec(attachments@.take(k + 1)) =~= summaries_spec(
            attachments@.take(k as int),
        ).push(attachment_summary_spec(attachments@[k as int])));
        k = k + 1;
    }
    assert(attachments@.take(attachments@.len() as int) =~= attachments@);
}

fn push_all(lines: &mut Vec<Vec<char>>, more: Vec<Vec<char>>)
    ensures
        views_of(final(lines)@) == views_of(old(lines)@) + views_of(more@),
{
    let ghost before = views_of(lines@);
    let ghost added = views_of(more@);
    let mut more = more;
    lines.append(&mut more);
    assert(views_of(lines@) =~= before + added);
}

fn prefix_lines(lines: Vec<Vec<char>>, p: &str) -> (out: Vec<Vec<char>>)
    ensures
        views_of(out@) == prefixed(views_of(lines@), p@),
{
    let pc = chars_of(p);
    let mut out: Vec<Vec<char>> = Vec::new();
    let ghost all = lines@;
    for line in it: lines.into_iter()
        invariant
            it.seq() == all,
            pc@ == p@,
            views_of(out@) == prefixed(views_of(all.take(it.index() as int)), p@),
    {
        let ghost k = it.index() as int;
        let mut l = chars_between(pc.as_slice(), 0, pc.len());
        assert(l@ =~= pc@);
        let mut rest = line;
        let ghost lv = rest@;
        l.append(&mut rest);
        let ghost before = views_of(out@);
        out.push(l);
        assert(views_of(out@) =~= before.push(p@ + lv));
        assert(all.take(k + 1) =~= all.take(k).push(all[k]));
        assert(views_of(all.take(k + 1)) =~= views_of(all.take(k)).push(lv));
        assert(prefixed(views_of(all.take(k + 1)), p@) =~= prefixed(views_of(all.take(k)), p@).push(
            p@ + lv,
        ));
    }
    assert(all.take(all.len() as int) =~= all);
    out
}

fn snapshot_lines(ctx: Option<&DiscordState>, snap: &MessageSnapshotInfo, width: usize) -> (lines:
    Vec<Vec<char>>)
    ensures
        views_of(lines@) == snapshot_lines_spec(
            match ctx {
                Some(d) => Some(*d),
                None => None,
            },
            *snap,
            width as nat,
        ),
{
    let ghost c = match ctx {
        Some(d) => Some(*d),
        None => None,
    };
    let inner: usize = if width >= 2 {
        width - 2
    } else {
        0
    };
    let channel = match (ctx, snap.source_channel_id) {
        (Some(d), Some(cid)) => match find_index(&d.channels, cid) {
            Some(i) => Some(&d.channels[i]),
            None => None,
        },
        _ => None,
    };
    let guild = match channel {
        Some(ch) => ch.guild_id,
        None => None,
    };
    assert(guild == snapshot_guild(c, *snap));
    let mut body = text_lines(&snap.content, ctx, guild, &snap.mentions, inner);
    push_summaries(&mut body, &snap.attachments);
    match channel {
        Some(ch) => {
            let mut line = chars_of("#");
            let mut name = chars_of(ch.name.as_str());
            line.append(&mut name);
            let ghost before = views_of(body@);
            let ghost lv = line@;
            body.push(line);
            assert(views_of(body@) =~= before.push(lv));
        },
        None => {},
    }
    let ghost body_v = views_of(body@);
    assert(body_v =~= text_lines_spec(snap.content, c, snapshot_guild(c, *snap), snap.mentions@, inner as nat)
        + summaries_spec(snap.attachments@) + snapshot_channel_lines(c, *snap));
    let barred = prefix_lines(body, "│ ");
    let mut lines: Vec<Vec<char>> = Vec::new();
    lines.push(chars_of("↱ Forwarded"));
    let ghost head = views_of(lines@);
    assert(head =~= seq!["↱ Forwarded"@]);
    push_all(&mut lines, barred);
    lines
}

/// The lines of a message as the message pane shows them, with mentions resolved against
/// what `ctx` knows (see `message_lines_spec`).
pub fn message_lines(ctx: Option<&DiscordState>, message: &MessageState, width: usize) -> (lines:
    Vec<Vec<char>>)
    ensures
        views_of(lines@) == message_lines_spec(
            match ctx {
                Some(d) => Some(*d),
                None => None,
            },
            *message,
            width as nat,
        ),
{
    let ghost c = match ctx {
        Some(d) => Some(*d),
        None => None,
    };
    let mut lines = text_lines(&message.content, ctx, message.guild_id, &message.mentions, width);
    push_summaries(&mut lines, &message.attachments);
    let ghost head = views_of(lines@);
    let mut k: usize = 0;
    while k < message.forwarded_snapshots.len()
        invariant
            k <= message.forwarded_snapshots@.len(),
            c == (match ctx {
                Some(d) => Some(*d),
                None => None,
            }),
            views_of(lines@) == head + snapshots_lines_spec(
                c,
                message.forwarded_snapshots@.take(k as int),
                width as nat,
            ),
        decreases message.forwarded_snapshots@.len() - k,
    {
        let more = snapshot_lines(ctx, &message.forwarded_snapshots[k], width);
        push_all(&mut lines, more);
        assert(message.forwarded_snapshots@.take(k + 1).drop_last() =~= message.forwarded_snapshots@.take(
            k as int,
        ));
        k = k + 1;
    }
    assert(message.forwarded_snapshots@.take(message.forwarded_snapshots@.len() as int)
        =~= message.forwarded_snapshots@);
    lines
}

/// The lines of a message as the message pane shows them, mentions resolved against the
/// dashboard's client state.
pub fn format_message_content_lines(message: &MessageState, state: &DashboardState, width: usize) -> (lines:
    Vec<MessageContentLine>)
    ensures
        lines@.map_values(|l: MessageContentLine| l.text@) == message_lines_spec(
            Some(state.discord),
            *message,
            width as nat,
        ),
{
    let raw = message_lines(Some(&state.discord), message, width);
    let mut out: Vec<MessageContentLine> = Vec::new();
    let ghost all = raw@;
    for line in it: raw.into_iter()
        invariant
            it.seq() == all,
            out@.map_values(|l: MessageContentLine| l.text@) == views_of(all.take(it.index() as int)),
    {
        let ghost k = it.index() as int;
        let text = string_from_chars(line.as_slice());
        let ghost before = out@.map_values(|l: MessageContentLine| l.text@);
        out.push(MessageContentLine { text });
        assert(out@.map_values(|l: MessageContentLine| l.text@) =~= before.push(line@));
        assert(views_of(all.take(k + 1)) =~= views_of(all.take(k)).push(all[k]@));
    }
    assert(all.take(all.len() as int) =~= all);
    out
}

/// A message on one line: its lines, with no client state to resolve mentions against,
/// joined with spaces.
pub fn format_message_content(message: &MessageState, width: usize) -> (text: String)
    ensures
        text@ == join_spaced(message_lines_spec(None, *message, width as nat)),
{
    let lines = message_lines(None, message, width);
    let mut out: Vec<char> = Vec::new();
    let mut k: usize = 0;
    while k < lines.len()
        invariant
            k <= lines@.len(),
            out@ == join_spaced(views_of(lines@).take(k as int)),
        decreases lines@.len() - k,
    {
        let ghost before = out@;
        assert(views_of(lines@).take(k + 1).drop_last() =~= views_of(lines@).take(k as int));
        if k > 0 {
            out.push(' ');
        }
        let mut part = chars_between(lines[k].as_slice(), 0, lines[k].len());
        assert(part@ =~= lines@[k as int]@);
        out.append(&mut part);
        assert(out@ =~= join_spaced(views_of(lines@).take(k + 1)));
        k = k + 1;
    }
    assert(views_of(lines@).take(lines@.len() as int) =~= views_of(lines@));
    string_from_chars(out.as_slice())
}

} // verus!
