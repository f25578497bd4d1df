use vstd::prelude::*;

use crate::discord_state::GuildMemberState;
use crate::text::{chars_between, chars_of, string_from_chars};

verus! {

/// The number of terminal columns a character takes, as `unicode-width` measures it
/// (control characters take none).
pub uninterp spec fn char_width_spec(c: char) -> nat;

/// The display width of a character (`unicode_width::UnicodeWidthChar::width`, none for a
/// control character counted as 0). Claimed: a function of the character alone.
#[verifier::external_body]
pub(crate) fn char_width(c: char) -> (w: usize)
    ensures
        w as nat == char_width_spec(c),
{
    unicode_width::UnicodeWidthChar::width(c).unwrap_or(0)
}

/// `a + b`, kept at most `usize::MAX`.
pub open spec fn sat_add(a: nat, b: nat) -> nat {
    if a + b > usize::MAX {
        usize::MAX as nat
    } else {
        a + b
    }
}

/// The display width of a text: the sum of its characters' widths, kept at most
/// `usize::MAX`.
pub open spec fn text_width_spec(s: Seq<char>) -> nat
    decreases s.len(),
{
    if s.len() == 0 {
        0
    } else {
        sat_add(text_width_spec(s.drop_last()), char_width_spec(s.last()))
    }
}

/// How many leading characters fit in `budget` columns.
pub open spec fn fit_prefix_len(s: Seq<char>, budget: nat) -> nat
    decreases s.len(),
{
    if s.len() == 0 || char_width_spec(s[0]) > budget {
        0
    } else {
        1 + fit_prefix_len(s.drop_first(), (budget - char_width_spec(s[0])) as nat)
    }
}

/// How many leading characters a horizontal scroll of `offset` columns hides: characters
/// are hidden while fewer than `offset` columns are, so a wide character that straddles the
/// offset is hidden whole.
pub open spec fn skip_prefix_len(s: Seq<char>, offset: nat) -> nat
    decreases s.len(),
{
    if s.len() == 0 || offset == 0 {
        0
    } else {
        1 + skip_prefix_len(
            s.drop_first(),
            if offset > char_width_spec(s[0]) {
                (offset - char_width_spec(s[0])) as nat
            } else {
                0
            },
        )
    }
}

/// A text cut to `max` columns: unchanged when it fits; otherwise the leading characters
/// that fit with `...` after them (without the dots when even they do not fit).
pub open spec fn truncate_width_spec(s: Seq<char>, max: nat) -> Seq<char> {
    if text_width_spec(s) <= max {
        s
    } else if max >= 3 {
        s.take(fit_prefix_len(s, (max - 3) as nat) as int) + seq!['.', '.', '.']
    } else {
        s.take(fit_prefix_len(s, max) as int)
    }
}

/// A text scrolled `offset` columns to the left, then cut to `max` columns.
pub open spec fn truncate_width_from_spec(s: Seq<char>, offset: nat, max: nat) -> Seq<char> {
    truncate_width_spec(s.skip(skip_prefix_len(s, offset) as int), max)
}

fn text_width(chars: &[char]) -> (w: usize)
    ensures
        w as nat == text_width_spec(chars@),
{
    let mut w: usize = 0;
    let mut i: usize = 0;
    while i < chars.len()
        invariant
            i <= chars@.len(),
            w as nat == text_width_spec(chars@.take(i as int)),
        decreases chars@.len() - i,
    {
        assert(chars@.take(i + 1).drop_last() =~= chars@.take(i as int));
        w = w.saturating_add(char_width(chars[i]));
        i = i + 1;
    }
    assert(chars@.take(chars@.len() as int) =~= chars@);
    w
}

fn fit_prefix(chars: &[char], budget: usize) -> (n: usize)
    ensures
        n as nat == fit_prefix_len(chars@, budget as nat),
        n <= chars@.len(),
{
    let mut left = budget;
    let mut i: usize = 0;
    assert(chars@.skip(0) =~= chars@);
    while i < chars.len() && char_width(chars[i]) <= left
        invariant
            i <= chars@.len(),
            fit_prefix_len(chars@, budget as nat) == i + fit_prefix_len(
                chars@.skip(i as int),
                left as nat,
            ),
        decreases chars@.len() - i,
    {
        assert(chars@.skip(i as int).drop_first() =~= chars@.skip(i + 1));
        left = left - char_width(chars[i]);
        i = i + 1;
    }
    i
}

fn skip_prefix(chars: &[char], offset: usize) -> (n: usize)
    ensures
        n as nat == skip_prefix_len(chars@, offset as nat),
        n <= chars@.len(),
{
    let mut left = offset;
    let mut i: usize = 0;
    assert(chars@.skip(0) =~= chars@);
    while i < chars.len() && left > 0
        invariant
            i <= chars@.len(),
            skip_prefix_len(chars@, offset as nat) == i + skip_prefix_len(
                chars@.skip(i as int),
                left as nat,
            ),
        decreases chars@.len() - i,
    {
        assert(chars@.skip(i as int).drop_first() =~= chars@.skip(i + 1));
        let w = char_width(chars[i]);
        left = if left > w {
            left - w
        } else {
            0
        };
        i = i + 1;
    }
    i
}

fn truncate_chars_to_width(chars: &[char], max: usize) -> (out: Vec<char>)
    ensures
        out@ == truncate_width_spec(chars@, max as nat),
{
    if text_width(chars) <= max {
        return chars_between(chars, 0, chars.len());
    }
    if max >= 3 {
        let n = fit_prefix(chars, max - 3);
        let mut out = chars_between(chars, 0, n);
        out.push('.');
        out.push('.');
        out.push('.');
        assert(out@ =~= chars@.take(n as int) + seq!['.', '.', '.']);
        out
    } else {
        let n = fit_prefix(chars, max);
        chars_between(chars, 0, n)
    }
}

/// A text cut to `max` display columns, with `...` where it was cut.
pub fn truncate_display_width(text: &str, max: usize) -> (out: String)
    ensures
        out@ == truncate_width_spec(text@, max as nat),
{
    let chars = chars_of(text);
    let cut = truncate_chars_to_width(chars.as_slice(), max);
    string_from_chars(cut.as_slice())
}

/// A text scrolled `offset` display columns to the left, then cut to `max` columns.
pub fn truncate_display_width_from(text: &str, offset: usize, max: usize) -> (out: String)
    ensures
        out@ == truncate_width_from_spec(text@, offset as nat, max as nat),
{
    let chars = chars_of(text);
    let n = skip_prefix(chars.as_slice(), offset);
    let rest = chars_between(chars.as_slice(), n, chars.len());
    assert(rest@ =~= chars@.skip(n as int));
    let cut = truncate_chars_to_width(rest.as_slice(), max);
    string_from_chars(cut.as_slice())
}

/// The member pane's label of a member: the display name, scrolled and cut to the pane.
pub fn member_display_label(member: &GuildMemberState, offset: usize, max: usize) -> (label: String)
    ensures
        label@ == truncate_width_from_spec(member.display_name@, offset as nat, max as nat),
{
    truncate_display_width_from(member.display_name.as_str(), offset, max)
}

/// A character that stays with the one before it on a line: a zero-width mark, or anything
/// after a zero-width joiner (so emoji sequences are never split); never across a newline.
pub open spec fn joins_previous(prev: char, c: char) -> bool {
    prev != '\n' && (char_width_spec(c) == 0 || prev == '\u{200D}')
}

/// The lines of `s` from position `i` on, wrapped greedily to `width` columns, given the
/// finished lines `done` and the line `cur` being filled, `w` columns wide. A newline ends a
/// line; a character that does not fit starts a new line unless the line is empty or the
/// character joins the one before it.
pub open spec fn wrap_from(
    s: Seq<char>,
    width: nat,
    i: int,
    done: Seq<Seq<char>>,
    cur: Seq<char>,
    w: nat,
) -> Seq<Seq<char>>
    decreases s.len() - i,
{
    if i < 0 || i >= s.len() {
        done.push(cur)
    } else {
        let c = s[i];
        if c == '\n' {
            wrap_from(s, width, i + 1, done.push(cur), Seq::empty(), 0)
        } else if i > 0 && joins_previous(s[i - 1], c) {
            wrap_from(s, width, i + 1, done, cur.push(c), sat_add(w, char_width_spec(c)))
        } else if cur.len() > 0 && sat_add(w, char_width_spec(c)) > width {
            wrap_from(s, width, i + 1, done.push(cur), seq![c], char_width_spec(c))
        } else {
            wrap_from(s, width, i + 1, done, cur.push(c), sat_add(w, char_width_spec(c)))
        }
    }
}

/// The lines a text takes when wrapped to `width` columns.
pub open spec fn wrap_text_spec(s: Seq<char>, width: nat) -> Seq<Seq<char>> {
    wrap_from(s, width, 0, Seq::empty(), Seq::empty(), 0)
}

pub open spec fn views_of(v: Seq<Vec<char>>) -> Seq<Seq<char>> {
    v.map_values(|x: Vec<char>| x@)
}

/// Wraps characters to `width` columns (see `wrap_text_spec`).
pub fn wrap_chars(chars: &[char], width: usize) -> (lines: Vec<Vec<char>>)
    ensures
        views_of(lines@) == wrap_text_spec(chars@, width as nat),
{
    let mut done: Vec<Vec<char>> = Vec::new();
    let mut cur: Vec<char> = Vec::new();
    let mut w: usize = 0;
    let mut i: usize = 0;
    assert(views_of(done@) =~= Seq::<Seq<char>>::empty());
    while i < chars.len()
        invariant
            i <= chars@.len(),
            wrap_from(chars@, width as nat, i as int, views_of(done@), cur@, w as nat)
                == wrap_text_spec(chars@, width as nat),
        decreases chars@.len() - i,
    {
        let c = chars[i];
        let cw = char_width(c);
        if c == '\n' {
            let ghost before = views_of(done@);
            let ghost line = cur@;
            let mut finished: Vec<char> = Vec::new();
            std::mem::swap(&mut finished, &mut cur);
            done.push(finished);
            assert(views_of(done@) =~= before.push(line));
            w = 0;
        } else if i > 0 && chars[i - 1] != '\n' && (cw == 0 || chars[i - 1] == '\u{200D}') {
            cur.push(c);
            w = w.saturating_add(cw);
        } else if cur.len() > 0 && w.saturating_add(cw) > width {
            let ghost before = views_of(done@);
            let ghost line = cur@;
            let mut finished: Vec<char> = Vec::new();
            finished.push(c);
            std::mem::swap(&mut finished, &mut cur);
            done.push(finished);
            assert(views_of(done@) =~= before.push(line));
            assert(cur@ =~= seq![c]);
            w = cw;
        } else {
            cur.push(c);
            w = w.saturating_add(cw);
        }
        i = i + 1;
    }
    let ghost before = views_of(done@);
    let ghost line = cur@;
    done.push(cur);
    assert(views_of(done@) =~= before.push(line));
    done
}

/// The lines a text takes when wrapped to `width` display columns.
pub fn wrap_text_lines(text: &str, width: usize) -> (lines: Vec<String>)
    ensures
        lines@.map_values(|l: String| l@) == wrap_text_spec(text@, width as nat),
{
    let chars = chars_of(text);
    let wrapped = wrap_chars(chars.as_slice(), width);
    let mut lines: Vec<String> = Vec::new();
    let mut k: usize = 0;
    while k < wrapped.len()
        invariant
            k <= wrapped@.len(),
            lines@.map_values(|l: String| l@) == views_of(wrapped@).take(k as int),
        decreases wrapped@.len() - k,
    {
        let line = string_from_chars(wrapped[k].as_slice());
        let ghost before = lines@.map_values(|l: String| l@);
        lines.push(line);
        assert(lines@.map_values(|l: String| l@) =~= before.push(wrapped@[k as int]@));
        assert(views_of(wrapped@).take(k + 1) =~= views_of(wrapped@).take(k as int).push(
            wrapped@[k as int]@,
        ));
        k = k + 1;
    }
    assert(views_of(wrapped@).take(wrapped@.len() as int) =~= views_of(wrapped@));
    lines
}

} // verus!
