use vstd::prelude::*;

use crate::composer::{adjust_completions, ComposerState, MentionCompletion};
use crate::dashboard::DashboardState;
use crate::discord_state::GuildMemberState;
use crate::text::{chars_contain, chars_occur_at, chars_of, contains_spec, occurs_at};

verus! {

/// The most suggestions the mention picker lists.
pub const MAX_MENTION_PICKER_VISIBLE: usize = 8;

/// One suggestion of the mention picker.
#[derive(Clone, Debug, PartialEq, Eq)]
pub struct MentionPickerEntry {
    pub user_id: u64,
    pub display_name: String,
    pub username: Option<String>,
}

/// Whether `e` is the suggestion for member `m`.
pub open spec fn entry_for(e: MentionPickerEntry, m: GuildMemberState) -> bool {
    &&& e.user_id == m.user_id
    &&& e.display_name@ == m.display_name@
    &&& match (e.username, m.username) {
        (Some(a), Some(b)) => a@ == b@,
        (None, None) => true,
        _ => false,
    }
}

/// `c` in lower case where it is an ASCII capital letter; otherwise `c` itself.
pub open spec fn fold_char_spec(c: char) -> char {
    if 'A' <= c && c <= 'Z' {
        ((c as u32) + 32) as char
    } else {
        c
    }
}

/// A text with its ASCII capitals in lower case.
pub open spec fn fold_seq(s: Seq<char>) -> Seq<char> {
    s.map_values(|c: char| fold_char_spec(c))
}

/// How well the folded query `fq` matches a member: 0 when it begins the display name, 1 when
/// it begins the username, 2 when it occurs in the display name, 3 when it occurs in the
/// username, 4 when it matches neither. Both names are compared with their ASCII capitals in
/// lower case.
pub open spec fn mention_rank(m: GuildMemberState, fq: Seq<char>) -> nat {
    let name = fold_seq(m.display_name@);
    if occurs_at(name, fq, 0) {
        0
    } else if (m.username matches Some(u) && occurs_at(fold_seq(u@), fq, 0)) {
        1
    } else if contains_spec(name, fq) {
        2
    } else if (m.username matches Some(u) && contains_spec(fold_seq(u@), fq)) {
        3
    } else {
        4
    }
}

/// Lexicographic order of texts by code point; a proper prefix comes first.
pub open spec fn chars_lt(a: Seq<char>, b: Seq<char>) -> bool
    decreases a.len(),
{
    if a.len() == 0 {
        b.len() > 0
    } else if b.len() == 0 {
        false
    } else if a[0] != b[0] {
        a[0] < b[0]
    } else {
        chars_lt(a.drop_first(), b.drop_first())
    }
}

/// Whether member `i` is listed before member `j`: the better match first, then the display
/// name alphabetically (ASCII case ignored), then the order of the member list.
pub open spec fn mention_before(ms: Seq<GuildMemberState>, fq: Seq<char>, i: int, j: int) -> bool {
    let ri = mention_rank(ms[i], fq);
    let rj = mention_rank(ms[j], fq);
    let ni = fold_seq(ms[i].display_name@);
    let nj = fold_seq(ms[j].display_name@);
    ||| ri < rj
    ||| ri == rj && chars_lt(ni, nj)
    ||| ri == rj && ni == nj && i < j
}

/// `idx` lists the members the query `q` picks, best first: members that match, in the
/// order of `mention_before`, and no matching member left out unless the list is full and
/// every listed member comes before it.
pub open spec fn is_pick_list(ms: Seq<GuildMemberState>, q: Seq<char>, idx: Seq<usize>) -> bool {
    let fq = fold_seq(q);
    &&& idx.len() <= MAX_MENTION_PICKER_VISIBLE
    &&& forall|t: int|
        0 <= t < idx.len() ==> #[trigger] idx[t] < ms.len() && mention_rank(ms[idx[t] as int], fq)
            < 4
    &&& forall|t1: int, t2: int|
        0 <= t1 < t2 < idx.len() ==> mention_before(
            ms,
            fq,
            #[trigger] idx[t1] as int,
            #[trigger] idx[t2] as int,
        )
    &&& forall|i: int|
        0 <= i < ms.len() && mention_rank(#[trigger] ms[i], fq) < 4 && !idx.contains(i as usize)
            ==> idx.len() == MAX_MENTION_PICKER_VISIBLE && forall|t: int|
            0 <= t < idx.len() ==> mention_before(ms, fq, #[trigger] idx[t] as int, i)
}

/// The members the mention picker lists for query `q`, best first (the one list that meets
/// `is_pick_list`).
pub open spec fn mention_picks(ms: Seq<GuildMemberState>, q: Seq<char>) -> Seq<usize> {
    choose|idx: Seq<usize>| is_pick_list(ms, q, idx)
}

/// The suggestions for the members at `idx`, in order.
pub open spec fn entries_for(es: Seq<MentionPickerEntry>, ms: Seq<GuildMemberState>, idx: Seq<usize>) -> bool {
    &&& es.len() == idx.len()
    &&& forall|t: int| 0 <= t < idx.len() ==> entry_for(#[trigger] es[t], ms[idx[t] as int])
}

proof fn lemma_chars_lt_order(a: Seq<char>, b: Seq<char>, c: Seq<char>)
    ensures
        !chars_lt(a, a),
        a != b ==> chars_lt(a, b) || chars_lt(b, a),
        chars_lt(a, b) && chars_lt(b, c) ==> chars_lt(a, c),
    decreases a.len(),
{
    if a.len() > 0 {
        lemma_chars_lt_order(a.drop_first(), b.drop_first(), c.drop_first());
        if b.len() > 0 && a[0] == b[0] && a.drop_first() == b.drop_first() {
            assert(a =~= seq![a[0]] + a.drop_first());
            assert(b =~= seq![b[0]] + b.drop_first());
        }
    } else {
        if b.len() == 0 {
            assert(a =~= b);
        }
    }
}

proof fn lemma_before_order(ms: Seq<GuildMemberState>, fq: Seq<char>, i: int, j: int, k: int)
    ensures
        !mention_before(ms, fq, i, i),
        i != j ==> mention_before(ms, fq, i, j) || mention_before(ms, fq, j, i),
        mention_before(ms, fq, i, j) && mention_before(ms, fq, j, k) ==> mention_before(
            ms,
            fq,
            i,
            k,
        ),
{
    let ni = fold_seq(ms[i].display_name@);
    let nj = fold_seq(ms[j].display_name@);
    let nk = fold_seq(ms[k].display_name@);
    lemma_chars_lt_order(ni, nj, nk);
    lemma_chars_lt_order(ni, ni, ni);
    lemma_chars_lt_order(nj, ni, ni);
    lemma_chars_lt_order(ni, nk, nk);
}

proof fn lemma_pick_lists_agree_at(
    ms: Seq<GuildMemberState>,
    q: Seq<char>,
    a: Seq<usize>,
    b: Seq<usize>,
    s: int,
)
    requires
        is_pick_list(ms, q, a),
        is_pick_list(ms, q, b),
        0 <= s < a.len(),
        s < b.len(),
        forall|p: int| 0 <= p < s ==> a[p] == b[p],
    ensures
        a[s] == b[s],
{
    let fq = fold_seq(q);
    let x = a[s] as int;
    let y = b[s] as int;
    if x != y {
        lemma_before_order(ms, fq, x, y, x);
        lemma_before_order(ms, fq, y, x, y);
        lemma_before_order(ms, fq, x, x, x);
        lemma_before_order(ms, fq, y, y, y);
        if mention_before(ms, fq, x, y) {
            if b.contains(x as usize) {
                let p = choose|p: int| 0 <= p < b.len() && b[p] == x as usize;
                if p < s {
                    assert(a[p] == b[p]);
                    assert(mention_before(ms, fq, a[p] as int, a[s] as int));
                } else {
                    assert(mention_before(ms, fq, b[s] as int, b[p] as int));
                }
            } else {
                assert(mention_rank(ms[x], fq) < 4);
                assert(mention_before(ms, fq, b[s] as int, x));
            }
        } else {
            if a.contains(y as usize) {
                let p = choose|p: int| 0 <= p < a.len() && a[p] == y as usize;
                if p < s {
                    assert(a[p] == b[p]);
                    assert(mention_before(ms, fq, b[p] as int, b[s] as int));
                } else {
                    assert(mention_before(ms, fq, a[s] as int, a[p] as int));
                }
            } else {
                assert(mention_rank(ms[y], fq) < 4);
                assert(mention_before(ms, fq, a[s] as int, y));
            }
        }
    }
}

proof fn lemma_pick_lists_prefix(
    ms: Seq<GuildMemberState>,
    q: Seq<char>,
    a: Seq<usize>,
    b: Seq<usize>,
    t: int,
)
    requires
        is_pick_list(ms, q, a),
        is_pick_list(ms, q, b),
        0 <= t <= a.len(),
        t <= b.len(),
    ensures
        forall|p: int| 0 <= p < t ==> a[p] == b[p],
    decreases t,
{
    if t > 0 {
        lemma_pick_lists_prefix(ms, q, a, b, t - 1);
        lemma_pick_lists_agree_at(ms, q, a, b, t - 1);
    }
}

proof fn lemma_pick_list_not_shorter(ms: Seq<GuildMemberState>, q: Seq<char>, a: Seq<usize>, b: Seq<usize>)
    requires
        is_pick_list(ms, q, a),
        is_pick_list(ms, q, b),
        forall|p: int| 0 <= p < a.len() && p < b.len() ==> a[p] == b[p],
    ensures
        b.len() <= a.len(),
{
    let fq = fold_seq(q);
    if a.len() < b.len() {
        let n = a.len() as int;
        let x = b[n] as int;
        lemma_before_order(ms, fq, x, x, x);
        if a.contains(x as usize) {
            let p = choose|p: int| 0 <= p < a.len() && a[p] == x as usize;
            assert(b[p] == a[p]);
            assert(mention_before(ms, fq, b[p] as int, b[n] as int));
        } else {
            assert(mention_rank(ms[x], fq) < 4);
        }
    }
}

/// The mention picker's list is determined by the members and the query: two lists that
/// both meet `is_pick_list` are the same.
pub proof fn lemma_pick_list_unique(ms: Seq<GuildMemberState>, q: Seq<char>, a: Seq<usize>, b: Seq<usize>)
    requires
        is_pick_list(ms, q, a),
        is_pick_list(ms, q, b),
    ensures
        a == b,
{
    let t = if a.len() <= b.len() { a.len() as int } else { b.len() as int };
    lemma_pick_lists_prefix(ms, q, a, b, t);
    lemma_pick_list_not_shorter(ms, q, a, b);
    lemma_pick_list_not_shorter(ms, q, b, a);
    assert(a =~= b);
}

fn fold_char(c: char) -> (f: char)
    ensures
        f == fold_char_spec(c),
{
    if 'A' <= c && c <= 'Z' {
        let b: u8 = c as u8;
        (b + 32) as char
    } else {
        c
    }
}

fn fold_chars(s: &[char]) -> (out: Vec<char>)
    ensures
        out@ == fold_seq(s@),
{
    let mut out: Vec<char> = Vec::new();
    let mut i: usize = 0;
    while i < s.len()
        invariant
            i <= s@.len(),
            out@ == fold_seq(s@.take(i as int)),
        decreases s@.len() - i,
    {
        out.push(fold_char(s[i]));
        assert(s@.take(i + 1) =~= s@.take(i as int).push(s@[i as int]));
        assert(fold_seq(s@.take(i + 1)) =~= fold_seq(s@.take(i as int)).push(fold_char_spec(s@[i as int])));
        i = i + 1;
    }
    assert(s@.take(i as int) =~= s@);
    out
}

fn chars_less(a: &[char], b: &[char]) -> (lt: bool)
    ensures
        lt == chars_lt(a@, b@),
{
    let mut k: usize = 0;
    assert(a@.skip(0) =~= a@);
    assert(b@.skip(0) =~= b@);
    while k < a.len() && k < b.len() && a[k] == b[k]
        invariant
            k <= a@.len(),
            k <= b@.len(),
            chars_lt(a@, b@) == chars_lt(a@.skip(k as int), b@.skip(k as int)),
        decreases a@.len() - k,
    {
        assert(a@.skip(k as int).drop_first() =~= a@.skip(k + 1));
        assert(b@.skip(k as int).drop_first() =~= b@.skip(k + 1));
        k = k + 1;
    }
    if k == a.len() {
        return k < b.len();
    }
    if k == b.len() {
        return false;
    }
    assert(a@.skip(k as int)[0] == a@[k as int]);
    assert(b@.skip(k as int)[0] == b@[k as int]);
    a[k] < b[k]
}

fn optional_chars(s: &Option<String>) -> (out: Option<Vec<char>>)
    ensures
        match (out, *s) {
            (Some(v), Some(u)) => v@ == fold_seq(u@),
            (None, None) => true,
            _ => false,
        },
{
    match s {
        Some(u) => {
            let raw = chars_of(u.as_str());
            Some(fold_chars(raw.as_slice()))
        },
        None => None,
    }
}

/// How well the folded query matches the member (`mention_rank`).
fn member_rank(m: &GuildMemberState, fq: &[char]) -> (r: u8)
    ensures
        r == mention_rank(*m, fq@),
{
    let raw = chars_of(m.display_name.as_str());
    let name = fold_chars(raw.as_slice());
    let user = optional_chars(&m.username);
    if fq.len() <= name.len() && chars_occur_at(name.as_slice(), fq, 0) {
        return 0;
    }
    if let Some(u) = &user {
        if fq.len() <= u.len() && chars_occur_at(u.as_slice(), fq, 0) {
            return 1;
        }
    }
    if chars_contain(name.as_slice(), fq) {
        return 2;
    }
    if let Some(u) = &user {
        if chars_contain(u.as_slice(), fq) {
            return 3;
        }
    }
    4
}

/// Whether member `i` is listed before member `j`, from their ranks and folded names.
fn before_exec(ranks: &Vec<u8>, names: &Vec<Vec<char>>, i: usize, j: usize) -> (b: bool)
    requires
        i < ranks@.len(),
        j < ranks@.len(),
        ranks@.len() == names@.len(),
    ensures
        b == ({
            let ri = ranks@[i as int];
            let rj = ranks@[j as int];
            let ni = names@[i as int]@;
            let nj = names@[j as int]@;
            ||| ri < rj
            ||| ri == rj && chars_lt(ni, nj)
            ||| ri == rj && ni == nj && i < j
        }),
{
    if ranks[i] != ranks[j] {
        return ranks[i] < ranks[j];
    }
    if chars_less(names[i].as_slice(), names[j].as_slice()) {
        return true;
    }
    if chars_less(names[j].as_slice(), names[i].as_slice()) {
        proof {
            lemma_chars_lt_order(names@[i as int]@, names@[j as int]@, names@[j as int]@);
            lemma_chars_lt_order(names@[j as int]@, names@[i as int]@, names@[i as int]@);
        }
        return false;
    }
    proof {
        lemma_chars_lt_order(names@[i as int]@, names@[j as int]@, names@[j as int]@);
    }
    i < j
}

/// The members the query picks for the mention picker, best first (`is_pick_list`).
pub fn mention_candidate_indices(ms: &[GuildMemberState], query: &[char]) -> (idx: Vec<usize>)
    ensures
        is_pick_list(ms@, query@, idx@),
        idx@ == mention_picks(ms@, query@),
{
    let fq = fold_chars(query);
    let ghost fqs = fold_seq(query@);
    let n = ms.len();
    let mut ranks: Vec<u8> = Vec::new();
    let mut names: Vec<Vec<char>> = Vec::new();
    let mut taken: Vec<bool> = Vec::new();
    let mut i: usize = 0;
    while i < n
        invariant
            n == ms@.len(),
            fq@ == fqs,
            i <= n,
            ranks@.len() == i,
            names@.len() == i,
            taken@.len() == i,
            forall|j: int| 0 <= j < i ==> #[trigger] ranks@[j] == mention_rank(ms@[j], fqs),
            forall|j: int| 0 <= j < i ==> #[trigger] names@[j]@ == fold_seq(ms@[j].display_name@),
            forall|j: int| 0 <= j < i ==> !#[trigger] taken@[j],
        decreases n - i,
    {
        ranks.push(member_rank(&ms[i], fq.as_slice()));
        let raw = chars_of(ms[i].display_name.as_str());
        names.push(fold_chars(raw.as_slice()));
        taken.push(false);
        i = i + 1;
    }
    let mut chosen: Vec<usize> = Vec::new();
    let mut exhausted = false;
    while !exhausted && chosen.len() < MAX_MENTION_PICKER_VISIBLE
        invariant
            n == ms@.len(),
            ranks@.len() == n,
            names@.len() == n,
            taken@.len() == n,
            forall|j: int| 0 <= j < n ==> #[trigger] ranks@[j] == mention_rank(ms@[j], fqs),
            forall|j: int| 0 <= j < n ==> #[trigger] names@[j]@ == fold_seq(ms@[j].display_name@),
            chosen@.len() <= MAX_MENTION_PICKER_VISIBLE,
            forall|t: int|
                0 <= t < chosen@.len() ==> #[trigger] chosen@[t] < n && ranks@[chosen@[t] as int]
                    < 4 && taken@[chosen@[t] as int],
            forall|j: int| 0 <= j < n && #[trigger] taken@[j] ==> chosen@.contains(j as usize),
            forall|t1: int, t2: int|
                0 <= t1 < t2 < chosen@.len() ==> mention_before(
                    ms@,
                    fqs,
                    #[trigger] chosen@[t1] as int,
                    #[trigger] chosen@[t2] as int,
                ),
            forall|j: int|
                0 <= j < n && ranks@[j] < 4 && !#[trigger] taken@[j] ==> forall|t: int|
                    0 <= t < chosen@.len() ==> mention_before(
                        ms@,
                        fqs,
                        #[trigger] chosen@[t] as int,
                        j,
                    ),
            exhausted ==> forall|j: int| 0 <= j < n ==> ranks@[j] == 4 || #[trigger] taken@[j],
        decreases MAX_MENTION_PICKER_VISIBLE - chosen@.len(), if exhausted { 0int } else { 1int },
    {
        let mut best: Option<usize> = None;
        let mut k: usize = 0;
        while k < n
            invariant
                n == ms@.len(),
                ranks@.len() == n,
                names@.len() == n,
                taken@.len() == n,
                forall|j: int| 0 <= j < n ==> #[trigger] ranks@[j] == mention_rank(ms@[j], fqs),
                forall|j: int|
                    0 <= j < n ==> #[trigger] names@[j]@ == fold_seq(ms@[j].display_name@),
                k <= n,
                match best {
                    Some(b) => b < k && ranks@[b as int] < 4 && !taken@[b as int],
                    None => true,
                },
                forall|j: int|
                    0 <= j < k && ranks@[j] < 4 && !#[trigger] taken@[j] ==> match best {
                        Some(b) => b == j || mention_before(ms@, fqs, b as int, j),
                        None => false,
                    },
            decreases n - k,
        {
            if ranks[k] < 4 && !taken[k] {
                match best {
                    None => {
                        best = Some(k);
                    },
                    Some(b) => {
                        if before_exec(&ranks, &names, k, b) {
                            proof {
                                assert forall|j: int|
                                    0 <= j < k && ranks@[j] < 4 && !taken@[j] implies mention_before(
                                    ms@,
                                    fqs,
                                    k as int,
                                    j,
                                ) by {
                                    lemma_before_order(ms@, fqs, k as int, b as int, j);
                                }
                            }
                            best = Some(k);
                        } else {
                            proof {
                                lemma_before_order(ms@, fqs, b as int, k as int, k as int);
                            }
                        }
                    },
                }
            }
            k = k + 1;
        }
        match best {
            None => {
                exhausted = true;
            },
            Some(b) => {
                let ghost before_push = chosen@;
                chosen.push(b);
                taken.set(b, true);
                proof {
                    assert(chosen@ == before_push.push(b));
                    assert forall|j: int| 0 <= j < n && #[trigger] taken@[j] implies chosen@.contains(
                        j as usize,
                    ) by {
                        if j != b as int {
                            assert(before_push.contains(j as usize));
                            let t = choose|t: int| 0 <= t < before_push.len() && before_push[t] == j as usize;
                            assert(chosen@[t] == j as usize);
                        } else {
                            assert(chosen@[before_push.len() as int] == b);
                        }
                    }
                    assert forall|t: int|
                        0 <= t < chosen@.len() implies #[trigger] chosen@[t] < n && ranks@[chosen@[t] as int]
                            < 4 && taken@[chosen@[t] as int] by {
                        if t < before_push.len() {
                            assert(chosen@[t] == before_push[t]);
                        }
                    }
                    assert forall|t1: int, t2: int|
                        0 <= t1 < t2 < chosen@.len() implies mention_before(
                            ms@,
                            fqs,
                            #[trigger] chosen@[t1] as int,
                            #[trigger] chosen@[t2] as int,
                        ) by {
                        assert(chosen@[t1] == before_push[t1]);
                        if t2 < before_push.len() {
                            assert(chosen@[t2] == before_push[t2]);
                        }
                    }
                    assert forall|j: int|
                        0 <= j < n && ranks@[j] < 4 && !#[trigger] taken@[j] implies forall|t: int|
                            0 <= t < chosen@.len() ==> mention_before(
                                ms@,
                                fqs,
                                #[trigger] chosen@[t] as int,
                                j,
                            ) by {
                        assert(j != b as int);
                        assert forall|t: int| 0 <= t < chosen@.len() implies mention_before(
                            ms@,
                            fqs,
                            #[trigger] chosen@[t] as int,
                            j,
                        ) by {
                            if t < before_push.len() {
                                assert(chosen@[t] == before_push[t]);
                            }
                        }
                    }
                }
            },
        }
    }
    proof {
        assert forall|j: int|
            0 <= j < ms@.len() && mention_rank(#[trigger] ms@[j], fqs) < 4 && !chosen@.contains(
                j as usize,
            ) implies chosen@.len() == MAX_MENTION_PICKER_VISIBLE && forall|t: int|
            0 <= t < chosen@.len() ==> mention_before(ms@, fqs, #[trigger] chosen@[t] as int, j) by {
            assert(ranks@[j] < 4);
            if taken@[j] {
            }
        }
        assert(is_pick_list(ms@, query@, chosen@));
        lemma_pick_list_unique(ms@, query@, chosen@, mention_picks(ms@, query@));
    }
    chosen
}

/// What confirming a suggestion writes over `@query`: `@`, the display name and a space.
pub open spec fn mention_replacement(name: Seq<char>) -> Seq<char> {
    seq!['@'] + name + seq![' ']
}

/// The highlighted suggestion after moving it by `delta` in a list of `len`, held inside
/// the list.
pub open spec fn moved_selection(selected: usize, len: nat, delta: isize) -> usize {
    let target = selected + delta;
    if len == 0 || target <= 0 {
        0
    } else if target >= len {
        (len - 1) as usize
    } else {
        target as usize
    }
}

fn entry_of(m: &GuildMemberState) -> (e: MentionPickerEntry)
    ensures
        entry_for(e, *m),
{
    let username = match &m.username {
        Some(u) => Some(u.clone()),
        None => None,
    };
    MentionPickerEntry { user_id: m.user_id, display_name: m.display_name.clone(), username }
}

fn replacement_chars(name: &[char]) -> (text: Vec<char>)
    ensures
        text@ == mention_replacement(name@),
{
    let mut text: Vec<char> = Vec::new();
    text.push('@');
    let mut k: usize = 0;
    while k < name.len()
        invariant
            k <= name@.len(),
            text@ == seq!['@'] + name@.take(k as int),
        decreases name@.len() - k,
    {
        text.push(name[k]);
        assert(name@.take(k + 1) =~= name@.take(k as int).push(name@[k as int]));
        k = k + 1;
    }
    text.push(' ');
    assert(name@.take(k as int) =~= name@);
    assert(text@ =~= mention_replacement(name@));
    text
}

impl ComposerState {
    /// Writes `@name ` over the text from `start` up to the cursor, records that the name
    /// stands for `user_id`, and closes the picker.
    pub fn complete_mention(&mut self, start: usize, name: &[char], user_id: u64)
        requires
            start <= old(self).cursor_spec(),
        ensures
            ({
                let end = old(self).cursor_spec();
                let text = mention_replacement(name@);
                &&& final(self).input@ == old(self).input@.take(start as int) + text
                    + old(self).input@.skip(end as int)
                &&& final(self).cursor == start + text.len()
                &&& final(self).mention_completions@ == adjust_completions(
                    old(self).mention_completions@,
                    start as nat,
                    end,
                    text.len(),
                ).push(MentionCompletion { start, end: (start + 1 + name@.len()) as usize, user_id })
                &&& final(self).mention_closed()
                &&& final(self).same_targets(*old(self))
            }),
    {
        let cursor = self.cursor_index();
        let text = replacement_chars(name);
        self.replace_range(start, cursor, text.as_slice());
        let end = start + 1 + name.len();
        self.mention_completions.push(MentionCompletion { start, end, user_id });
        self.cancel_mention();
    }
}

impl DashboardState {
    /// The picker's list for the typed query, when one is open.
    pub open spec fn mention_candidate_ids(self) -> Option<Seq<usize>> {
        match self.composer.mention_query {
            Some(q) => Some(mention_picks(self.members_spec(), q@)),
            None => None,
        }
    }

    /// The suggestions of the mention picker: the members of the active guild that the
    /// typed query matches, best first (`mention_picks`); none while the picker is closed.
    pub fn composer_mention_candidates(&self) -> (entries: Vec<MentionPickerEntry>)
        ensures
            match self.mention_candidate_ids() {
                Some(idx) => entries_for(entries@, self.members_spec(), idx),
                None => entries@.len() == 0,
            },
    {
        let members = self.members();
        match &self.composer.mention_query {
            None => Vec::new(),
            Some(q) => {
                let idx = mention_candidate_indices(members, q.as_slice());
                let mut out: Vec<MentionPickerEntry> = Vec::new();
                let mut t: usize = 0;
                while t < idx.len()
                    invariant
                        members@ == self.members_spec(),
                        is_pick_list(members@, q@, idx@),
                        t <= idx@.len(),
                        out@.len() == t,
                        forall|s: int| 0 <= s < t ==> entry_for(#[trigger] out@[s], members@[idx@[s] as int]),
                    decreases idx@.len() - t,
                {
                    out.push(entry_of(&members[idx[t]]));
                    t = t + 1;
                }
                out
            },
        }
    }

    /// Moves the highlighted suggestion by `delta`, held inside the list; nothing happens
    /// while the picker is closed.
    pub fn move_composer_mention_selection(&mut self, delta: isize)
        ensures
            match old(self).mention_candidate_ids() {
                Some(idx) => final(self).composer.mention_selected == moved_selection(
                    old(self).composer.mention_selected,
                    idx.len(),
                    delta,
                ),
                None => final(self).composer.mention_selected == old(self).composer.mention_selected,
            },
            final(self).composer.mention_query == old(self).composer.mention_query,
            final(self).composer.mention_start == old(self).composer.mention_start,
            final(self).composer.same_but_mention(old(self).composer),
            final(self).same_but_composer(*old(self)),
    {
        if self.composer.mention_query.is_none() {
            return;
        }
        let len = self.composer_mention_candidates().len();
        let target: i128 = self.composer.mention_selected as i128 + delta as i128;
        let selected: usize = if len == 0 || target <= 0 {
            0
        } else if target >= len as i128 {
            len - 1
        } else {
            target as usize
        };
        self.composer.mention_selected = selected;
    }

    /// Confirms the highlighted suggestion: the `@query` before the cursor becomes `@name `
    /// with the member's display name, a completion records that the name stands for the
    /// member, and the picker closes. Returns `false`, changing nothing, when the picker is
    /// closed, has no highlighted suggestion, or its `@` lies after the cursor.
    pub fn confirm_composer_mention(&mut self) -> (confirmed: bool)
        ensures
            confirmed <==> ({
                &&& old(self).mention_candidate_ids() matches Some(idx)
                &&& old(self).composer.mention_selected < idx.len()
                &&& old(self).composer.mention_start matches Some(start)
                &&& start <= old(self).composer.cursor_spec()
            }),
            !confirmed ==> *final(self) == *old(self),
            confirmed ==> ({
                let idx = old(self).mention_candidate_ids().unwrap();
                let m = old(self).members_spec()[idx[old(self).composer.mention_selected as int] as int];
                let start = old(self).composer.mention_start.unwrap() as nat;
                let end = old(self).composer.cursor_spec();
                let text = mention_replacement(m.display_name@);
                &&& final(self).composer.input@ == old(self).composer.input@.take(start as int) + text
                    + old(self).composer.input@.skip(end as int)
                &&& final(self).composer.cursor == start + text.len()
                &&& final(self).composer.mention_completions@ == adjust_completions(
                    old(self).composer.mention_completions@,
                    start,
                    end,
                    text.len(),
                ).push(
                    MentionCompletion {
                        start: start as usize,
                        end: (start + 1 + m.display_name@.len()) as usize,
                        user_id: m.user_id,
                    },
                )
                &&& final(self).composer.mention_closed()
                &&& final(self).composer.same_targets(old(self).composer)
            }),
            final(self).same_but_composer(*old(self)),
    {
        if self.composer.mention_query.is_none() {
            return false;
        }
        let start = match self.composer.mention_start {
            Some(s) => s,
            None => {
                return false;
            },
        };
        let candidates = self.composer_mention_candidates();
        let selected = self.composer.mention_selected;
        if selected >= candidates.len() {
            return false;
        }
        let cursor = self.composer.cursor_index();
        if start > cursor {
            return false;
        }
        let name = chars_of(candidates[selected].display_name.as_str());
        self.composer.complete_mention(start, name.as_slice(), candidates[selected].user_id);
        true
    }
}


/// The folded query begins the member's display name.
pub open spec fn display_name_starts_with(m: GuildMemberState, fq: Seq<char>) -> bool {
    occurs_at(fold_seq(m.display_name@), fq, 0)
}

/// The folded query begins the member's username.
pub open spec fn username_starts_with(m: GuildMemberState, fq: Seq<char>) -> bool {
    m.username matches Some(u) && occurs_at(fold_seq(u@), fq, 0)
}

/// The folded query occurs somewhere in the member's display name.
pub open spec fn display_name_contains(m: GuildMemberState, fq: Seq<char>) -> bool {
    contains_spec(fold_seq(m.display_name@), fq)
}

/// Member `a`'s match is of a better kind than member `b`'s: a display name that begins with
/// the query beats one that does not; failing that, a username that begins with it beats
/// neither name beginning with it; failing that, a display name that holds it beats one
/// found only in the username (or nowhere).
pub open spec fn better_match_kind(a: GuildMemberState, b: GuildMemberState, fq: Seq<char>) -> bool {
    ||| display_name_starts_with(a, fq) && !display_name_starts_with(b, fq)
    ||| !display_name_starts_with(a, fq) && username_starts_with(a, fq)
        && !display_name_starts_with(b, fq) && !username_starts_with(b, fq)
    ||| !display_name_starts_with(a, fq) && !username_starts_with(a, fq) && display_name_contains(a, fq)
        && !display_name_starts_with(b, fq) && !username_starts_with(b, fq)
        && !display_name_contains(b, fq)
}

/// A member with a better kind of match is listed before one with a worse kind, whatever
/// their names: prefix matches before substring matches, and at the same kind a match in the
/// display name before one in the username.
pub proof fn lemma_better_match_listed_first(ms: Seq<GuildMemberState>, fq: Seq<char>, i: int, j: int)
    requires
        0 <= i < ms.len(),
        0 <= j < ms.len(),
        better_match_kind(ms[i], ms[j], fq),
    ensures
        mention_before(ms, fq, i, j),
        !mention_before(ms, fq, j, i),
{
}

/// In the picker's list, a member with a better kind of match comes before one with a worse
/// kind.
pub proof fn lemma_pick_list_puts_better_match_first(
    ms: Seq<GuildMemberState>,
    q: Seq<char>,
    idx: Seq<usize>,
    t1: int,
    t2: int,
)
    requires
        is_pick_list(ms, q, idx),
        0 <= t1 < idx.len(),
        0 <= t2 < idx.len(),
        better_match_kind(ms[idx[t1] as int], ms[idx[t2] as int], fold_seq(q)),
    ensures
        t1 < t2,
{
    let fq = fold_seq(q);
    lemma_better_match_listed_first(ms, fq, idx[t1] as int, idx[t2] as int);
    if t2 < t1 {
        assert(mention_before(ms, fq, idx[t2] as int, idx[t1] as int));
    }
}

} // verus!
