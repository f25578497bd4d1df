use vstd::prelude::*;

verus! {

/// Copies the characters of a string slice into a vector.
pub fn chars_of(s: &str) -> (out: Vec<char>)
    ensures
        out@ == s@,
{
    let mut out: Vec<char> = Vec::new();
    for c in it: s.chars()
        invariant
            out@ == it.seq().take(it.index() as int),
            it.seq() == s@,
    {
        out.push(c);
    }
    out
}

/// Appends one character to a string (`String::push`).
#[verifier::external_body]
pub(crate) fn string_push(s: &mut String, c: char)
    ensures
        final(s)@ == old(s)@.push(c),
{
    s.push(c);
}

/// Appends the characters of a slice to a string.
pub fn push_chars(s: &mut String, chars: &[char])
    ensures
        final(s)@ == old(s)@ + chars@,
{
    let mut i: usize = 0;
    while i < chars.len()
        invariant
            i <= chars@.len(),
            s@ == old(s)@ + chars@.take(i as int),
        decreases chars@.len() - i,
    {
        string_push(s, chars[i]);
        assert(chars@.take(i + 1) == chars@.take(i as int).push(chars@[i as int]));
        i = i + 1;
    }
    assert(chars@.take(chars@.len() as int) == chars@);
}

/// Builds a string from a slice of characters.
pub fn string_from_chars(chars: &[char]) -> (s: String)
    ensures
        s@ == chars@,
{
    let mut s = String::new();
    push_chars(&mut s, chars);
    s
}

/// Appends a string slice to a string.
pub fn push_str(s: &mut String, other: &str)
    ensures
        final(s)@ == old(s)@ + other@,
{
    let chars = chars_of(other);
    push_chars(s, chars.as_slice());
}

/// `base` joined with the relative component `part` by one `/`, as a file path joins:
/// nothing is added after an empty base or one that already ends with `/`.
pub open spec fn join_path_spec(base: Seq<char>, part: Seq<char>) -> Seq<char> {
    if base.len() == 0 {
        part
    } else if base.last() == '/' {
        base + part
    } else {
        base + seq!['/'] + part
    }
}

/// Joins a relative path component onto a base path.
pub fn join_path(base: &str, part: &str) -> (joined: String)
    ensures
        joined@ == join_path_spec(base@, part@),
{
    let base_chars = chars_of(base);
    let mut joined = string_from_chars(base_chars.as_slice());
    if base_chars.len() > 0 && base_chars[base_chars.len() - 1] != '/' {
        string_push(&mut joined, '/');
    }
    push_str(&mut joined, part);
    joined
}

/// Whether `needle` occurs in `hay` starting at position `start`.
pub open spec fn occurs_at(hay: Seq<char>, needle: Seq<char>, start: int) -> bool {
    0 <= start && start + needle.len() <= hay.len() && hay.subrange(start, start + needle.len())
        == needle
}

/// Whether `needle` occurs anywhere in `hay` (`str::contains`).
pub open spec fn contains_spec(hay: Seq<char>, needle: Seq<char>) -> bool {
    exists|start: int| occurs_at(hay, needle, start)
}

/// Whether `needle` occurs in `hay` at `start`.
pub fn chars_occur_at(hay: &[char], needle: &[char], start: usize) -> (found: bool)
    requires
        start + needle.len() <= hay.len(),
    ensures
        found == occurs_at(hay@, needle@, start as int),
{
    let mut k: usize = 0;
    while k < needle.len()
        invariant
            start + needle.len() <= hay.len(),
            k <= needle@.len(),
            forall|j: int| 0 <= j < k ==> hay@[start + j] == needle@[j],
        decreases needle@.len() - k,
    {
        if hay[start + k] != needle[k] {
            assert(hay@.subrange(start as int, start + needle@.len())[k as int] != needle@[k as int]);
            return false;
        }
        k = k + 1;
    }
    assert(hay@.subrange(start as int, start + needle@.len()) =~= needle@);
    true
}

/// Whether `needle` occurs anywhere in `hay`.
pub fn chars_contain(hay: &[char], needle: &[char]) -> (found: bool)
    ensures
        found == contains_spec(hay@, needle@),
{
    if needle.len() == 0 {
        assert(hay@.subrange(0, 0) =~= needle@);
        assert(occurs_at(hay@, needle@, 0));
        return true;
    }
    let mut start: usize = 0;
    while start < hay.len() && needle.len() <= hay.len() - start
        invariant
            needle@.len() >= 1,
            start <= hay.len(),
            forall|s: int| 0 <= s < start ==> !occurs_at(hay@, needle@, s),
        decreases hay@.len() - start,
    {
        if chars_occur_at(hay, needle, start) {
            return true;
        }
        start = start + 1;
    }
    assert forall|s: int| !occurs_at(hay@, needle@, s) by {
        if 0 <= s && s < start {
        }
    }
    false
}

/// Whether the string `hay` contains the string `needle`.
pub fn str_contains(hay: &str, needle: &str) -> (found: bool)
    ensures
        found == contains_spec(hay@, needle@),
{
    let h = chars_of(hay);
    let n = chars_of(needle);
    chars_contain(h.as_slice(), n.as_slice())
}

/// The decimal digit for a value below ten.
pub open spec fn digit_char(d: nat) -> char {
    if d == 0 {
        '0'
    } else if d == 1 {
        '1'
    } else if d == 2 {
        '2'
    } else if d == 3 {
        '3'
    } else if d == 4 {
        '4'
    } else if d == 5 {
        '5'
    } else if d == 6 {
        '6'
    } else if d == 7 {
        '7'
    } else if d == 8 {
        '8'
    } else {
        '9'
    }
}

/// The decimal representation of a natural number, without leading zeros.
pub open spec fn decimal_spec(n: nat) -> Seq<char>
    decreases n,
{
    if n < 10 {
        seq![digit_char(n)]
    } else {
        decimal_spec(n / 10).push(digit_char(n % 10))
    }
}

fn digit_to_char(d: u64) -> (c: char)
    requires
        d < 10,
    ensures
        c == digit_char(d as nat),
{
    if d == 0 {
        '0'
    } else if d == 1 {
        '1'
    } else if d == 2 {
        '2'
    } else if d == 3 {
        '3'
    } else if d == 4 {
        '4'
    } else if d == 5 {
        '5'
    } else if d == 6 {
        '6'
    } else if d == 7 {
        '7'
    } else if d == 8 {
        '8'
    } else {
        '9'
    }
}

/// The decimal digits of `n` as characters.
pub fn decimal_chars(n: u64) -> (digits: Vec<char>)
    ensures
        digits@ == decimal_spec(n as nat),
    decreases n,
{
    if n < 10 {
        let mut v = Vec::new();
        v.push(digit_to_char(n));
        v
    } else {
        let mut v = decimal_chars(n / 10);
        v.push(digit_to_char(n % 10));
        v
    }
}

/// Appends the decimal digits of `n` to a string.
pub fn push_decimal(s: &mut String, n: u64)
    ensures
        final(s)@ == old(s)@ + decimal_spec(n as nat),
{
    let digits = decimal_chars(n);
    push_chars(s, digits.as_slice());
}

/// The decimal representation of `n` as a string.
pub fn decimal_string(n: u64) -> (s: String)
    ensures
        s@ == decimal_spec(n as nat),
{
    let digits = decimal_chars(n);
    string_from_chars(digits.as_slice())
}

/// Unicode `White_Space` characters, which `str::trim` removes.
pub open spec fn is_whitespace_spec(c: char) -> bool {
    ||| ('\u{9}' <= c && c <= '\u{d}')
    ||| c == ' '
    ||| c == '\u{85}'
    ||| c == '\u{a0}'
    ||| c == '\u{1680}'
    ||| ('\u{2000}' <= c && c <= '\u{200a}')
    ||| c == '\u{2028}'
    ||| c == '\u{2029}'
    ||| c == '\u{202f}'
    ||| c == '\u{205f}'
    ||| c == '\u{3000}'
}

pub fn is_whitespace(c: char) -> (w: bool)
    ensures
        w == is_whitespace_spec(c),
{
    ('\u{9}' <= c && c <= '\u{d}') || c == ' ' || c == '\u{85}' || c == '\u{a0}' || c
        == '\u{1680}' || ('\u{2000}' <= c && c <= '\u{200a}') || c == '\u{2028}' || c
        == '\u{2029}' || c == '\u{202f}' || c == '\u{205f}' || c == '\u{3000}'
}

/// Whether every character of the text is whitespace, i.e. the text is empty once trimmed.
pub open spec fn is_blank_spec(s: Seq<char>) -> bool {
    forall|i: int| 0 <= i < s.len() ==> is_whitespace_spec(#[trigger] s[i])
}

/// Whether a string is empty once trimmed.
pub fn is_blank(s: &str) -> (blank: bool)
    ensures
        blank == is_blank_spec(s@),
{
    let chars = chars_of(s);
    let mut i: usize = 0;
    while i < chars.len()
        invariant
            chars@ == s@,
            i <= chars@.len(),
            forall|j: int| 0 <= j < i ==> is_whitespace_spec(#[trigger] chars@[j]),
        decreases chars@.len() - i,
    {
        if !is_whitespace(chars[i]) {
            return false;
        }
        i = i + 1;
    }
    true
}

/// The UTF-8 encoding of a character sequence (the bytes of a string holding it).
pub open spec fn utf8_bytes(chars: Seq<char>) -> Seq<u8> {
    vstd::utf8::encode_utf8(chars)
}

/// The number of terminal columns a text takes, as `unicode-width` measures it.
pub uninterp spec fn display_width_spec(text: Seq<char>) -> nat;

/// The display width of a string (`unicode_width::UnicodeWidthStr::width`). Claimed: a
/// function of the text alone; its value is not stated.
#[verifier::external_body]
pub(crate) fn display_width(text: &str) -> (width: usize)
    ensures
        width as nat == display_width_spec(text@),
{
    unicode_width::UnicodeWidthStr::width(text)
}

/// The number of UTF-8 bytes of a character.
pub open spec fn char_utf8_len(c: char) -> nat {
    if (c as u32) <= 0x7F {
        1
    } else if (c as u32) <= 0x7FF {
        2
    } else if (c as u32) <= 0xFFFF {
        3
    } else {
        4
    }
}

/// The UTF-8 encoding of a concatenation is the concatenation of the encodings.
pub proof fn lemma_utf8_bytes_concat(a: Seq<char>, b: Seq<char>)
    ensures
        utf8_bytes(a + b) == utf8_bytes(a) + utf8_bytes(b),
    decreases a.len(),
{
    if a.len() == 0 {
        assert(a + b =~= b);
        assert(utf8_bytes(a) =~= Seq::<u8>::empty());
        assert(utf8_bytes(a) + utf8_bytes(b) =~= utf8_bytes(b));
    } else {
        assert((a + b).drop_first() =~= a.drop_first() + b);
        assert((a + b)[0] == a[0]);
        lemma_utf8_bytes_concat(a.drop_first(), b);
        assert(utf8_bytes(a + b) =~= utf8_bytes(a) + utf8_bytes(b));
    }
}

/// A character takes as many UTF-8 bytes as `char_utf8_len` says.
pub proof fn lemma_utf8_bytes_single(c: char)
    ensures
        utf8_bytes(seq![c]).len() == char_utf8_len(c),
{
    vstd::utf8::char_is_scalar(c);
    assert(seq![c].drop_first() =~= Seq::<char>::empty());
    assert(utf8_bytes(Seq::<char>::empty()) =~= Seq::<u8>::empty());
    assert(utf8_bytes(seq![c]) =~= vstd::utf8::encode_scalar(c as u32));
}

/// The number of UTF-8 bytes of a character.
pub fn char_len_utf8(c: char) -> (n: usize)
    ensures
        n == char_utf8_len(c),
{
    let v = c as u32;
    if v <= 0x7F {
        1
    } else if v <= 0x7FF {
        2
    } else if v <= 0xFFFF {
        3
    } else {
        4
    }
}

/// The number of UTF-8 bytes of the first `n` characters (saturating at `usize::MAX`).
pub fn utf8_prefix_len(chars: &[char], n: usize) -> (len: usize)
    requires
        n <= chars@.len(),
    ensures
        utf8_bytes(chars@.take(n as int)).len() <= usize::MAX ==> len == utf8_bytes(
            chars@.take(n as int),
        ).len(),
{
    let mut len: usize = 0;
    let mut i: usize = 0;
    let mut exact = true;
    while i < n
        invariant
            i <= n <= chars@.len(),
            exact ==> len == utf8_bytes(chars@.take(i as int)).len(),
            !exact ==> utf8_bytes(chars@.take(i as int)).len() > usize::MAX,
        decreases n - i,
    {
        proof {
            assert(chars@.take(i + 1) =~= chars@.take(i as int) + seq![chars@[i as int]]);
            lemma_utf8_bytes_concat(chars@.take(i as int), seq![chars@[i as int]]);
            lemma_utf8_bytes_single(chars@[i as int]);
        }
        let w = char_len_utf8(chars[i]);
        if exact && len <= usize::MAX - w {
            len = len + w;
        } else {
            exact = false;
            len = usize::MAX;
        }
        i = i + 1;
    }
    len
}

/// The characters of `chars` from position `start` up to `end`.
pub fn chars_between(chars: &[char], start: usize, end: usize) -> (out: Vec<char>)
    requires
        start <= end <= chars@.len(),
    ensures
        out@ == chars@.subrange(start as int, end as int),
{
    let mut out: Vec<char> = Vec::new();
    let mut i: usize = start;
    while i < end
        invariant
            start <= i <= end <= chars@.len(),
            out@ == chars@.subrange(start as int, i as int),
        decreases end - i,
    {
        out.push(chars[i]);
        assert(chars@.subrange(start as int, i + 1) == chars@.subrange(start as int, i as int).push(
            chars@[i as int],
        ));
        i = i + 1;
    }
    out
}

/// `chars` with the characters from `start` up to `end` replaced by `text`.
pub fn splice_chars(chars: &[char], start: usize, end: usize, text: &[char]) -> (out: Vec<char>)
    requires
        start <= end <= chars@.len(),
    ensures
        out@ == chars@.take(start as int) + text@ + chars@.skip(end as int),
{
    let mut out = chars_between(chars, 0, start);
    let mut middle = chars_between(text, 0, text.len());
    let mut tail = chars_between(chars, end, chars.len());
    out.append(&mut middle);
    out.append(&mut tail);
    assert(text@.subrange(0, text@.len() as int) == text@);
    out
}

/// The text without its leading whitespace.
pub open spec fn trim_start_spec(s: Seq<char>) -> Seq<char>
    decreases s.len(),
{
    if s.len() > 0 && is_whitespace_spec(s[0]) {
        trim_start_spec(s.drop_first())
    } else {
        s
    }
}

/// The text without its trailing whitespace.
pub open spec fn trim_end_spec(s: Seq<char>) -> Seq<char>
    decreases s.len(),
{
    if s.len() > 0 && is_whitespace_spec(s.last()) {
        trim_end_spec(s.drop_last())
    } else {
        s
    }
}

/// The text without leading and trailing whitespace (`str::trim`).
pub open spec fn trim_spec(s: Seq<char>) -> Seq<char> {
    trim_end_spec(trim_start_spec(s))
}

/// The characters without leading and trailing whitespace.
pub fn trim_chars(chars: &[char]) -> (out: Vec<char>)
    ensures
        out@ == trim_spec(chars@),
{
    let n = chars.len();
    let mut a: usize = 0;
    assert(chars@.subrange(0, n as int) == chars@);
    while a < n && is_whitespace(chars[a])
        invariant
            a <= n == chars@.len(),
            trim_start_spec(chars@.subrange(a as int, n as int)) == trim_start_spec(chars@),
        decreases n - a,
    {
        assert(chars@.subrange(a as int, n as int).drop_first() == chars@.subrange(a + 1, n as int));
        a = a + 1;
    }
    assert(trim_start_spec(chars@.subrange(a as int, n as int)) == chars@.subrange(a as int, n as int));
    let mut b: usize = n;
    while b > a && is_whitespace(chars[b - 1])
        invariant
            a <= b <= n == chars@.len(),
            trim_end_spec(chars@.subrange(a as int, b as int)) == trim_end_spec(
                chars@.subrange(a as int, n as int),
            ),
        decreases b - a,
    {
        assert(chars@.subrange(a as int, b as int).drop_last() == chars@.subrange(a as int, b - 1));
        b = b - 1;
    }
    assert(trim_end_spec(chars@.subrange(a as int, b as int)) == chars@.subrange(a as int, b as int));
    chars_between(chars, a, b)
}

/// Whether two strings hold the same characters.
pub fn str_eq(a: &str, b: &str) -> (same: bool)
    ensures
        same == (a@ == b@),
{
    let x = chars_of(a);
    let y = chars_of(b);
    if x.len() != y.len() {
        return false;
    }
    let mut i: usize = 0;
    while i < x.len()
        invariant
            x@ == a@,
            y@ == b@,
            x@.len() == y@.len(),
            i <= x@.len(),
            forall|j: int| 0 <= j < i ==> x@[j] == y@[j],
        decreases x@.len() - i,
    {
        if x[i] != y[i] {
            return false;
        }
        i = i + 1;
    }
    assert(x@ =~= y@);
    true
}

} // verus!
