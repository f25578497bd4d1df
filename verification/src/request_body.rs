use vstd::prelude::*;

use crate::discord::MessageAttachmentUpload;
use crate::text::{chars_of, decimal_spec, push_chars, push_decimal, push_str};

verus! {

/// A lower-case hexadecimal digit.
pub open spec fn hex_lower(n: nat) -> char {
    if n < 10 {
        (('0' as u32) + n) as char
    } else {
        (('a' as u32) + (n - 10)) as char
    }
}

/// One character inside a JSON string: quote and backslash escaped, the control characters
/// with their short escapes where JSON has one and as `\u00XX` otherwise, anything else as
/// it is.
pub open spec fn json_escape_char(c: char) -> Seq<char> {
    if c == '"' {
        seq!['\\', '"']
    } else if c == '\\' {
        seq!['\\', '\\']
    } else if c == '\n' {
        seq!['\\', 'n']
    } else if c == '\r' {
        seq!['\\', 'r']
    } else if c == '\t' {
        seq!['\\', 't']
    } else if (c as u32) == 8 {
        seq!['\\', 'b']
    } else if (c as u32) == 12 {
        seq!['\\', 'f']
    } else if (c as u32) < 32 {
        seq!['\\', 'u', '0', '0', hex_lower(((c as u32) / 16) as nat), hex_lower(((c as u32) % 16) as nat)]
    } else {
        seq![c]
    }
}

/// The characters of a text, each escaped for a JSON string.
pub open spec fn json_escape(s: Seq<char>) -> Seq<char>
    decreases s.len(),
{
    if s.len() == 0 {
        Seq::empty()
    } else {
        json_escape(s.drop_last()) + json_escape_char(s.last())
    }
}

/// A text as a JSON string literal.
pub open spec fn json_string(s: Seq<char>) -> Seq<char> {
    seq!['"'] + json_escape(s) + seq!['"']
}

/// One entry of the `attachments` array: its position as `id` and its file name.
pub open spec fn attachment_entry(index: nat, filename: Seq<char>) -> Seq<char> {
    "{\"id\":"@ + decimal_spec(index) + ",\"filename\":"@ + json_string(filename) + "}"@
}

/// The entries of the `attachments` array for the first `n` uploads, comma-separated.
pub open spec fn attachment_entries(uploads: Seq<MessageAttachmentUpload>, n: nat) -> Seq<char>
    decreases n,
{
    if n == 0 {
        Seq::empty()
    } else if n == 1 {
        attachment_entry(0, uploads[0].filename@)
    } else {
        attachment_entries(uploads, (n - 1) as nat) + ","@ + attachment_entry(
            (n - 1) as nat,
            uploads[n - 1].filename@,
        )
    }
}

/// The JSON body of a new message: its `content`; the message it answers under
/// `message_reference.message_id` (as a string); and, with files, an `attachments` array
/// that numbers them in order with their names.
pub open spec fn message_request_body_spec(
    content: Seq<char>,
    reply_to: Option<u64>,
    uploads: Seq<MessageAttachmentUpload>,
) -> Seq<char> {
    let reference = match reply_to {
        Some(id) => ",\"message_reference\":{\"message_id\":\""@ + decimal_spec(id as nat) + "\"}"@,
        None => Seq::empty(),
    };
    let files = if uploads.len() == 0 {
        Seq::empty()
    } else {
        ",\"attachments\":["@ + attachment_entries(uploads, uploads.len()) + "]"@
    };
    "{\"content\":"@ + json_string(content) + reference + files + "}"@
}

fn hex_lower_digit(n: u32) -> (c: char)
    requires
        n < 16,
    ensures
        c == hex_lower(n as nat),
{
    let chars = ['0', '1', '2', '3', '4', '5', '6', '7', '8', '9', 'a', 'b', 'c', 'd', 'e', 'f'];
    assert(chars@[n as int] == hex_lower(n as nat));
    chars[n as usize]
}

fn push_json_escaped_char(out: &mut Vec<char>, c: char)
    ensures
        final(out)@ == old(out)@ + json_escape_char(c),
{
    let code: u32 = c as u32;
    if c == '"' {
        out.push('\\');
        out.push('"');
    } else if c == '\\' {
        out.push('\\');
        out.push('\\');
    } else if c == '\n' {
        out.push('\\');
        out.push('n');
    } else if c == '\r' {
        out.push('\\');
        out.push('r');
    } else if c == '\t' {
        out.push('\\');
        out.push('t');
    } else if code == 8 {
        out.push('\\');
        out.push('b');
    } else if code == 12 {
        out.push('\\');
        out.push('f');
    } else if code < 32 {
        out.push('\\');
        out.push('u');
        out.push('0');
        out.push('0');
        out.push(hex_lower_digit(code / 16));
        out.push(hex_lower_digit(code % 16));
    } else {
        out.push(c);
    }
    assert(final(out)@ =~= old(out)@ + json_escape_char(c));
}

/// Appends a text as a JSON string literal.
fn push_json_string(out: &mut String, s: &str)
    ensures
        final(out)@ == old(out)@ + json_string(s@),
{
    let chars = chars_of(s);
    let mut escaped: Vec<char> = Vec::new();
    escaped.push('"');
    let mut i: usize = 0;
    while i < chars.len()
        invariant
            i <= chars@.len(),
            escaped@ == seq!['"'] + json_escape(chars@.take(i as int)),
        decreases chars@.len() - i,
    {
        assert(chars@.take(i + 1).drop_last() =~= chars@.take(i as int));
        push_json_escaped_char(&mut escaped, chars[i]);
        assert(escaped@ =~= seq!['"'] + json_escape(chars@.take(i + 1)));
        i = i + 1;
    }
    assert(chars@.take(i as int) =~= chars@);
    escaped.push('"');
    assert(escaped@ =~= json_string(s@));
    push_chars(out, escaped.as_slice());
}

/// The JSON body of a new message (`message_request_body_spec`).
pub fn message_request_body(content: &str, reply_to: Option<u64>, attachments: &[MessageAttachmentUpload]) -> (body:
    String)
    ensures
        body@ == message_request_body_spec(content@, reply_to, attachments@),
{
    let mut body = String::new();
    push_str(&mut body, "{\"content\":");
    push_json_string(&mut body, content);
    let ghost head = body@;
    match reply_to {
        Some(id) => {
            push_str(&mut body, ",\"message_reference\":{\"message_id\":\"");
            push_decimal(&mut body, id);
            push_str(&mut body, "\"}");
        },
        None => {},
    }
    let ghost with_reference = body@;
    if attachments.len() > 0 {
        push_str(&mut body, ",\"attachments\":[");
        let ghost open = body@;
        let mut i: usize = 0;
        while i < attachments.len()
            invariant
                i <= attachments@.len(),
                body@ == open + attachment_entries(attachments@, i as nat),
            decreases attachments@.len() - i,
        {
            let ghost before = body@;
            if i > 0 {
                push_str(&mut body, ",");
            }
            push_str(&mut body, "{\"id\":");
            push_decimal(&mut body, i as u64);
            push_str(&mut body, ",\"filename\":");
            push_json_string(&mut body, attachments[i].filename.as_str());
            push_str(&mut body, "}");
            proof {
                if i == 0 {
                    assert(body@ =~= open + attachment_entries(attachments@, 1));
                } else {
                    assert(body@ =~= open + attachment_entries(attachments@, (i + 1) as nat));
                }
            }
            i = i + 1;
        }
        push_str(&mut body, "]");
    }
    push_str(&mut body, "}");
    assert(body@ =~= message_request_body_spec(content@, reply_to, attachments@));
    body
}

/// The value of a hexadecimal digit (either case).
pub open spec fn hex_digit_value(c: char) -> int {
    if '0' <= c && c <= '9' {
        (c as u32) - ('0' as u32)
    } else if 'A' <= c && c <= 'F' {
        (c as u32) - ('A' as u32) + 10
    } else {
        (c as u32) - ('a' as u32) + 10
    }
}

/// The character a two-character escape stands for.
pub open spec fn short_escape_value(e: char) -> char {
    if e == 'n' {
        '\n'
    } else if e == 'r' {
        '\r'
    } else if e == 't' {
        '\t'
    } else if e == 'b' {
        8u32 as char
    } else if e == 'f' {
        12u32 as char
    } else {
        e
    }
}

/// Reads the inside of a JSON string back into text: `\u` and four hex digits, a backslash
/// and one character, or one plain character at a time.
pub open spec fn json_unescape(s: Seq<char>) -> Seq<char>
    decreases s.len(),
{
    if s.len() == 0 {
        Seq::empty()
    } else if s[0] == '\\' && s.len() >= 6 && s[1] == 'u' {
        seq![
            ((hex_digit_value(s[2]) * 4096 + hex_digit_value(s[3]) * 256 + hex_digit_value(s[4]) * 16
                + hex_digit_value(s[5])) as u32) as char,
        ] + json_unescape(s.skip(6))
    } else if s[0] == '\\' && s.len() >= 2 {
        seq![short_escape_value(s[1])] + json_unescape(s.skip(2))
    } else {
        seq![s[0]] + json_unescape(s.drop_first())
    }
}

proof fn lemma_hex_lower_value(n: nat)
    requires
        n < 16,
    ensures
        hex_digit_value(hex_lower(n)) == n,
{
}

proof fn lemma_unescape_char(c: char, rest: Seq<char>)
    ensures
        json_unescape(json_escape_char(c) + rest) == seq![c] + json_unescape(rest),
{
    let e = json_escape_char(c);
    let s = e + rest;
    let code = c as u32;
    if c == '"' || c == '\\' || c == '\n' || c == '\r' || c == '\t' || code == 8 || code == 12 {
        assert(s.skip(2) =~= rest);
        if code == 8 {
            vstd::utf8::char_u32_cast(c, 8);
        }
        if code == 12 {
            vstd::utf8::char_u32_cast(c, 12);
        }
    } else if code < 32 {
        lemma_hex_lower_value((code / 16) as nat);
        lemma_hex_lower_value((code % 16) as nat);
        assert(s.skip(6) =~= rest);
        assert(hex_digit_value(s[2]) == 0);
        assert(hex_digit_value(s[3]) == 0);
        assert(hex_digit_value(s[4]) * 16 + hex_digit_value(s[5]) == code);
        vstd::utf8::char_u32_cast(c, code);
    } else {
        assert(s.drop_first() =~= rest);
    }
}

proof fn lemma_unescape_prefix(t: Seq<char>, rest: Seq<char>)
    ensures
        json_unescape(json_escape(t) + rest) == t + json_unescape(rest),
    decreases t.len(),
{
    if t.len() == 0 {
        assert(json_escape(t) + rest =~= rest);
        assert(t + json_unescape(rest) =~= json_unescape(rest));
    } else {
        let c = t.last();
        lemma_unescape_char(c, rest);
        lemma_unescape_prefix(t.drop_last(), json_escape_char(c) + rest);
        assert(json_escape(t) + rest =~= json_escape(t.drop_last()) + (json_escape_char(c) + rest));
        assert(t =~= t.drop_last() + seq![c]);
        assert(t.drop_last() + (seq![c] + json_unescape(rest)) =~= t + json_unescape(rest));
    }
}

/// Escaping loses nothing: reading an escaped text back gives the text.
pub proof fn lemma_json_escape_round_trips(t: Seq<char>)
    ensures
        json_unescape(json_escape(t)) == t,
{
    lemma_unescape_prefix(t, Seq::empty());
    assert(json_escape(t) + Seq::<char>::empty() =~= json_escape(t));
    assert(t + Seq::<char>::empty() =~= t);
}

} // verus!
