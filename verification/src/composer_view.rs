use vstd::prelude::*;

use crate::dashboard::DashboardState;
use crate::discord::MessageAttachmentUpload;
use crate::discord_state::MessageState;
use crate::keyed::keys_of;
use crate::text::{chars_of, decimal_chars, decimal_spec, string_from_chars};
use crate::text_layout::{views_of, wrap_chars, wrap_text_spec};

verus! {

/// The lines the composer's input takes behind its `> ` prompt at `width` columns.
pub open spec fn prompt_lines_spec(input: Seq<char>, width: nat) -> Seq<Seq<char>> {
    wrap_text_spec(seq!['>', ' '] + input, width)
}

/// The number of lines the composer's input takes behind its prompt.
pub fn composer_prompt_line_count(text: &str, width: usize) -> (n: usize)
    ensures
        n == prompt_lines_spec(text@, width as nat).len(),
{
    let mut chars: Vec<char> = Vec::new();
    chars.push('>');
    chars.push(' ');
    let mut rest = chars_of(text);
    chars.append(&mut rest);
    assert(chars@ =~= seq!['>', ' '] + text@);
    let lines = wrap_chars(chars.as_slice(), width);
    assert(views_of(lines@).len() == lines@.len());
    lines.len()
}

/// A size in bytes as people read it: bytes below a KiB, else KiB, MiB or GiB with one
/// decimal, rounded half up.
pub open spec fn file_size_spec(bytes: nat) -> Seq<char> {
    if bytes < 1024 {
        decimal_spec(bytes) + " B"@
    } else {
        let (unit, name) = if bytes < 1024 * 1024 {
            (1024nat, " KiB"@)
        } else if bytes < 1024 * 1024 * 1024 {
            (1024 * 1024nat, " MiB"@)
        } else {
            (1024 * 1024 * 1024nat, " GiB"@)
        };
        let tenths = (bytes / unit) * 10 + ((bytes % unit) * 10 + unit / 2) / unit;
        decimal_spec(tenths / 10) + seq!['.'] + decimal_spec(tenths % 10) + name
    }
}

pub fn format_file_size(bytes: u64) -> (text: Vec<char>)
    ensures
        text@ == file_size_spec(bytes as nat),
{
    if bytes < 1024 {
        let mut t = decimal_chars(bytes);
        let mut suffix = chars_of(" B");
        t.append(&mut suffix);
        return t;
    }
    if bytes < 1024 * 1024 {
        scaled_size(bytes, 1024, " KiB")
    } else if bytes < 1024 * 1024 * 1024 {
        scaled_size(bytes, 1024 * 1024, " MiB")
    } else {
        scaled_size(bytes, 1024 * 1024 * 1024, " GiB")
    }
}

fn scaled_size(bytes: u64, unit: u64, name: &str) -> (text: Vec<char>)
    requires
        unit == 1024 || unit == 1024 * 1024 || unit == 1024 * 1024 * 1024,
    ensures
        text@ == ({
            let b = bytes as nat;
            let u = unit as nat;
            let tenths = (b / u) * 10 + ((b % u) * 10 + u / 2) / u;
            decimal_spec(tenths / 10) + seq!['.'] + decimal_spec(tenths % 10) + name@
        }),
{
    let whole = bytes / unit;
    assert(whole <= u64::MAX / 1024) by (nonlinear_arith)
        requires
            whole == bytes / unit,
            unit >= 1024,
    ;
    let rem = bytes % unit;
    assert(rem < unit);
    let part = (rem * 10 + unit / 2) / unit;
    assert(part <= 10) by (nonlinear_arith)
        requires
            part as int == (rem as int * 10 + unit as int / 2) / (unit as int),
            rem < unit,
            unit > 0,
    ;
    let tenths = whole * 10 + part;
    let mut t = decimal_chars(tenths / 10);
    t.push('.');
    let mut frac = decimal_chars(tenths % 10);
    t.append(&mut frac);
    let mut suffix = chars_of(name);
    t.append(&mut suffix);
    t
}

/// The line that stands for a file waiting to be uploaded.
pub open spec fn upload_line_spec(a: MessageAttachmentUpload) -> Seq<char> {
    "upload: "@ + a.filename@ + " ("@ + file_size_spec(a.size_bytes as nat) + ")"@
}

/// The message a reply is for, among the listed messages.
pub open spec fn find_message(ms: Seq<MessageState>, id: u64) -> Option<MessageState>
    decreases ms.len(),
{
    if ms.len() == 0 {
        None
    } else if ms[0].id == id {
        Some(ms[0])
    } else {
        find_message(ms.drop_first(), id)
    }
}

impl DashboardState {
    /// The message the composer answers, when it is listed.
    pub open spec fn reply_target_spec(self) -> Option<MessageState> {
        match self.composer.reply_target_message_id {
            Some(id) => find_message(self.messages_spec(), id),
            None => None,
        }
    }

    /// The composer's lines: a hint naming what it answers, a line per pending upload, then
    /// the input behind its prompt.
    pub open spec fn composer_lines_spec(self, width: nat) -> Seq<Seq<char>> {
        let hint = if self.composer.reply_target_message_id is Some {
            seq![
                "reply to "@ + match self.reply_target_spec() {
                    Some(m) => match m.content {
                        Some(c) => c@,
                        None => Seq::empty(),
                    },
                    None => Seq::empty(),
                },
            ]
        } else {
            Seq::empty()
        };
        hint + self.composer.pending_attachments@.map_values(
            |a: MessageAttachmentUpload| upload_line_spec(a),
        ) + prompt_lines_spec(self.composer.input@, width)
    }

    pub fn reply_target_message_state(&self) -> (m: Option<&MessageState>)
        ensures
            match m {
                Some(x) => self.reply_target_spec() == Some(*x),
                None => self.reply_target_spec() is None,
            },
    {
        let id = match self.composer.reply_target_message_id {
            Some(id) => id,
            None => {
                return None;
            },
        };
        let messages = self.messages();
        let mut k: usize = 0;
        assert(messages@.skip(0) =~= messages@);
        while k < messages.len()
            invariant
                messages@ == self.messages_spec(),
                self.composer.reply_target_message_id == Some(id),
                k <= messages@.len(),
                find_message(messages@.skip(k as int), id) == find_message(messages@, id),
            decreases messages@.len() - k,
        {
            assert(messages@.skip(k as int).drop_first() =~= messages@.skip(k + 1));
            if messages[k].id == id {
                return Some(&messages[k]);
            }
            k = k + 1;
        }
        None
    }

    fn composer_lines_chars(&self, width: usize) -> (lines: Vec<Vec<char>>)
        ensures
            views_of(lines@) == self.composer_lines_spec(width as nat),
    {
        let mut lines: Vec<Vec<char>> = Vec::new();
        if self.composer.reply_target_message_id.is_some() {
            let mut hint = chars_of("reply to ");
            match self.reply_target_message_state() {
                Some(m) => match &m.content {
                    Some(c) => {
                        let mut cc = chars_of(c.as_str());
                        hint.append(&mut cc);
                    },
                    None => {},
                },
                None => {},
            }
            lines.push(hint);
        }
        let ghost head = views_of(lines@);
        let uploads = &self.composer.pending_attachments;
        let mut k: usize = 0;
        while k < uploads.len()
            invariant
                k <= uploads@.len(),
                uploads@ == self.composer.pending_attachments@,
                views_of(lines@) == head + uploads@.take(k as int).map_values(
                    |a: MessageAttachmentUpload| upload_line_spec(a),
                ),
            decreases uploads@.len() - k,
        {
            let mut line = chars_of("upload: ");
            let mut name = chars_of(uploads[k].filename.as_str());
            line.append(&mut name);
            let mut open = chars_of(" (");
            line.append(&mut open);
            let mut size = format_file_size(uploads[k].size_bytes);
            line.append(&mut size);
            let mut close = chars_of(")");
            line.append(&mut close);
            let ghost before = views_of(lines@);
            let ghost lv = line@;
            lines.push(line);
            assert(views_of(lines@) =~= before.push(lv));
            assert(uploads@.take(k + 1).map_values(|a: MessageAttachmentUpload| upload_line_spec(a))
                =~= uploads@.take(k as int).map_values(
                |a: MessageAttachmentUpload| upload_line_spec(a),
            ).push(upload_line_spec(uploads@[k as int])));
            k = k + 1;
        }
        assert(uploads@.take(uploads@.len() as int) =~= uploads@);
        let mut prompt: Vec<char> = Vec::new();
        prompt.push('>');
        prompt.push(' ');
        let mut input = crate::text::chars_between(
            self.composer.input.as_slice(),
            0,
            self.composer.input.len(),
        );
        prompt.append(&mut input);
        assert(prompt@ =~= seq!['>', ' '] + self.composer.input@);
        let mut wrapped = wrap_chars(prompt.as_slice(), width);
        let ghost before = views_of(lines@);
        let ghost added = views_of(wrapped@);
        lines.append(&mut wrapped);
        assert(views_of(lines@) =~= before + added);
        lines
    }

    /// The number of lines the composer takes at `width` columns.
    pub fn composer_content_line_count(&self, width: usize) -> (n: usize)
        ensures
            n == self.composer_lines_spec(width as nat).len(),
    {
        let lines = self.composer_lines_chars(width);
        assert(views_of(lines@).len() == lines@.len());
        lines.len()
    }

    /// The composer's lines joined with newlines.
    pub fn composer_text(&self, width: usize) -> (text: String)
        ensures
            text@ == join_lines(self.composer_lines_spec(width as nat)),
    {
        let lines = self.composer_lines_chars(width);
        let mut out: Vec<char> = Vec::new();
        let mut k: usize = 0;
        while k < lines.len()
            invariant
                k <= lines@.len(),
                out@ == join_lines(views_of(lines@).take(k as int)),
            decreases lines@.len() - k,
        {
            assert(views_of(lines@).take(k + 1).drop_last() =~= views_of(lines@).take(k as int));
            if k > 0 {
                out.push('\n');
            }
            let mut part = crate::text::chars_between(lines[k].as_slice(), 0, lines[k].len());
            assert(part@ =~= lines@[k as int]@);
            out.append(&mut part);
            assert(out@ =~= join_lines(views_of(lines@).take(k + 1)));
            k = k + 1;
        }
        assert(views_of(lines@).take(lines@.len() as int) =~= views_of(lines@));
        string_from_chars(out.as_slice())
    }
}

/// Lines joined with newlines.
pub open spec fn join_lines(lines: Seq<Seq<char>>) -> Seq<char>
    decreases lines.len(),
{
    if lines.len() == 0 {
        Seq::empty()
    } else if lines.len() == 1 {
        lines[0]
    } else {
        join_lines(lines.drop_last()) + seq!['\n'] + lines.last()
    }
}

} // verus!
