//! Log lines on their way to the one observer: how the bytes a writer hands
//! over become a line, when a line is passed on and when it is dropped, and
//! how the observer keeps what it was sent.

use vstd::prelude::*;
use vstd::string::StringExecFns;
use vstd::utf8::{decode_utf8, valid_utf8};

use crate::text::{lemma_stripped_is_range, optional_text, stripped};

verus! {

/// The bytes that count as blank at the ends of a line: space, tab, line
/// feed, form feed and carriage return.
pub open spec fn is_ascii_blank(b: u8) -> bool {
    b == 0x20 || b == 0x09 || b == 0x0a || b == 0x0c || b == 0x0d
}

/// The kind of the blank bytes.
pub open spec fn ascii_blank() -> spec_fn(u8) -> bool {
    |b: u8| is_ascii_blank(b)
}

/// `bytes` without the blank bytes at its start and at its end.
pub open spec fn trimmed_ascii(bytes: Seq<u8>) -> Seq<u8> {
    stripped(bytes, ascii_blank())
}

/// The line that `bytes` hold: the text of what is left once the blanks at both
/// ends are taken away, where that is UTF-8; else none.
pub open spec fn line_of(bytes: Seq<u8>) -> Option<Seq<char>> {
    if valid_utf8(trimmed_ascii(bytes)) {
        Some(decode_utf8(trimmed_ascii(bytes)))
    } else {
        None
    }
}

/// Whether `b` is blank.
pub fn is_ascii_blank_byte(b: u8) -> (blank: bool)
    ensures
        blank == is_ascii_blank(b),
{
    b == 0x20 || b == 0x09 || b == 0x0a || b == 0x0c || b == 0x0d
}

/// `bytes` without the blank bytes at its start and at its end.
pub fn trim_ascii(bytes: &[u8]) -> (kept: Vec<u8>)
    ensures
        kept@ == trimmed_ascii(bytes@),
{
    let mut start: usize = 0;
    while start < bytes.len() && is_ascii_blank_byte(bytes[start])
        invariant
            start <= bytes.len(),
            forall|j: int| 0 <= j < start ==> is_ascii_blank(#[trigger] bytes@[j]),
        decreases bytes.len() - start,
    {
        start = start + 1;
    }
    let mut end: usize = bytes.len();
    while end > start && is_ascii_blank_byte(bytes[end - 1])
        invariant
            start <= end <= bytes.len(),
            forall|j: int| end <= j < bytes.len() ==> is_ascii_blank(#[trigger] bytes@[j]),
        decreases end,
    {
        end = end - 1;
    }
    proof {
        lemma_stripped_is_range(bytes@, ascii_blank(), start as int, end as int);
    }
    let mut kept: Vec<u8> = Vec::new();
    let mut i: usize = start;
    while i < end
        invariant
            start <= i <= end <= bytes.len(),
            kept@ == bytes@.subrange(start as int, i as int),
        decreases end - i,
    {
        kept.push(bytes[i]);
        assert(kept@ =~= bytes@.subrange(start as int, i + 1));
        i = i + 1;
    }
    kept
}

/// `String::from_utf8`, with its error dropped: the text that `bytes` encode
/// where they are UTF-8, and nothing where they are not.
#[verifier::external_body]
fn text_from_utf8(bytes: Vec<u8>) -> (text: Option<String>)
    ensures
        text is Some <==> valid_utf8(bytes@),
        text matches Some(t) ==> t@ == decode_utf8(bytes@),
{
    String::from_utf8(bytes).ok()
}

/// The line to pass on for the bytes a log writer was handed: the bytes
/// without the blanks at both ends, as text. Bytes that are not UTF-8 give no
/// line.
pub fn log_line(bytes: &[u8]) -> (line: Option<String>)
    ensures
        optional_text(line) == line_of(bytes@),
{
    text_from_utf8(trim_ascii(bytes))
}

/// The bridge to the one observer of the log. It holds no lines: what is
/// emitted while no observer is attached is gone.
#[derive(Debug, Clone, Copy, PartialEq, Eq, Structural)]
pub struct LogBridge {
    pub attached: bool,
}

impl LogBridge {
    /// A bridge without an observer.
    pub fn new() -> (bridge: LogBridge)
        ensures
            !bridge.attached,
    {
        LogBridge { attached: false }
    }

    /// Attaches the observer.
    pub fn attach(&mut self)
        ensures
            final(self).attached,
    {
        self.attached = true;
    }

    /// Detaches the observer.
    pub fn detach(&mut self)
        ensures
            !final(self).attached,
    {
        self.attached = false;
    }

    /// Emits `line`: it is handed back for the observer, once, where one is
    /// attached, and dropped where none is.
    pub fn emit(&self, line: String) -> (forwarded: Option<String>)
        ensures
            forwarded == if self.attached {
                Some(line)
            } else {
                None::<String>
            },
    {
        if self.attached {
            Some(line)
        } else {
            None
        }
    }
}

/// Appends `line` and a line feed to the text the observer keeps.
pub fn append_line(log: &mut String, line: &str)
    ensures
        final(log)@ == old(log)@ + line@ + "\n"@,
{
    log.append(line);
    log.append("\n");
}

} // verus!
