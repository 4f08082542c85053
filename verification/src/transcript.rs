//! Transcript window reader: the complete lines of an append-only transcript
//! log that follow a byte offset.

use crate::error::{Failure, FailureKind};
use crate::text::{chars_of, string_of, utf8_text};
use vstd::prelude::*;
use vstd::slice::*;
use vstd::string::*;
use vstd::utf8::*;

verus! {

/// The complete lines of `s`: `s` up to and with its last line feed. What
/// follows the last line feed is no complete line and is left out.
pub open spec fn complete_lines(s: Seq<char>) -> Seq<char>
    decreases s.len(),
{
    if s.len() == 0 || s.last() == '\n' {
        s
    } else {
        complete_lines(s.drop_last())
    }
}

/// `s` without the carriage returns that stand directly before a line feed.
pub open spec fn unix_line_ends(s: Seq<char>) -> Seq<char>
    decreases s.len(),
{
    if s.len() == 0 {
        s
    } else if s[0] == '\r' && s.len() >= 2 && s[1] == '\n' {
        seq!['\n'] + unix_line_ends(s.skip(2))
    } else {
        seq![s[0]] + unix_line_ends(s.skip(1))
    }
}

/// The complete lines of `s`, each ended by exactly one line feed: a carriage
/// return directly before a line feed is dropped, and a last line that lacks
/// its line feed is left out.
pub open spec fn window_text(s: Seq<char>) -> Seq<char> {
    unix_line_ends(complete_lines(s))
}

/// Number of line feeds in `s`.
pub open spec fn line_feeds(s: Seq<char>) -> nat
    decreases s.len(),
{
    if s.len() == 0 {
        0
    } else {
        line_feeds(s.drop_last()) + if s.last() == '\n' {
            1nat
        } else {
            0nat
        }
    }
}

/// The bytes of `content` from `position` on; nothing where the position lies
/// at or past the end.
pub open spec fn tail_from(content: Seq<u8>, position: u64) -> Seq<u8> {
    if position >= content.len() {
        Seq::empty()
    } else {
        content.skip(position as int)
    }
}

/// Message of a window that is not valid UTF-8.
pub open spec fn invalid_window_message() -> Seq<char> {
    "Failed to read line: stream did not contain valid UTF-8"@
}

/// The new part of a transcript.
#[derive(Debug, Clone)]
pub struct TranscriptWindow {
    /// The complete lines after the offset, each ended by a line feed.
    pub text: String,
    /// How many lines that is.
    pub lines: usize,
}

proof fn lemma_complete_lines(s: Seq<char>)
    ensures
        complete_lines(s).len() == 0 <==> !s.contains('\n'),
        complete_lines(s).len() <= s.len(),
    decreases s.len(),
{
    if s.len() == 0 {
    } else if s.last() == '\n' {
        assert(s[s.len() - 1] == '\n');
    } else {
        let front = s.drop_last();
        lemma_complete_lines(front);
        if s.contains('\n') {
            let i = choose|i: int| 0 <= i < s.len() && s[i] == '\n';
            assert(front[i] == '\n');
        }
        if front.contains('\n') {
            let i = choose|i: int| 0 <= i < front.len() && front[i] == '\n';
            assert(s[i] == '\n');
        }
    }
}

/// A window holds no line at all exactly when its source holds no line feed.
pub proof fn window_is_empty_without_line_feed(s: Seq<char>)
    ensures
        window_text(s).len() == 0 <==> !s.contains('\n'),
{
    lemma_complete_lines(s);
    let part = complete_lines(s);
    if part.len() > 0 {
        if part[0] == '\r' && part.len() >= 2 && part[1] == '\n' {
        } else {
        }
    }
}

proof fn lemma_line_feeds_push(s: Seq<char>, c: char)
    ensures
        line_feeds(s.push(c)) == line_feeds(s) + if c == '\n' {
            1nat
        } else {
            0nat
        },
{
    assert(s.push(c).drop_last() == s);
}

/// Takes the complete lines of `source`, normalises their ends and counts
/// them.
fn window_of_chars(source: &Vec<char>) -> (w: (Vec<char>, usize))
    ensures
        w.0@ == window_text(source@),
        w.1 == line_feeds(w.0@),
{
    let n = source.len();
    let mut end: usize = n;
    assert(source@.take(n as int) == source@);
    while end > 0 && source[end - 1] != '\n'
        invariant
            n == source@.len(),
            end <= n,
            complete_lines(source@.take(end as int)) == complete_lines(source@),
        decreases end,
    {
        proof {
            let upto = source@.take(end as int);
            assert(upto.last() == source@[end - 1]);
            assert(upto.drop_last() == source@.take(end - 1));
        }
        end = end - 1;
    }
    let ghost part = source@.take(end as int);
    proof {
        if end > 0 {
            assert(part.last() == source@[end - 1]);
        }
        assert(complete_lines(part) == part);
        assert(part.skip(0) == part);
    }
    let mut out: Vec<char> = Vec::new();
    let mut lines: usize = 0;
    let mut i: usize = 0;
    while i < end
        invariant
            n == source@.len(),
            end <= n,
            i <= end,
            part == source@.take(end as int),
            out@ + unix_line_ends(part.skip(i as int)) == unix_line_ends(part),
            lines == line_feeds(out@),
            lines <= i,
        decreases end - i,
    {
        let ghost rest = part.skip(i as int);
        let ghost before = out@;
        assert(rest.len() == end - i);
        assert(rest[0] == source@[i as int]);
        let c = source[i];
        if c == '\r' && i + 1 < end && source[i + 1] == '\n' {
            out.push('\n');
            proof {
                assert(rest[1] == source@[i + 1]);
                lemma_line_feeds_push(before, '\n');
                assert(rest.skip(2) == part.skip(i + 2));
                assert(before.push('\n') + unix_line_ends(rest.skip(2)) == before + (seq!['\n']
                    + unix_line_ends(rest.skip(2))));
            }
            lines = lines + 1;
            i = i + 2;
        } else {
            out.push(c);
            proof {
                if c == '\r' && i + 1 < end {
                    assert(rest[1] == source@[i + 1]);
                }
                lemma_line_feeds_push(before, c);
                assert(rest.skip(1) == part.skip(i + 1));
                assert(before.push(c) + unix_line_ends(rest.skip(1)) == before + (seq![c]
                    + unix_line_ends(rest.skip(1))));
            }
            if c == '\n' {
                lines = lines + 1;
            }
            i = i + 1;
        }
    }
    proof {
        assert(part.skip(end as int).len() == 0);
        assert(out@ + Seq::<char>::empty() == out@);
    }
    (out, lines)
}

/// What `read_transcript_since_position` returns for a transcript that holds
/// `content`, read from `position`.
pub open spec fn window_spec(content: Seq<u8>, position: u64) -> Option<Seq<char>> {
    let tail = tail_from(content, position);
    if valid_utf8(tail) {
        Some(window_text(decode_utf8(tail)))
    } else {
        None
    }
}

/// Reads the transcript from a byte position: every complete line from there
/// to the end as one text, with the number of lines. What follows the last
/// line feed is not yet a line and is left out.
///
/// A position at or past the end gives an empty window. Bytes that are not
/// valid UTF-8 are an I/O failure.
pub fn read_transcript_since_position(content: &[u8], position: u64) -> (r: Result<
    TranscriptWindow,
    Failure,
>)
    ensures
        match r {
            Ok(w) => window_spec(content@, position) == Some(w.text@) && w.lines == line_feeds(
                w.text@,
            ),
            Err(f) => window_spec(content@, position) is None && f.kind == FailureKind::Io
                && f.message@ == invalid_window_message(),
        },
{
    let n = content.len();
    let tail: &[u8] = if position >= n as u64 {
        slice_subrange(content, n, n)
    } else {
        slice_subrange(content, position as usize, n)
    };
    assert(tail@ == tail_from(content@, position));
    match utf8_text(tail) {
        Some(text) => {
            proof {
                encode_utf8_decode_utf8(text@);
            }
            let chars = chars_of(text);
            let (out, lines) = window_of_chars(&chars);
            Ok(TranscriptWindow { text: string_of(&out), lines })
        },
        None => Err(
            Failure {
                kind: FailureKind::Io,
                message: String::from_str(
                    "Failed to read line: stream did not contain valid UTF-8",
                ),
            },
        ),
    }
}

} // verus!
