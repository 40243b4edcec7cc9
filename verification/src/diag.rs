//! The diagnostic layer: every fallible platform call is made
//! self-reporting.
//!
//! A call hands back a payload and a status code.  On success the layer is
//! silent and the payload passes through untouched.  On failure it renders
//! exactly one log line: the call site, a failure glyph, the status code as
//! eight upper-case hexadecimal digits, and the platform's resolved message
//! (capped in length, stripped of trailing NUL padding and whitespace).
//! The layer never aborts and never converts a failure into an error value:
//! the caller decides what a failure means for its own logic.

use vstd::prelude::*;

use crate::render::{hex8_string, spec_hex8};
use crate::status::{is_success, succeeded};

verus! {

/// Longest resolved message kept in a log line; the rest is truncated.
pub const MESSAGE_CAP: usize = 1024;

/// Characters stripped from the end of a resolved message: NUL padding and
/// the trailing whitespace the platform's message table may append.
pub open spec fn is_message_pad(c: char) -> bool {
    c == '\0' || c == ' ' || c == '\t' || c == '\r' || c == '\n'
}

/// `s` with every trailing pad character removed.
pub open spec fn spec_trim_trailing(s: Seq<char>) -> Seq<char>
    decreases s.len(),
{
    if s.len() > 0 && is_message_pad(s[s.len() - 1]) {
        spec_trim_trailing(s.drop_last())
    } else {
        s
    }
}

/// A resolved message as it appears in a log line: capped at
/// `MESSAGE_CAP` characters, then stripped of trailing padding.
pub open spec fn spec_trim_message(msg: Seq<char>) -> Seq<char> {
    if msg.len() > MESSAGE_CAP {
        spec_trim_trailing(msg.take(MESSAGE_CAP as int))
    } else {
        spec_trim_trailing(msg)
    }
}

/// The glyph that opens the rendered status: one for success, one for
/// failure.
pub open spec fn spec_glyph(status: u32) -> Seq<char> {
    if is_success(status) {
        "+"@
    } else {
        "!"@
    }
}

/// The rendered form of a status code plus its resolved message:
/// `<glyph> (0x<8 hex digits>)`, followed by a space and the trimmed
/// message when one is present.
pub open spec fn spec_hr_text(status: u32, msg: Seq<char>) -> Seq<char> {
    let head = spec_glyph(status) + " (0x"@ + spec_hex8(status) + ")"@;
    let m = spec_trim_message(msg);
    if m.len() == 0 {
        head
    } else {
        head + " "@ + m
    }
}

/// A full diagnostic log line: `<call site>: <rendered status>`.
pub open spec fn spec_log_line(site: Seq<char>, status: u32, msg: Seq<char>) -> Seq<char> {
    site + ": "@ + spec_hr_text(status, msg)
}

fn is_message_pad_char(c: char) -> (r: bool)
    ensures
        r == is_message_pad(c),
{
    c == '\0' || c == ' ' || c == '\t' || c == '\r' || c == '\n'
}

/// The trimmed form of a resolved message, as `spec_trim_message` states
/// it.
pub fn trim_message(msg: &str) -> (r: String)
    ensures
        r@ == spec_trim_message(msg@),
{
    let len = msg.unicode_len();
    let capped: usize = if len > MESSAGE_CAP {
        MESSAGE_CAP
    } else {
        len
    };
    proof {
        assert(msg@.take(capped as int) =~= if msg@.len() > MESSAGE_CAP as int {
            msg@.take(MESSAGE_CAP as int)
        } else {
            msg@
        });
    }
    let mut end: usize = capped;
    while end > 0 && is_message_pad_char(msg.get_char(end - 1))
        invariant
            end <= capped <= msg@.len(),
            spec_trim_trailing(msg@.take(capped as int)) == spec_trim_trailing(
                msg@.take(end as int),
            ),
        decreases end,
    {
        proof {
            assert(msg@.take(end as int).drop_last() =~= msg@.take(end - 1));
        }
        end -= 1;
    }
    let r = msg.substring_char(0, end);
    proof {
        assert(r@ =~= msg@.take(end as int));
        if end > 0 {
            assert(spec_trim_trailing(msg@.take(end as int)) == msg@.take(end as int));
        } else {
            assert(msg@.take(0) =~= Seq::<char>::empty());
        }
    }
    String::from_str(r)
}

/// Renders a status code and its resolved platform message as readable
/// text: a glyph, the code as eight hexadecimal digits, and the message
/// with trailing NUL padding and whitespace removed.
pub fn hr_string(status: u32, message: &str) -> (r: String)
    ensures
        r@ == spec_hr_text(status, message@),
{
    let mut r = String::new();
    if succeeded(status) {
        r.append("+");
    } else {
        r.append("!");
    }
    r.append(" (0x");
    let hex = hex8_string(status);
    r.append(hex.as_str());
    r.append(")");
    let msg = trim_message(message);
    if !msg.as_str().is_empty() {
        r.append(" ");
        r.append(msg.as_str());
    }
    proof {
        assert(r@ =~= spec_hr_text(status, message@));
    }
    r
}

/// Wraps one already-made platform call: the payload, the status code it
/// came with, and the platform's resolved message for that code.  Returns
/// the payload unchanged, plus no log line on success and exactly one log
/// line on failure.
pub fn invoke_checked<T>(call_site: &str, value: T, status: u32, message: &str) -> (r: (
    T,
    Option<String>,
))
    ensures
        r.0 == value,
        is_success(status) ==> r.1 is None,
        !is_success(status) ==> (r.1 matches Some(line) && line@ == spec_log_line(
            call_site@,
            status,
            message@,
        )),
{
    if succeeded(status) {
        (value, None)
    } else {
        let mut line = String::new();
        line.append(call_site);
        line.append(": ");
        let tail = hr_string(status, message);
        line.append(tail.as_str());
        proof {
            assert(line@ =~= spec_log_line(call_site@, status, message@));
        }
        (value, Some(line))
    }
}

/// Law: a failure log line carries the status code as eight upper-case
/// hexadecimal digits, at a fixed offset past the call site text.
pub proof fn lemma_failure_line_contains_status(site: Seq<char>, status: u32, msg: Seq<char>)
    requires
        !is_success(status),
    ensures
        ({
            let line = spec_log_line(site, status, msg);
            let k = site.len() + 7;
            line.len() >= k + 8 && line.subrange(k as int, k + 8 as int) =~= spec_hex8(status)
        }),
{
    reveal_strlit(": ");
    reveal_strlit("!");
    reveal_strlit(" (0x");
    reveal_strlit(")");
    reveal_strlit(" ");
    let line = spec_log_line(site, status, msg);
    let k = site.len() + 7;
    assert(line.subrange(k as int, k + 8 as int) =~= spec_hex8(status));
}

} // verus!
