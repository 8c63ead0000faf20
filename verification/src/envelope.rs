//! Synthetic JSON-RPC error envelopes.
//!
//! The pump reports a fatal transport failure or a shutdown that preempts a
//! retry wait with a locally generated JSON object:
//! `{"jsonrpc":"2.0","error":{"code":-32603,"message":<text>}}`. The
//! message text is escaped so the envelope is always well-formed JSON.

use vstd::prelude::*;
use vstd::string::StrSliceExecFns;
use vstd::string::StringExecFns;

verus! {

/// The hexadecimal digit for a value below sixteen.
pub open spec fn hex_digit(v: int) -> char {
    if v == 0 { '0' }
    else if v == 1 { '1' }
    else if v == 2 { '2' }
    else if v == 3 { '3' }
    else if v == 4 { '4' }
    else if v == 5 { '5' }
    else if v == 6 { '6' }
    else if v == 7 { '7' }
    else if v == 8 { '8' }
    else if v == 9 { '9' }
    else if v == 10 { 'a' }
    else if v == 11 { 'b' }
    else if v == 12 { 'c' }
    else if v == 13 { 'd' }
    else if v == 14 { 'e' }
    else { 'f' }
}

/// How one character appears inside a JSON string: quote, backslash and
/// the named control characters take a two-character escape, any other
/// control character a `\u00..` escape, and everything else stands as is.
pub open spec fn escape_char(c: char) -> Seq<char> {
    if c == '"' { seq!['\\', '"'] }
    else if c == '\\' { seq!['\\', '\\'] }
    else if c == '\n' { seq!['\\', 'n'] }
    else if c == '\r' { seq!['\\', 'r'] }
    else if c == '\t' { seq!['\\', 't'] }
    else if c == '\u{8}' { seq!['\\', 'b'] }
    else if c == '\u{c}' { seq!['\\', 'f'] }
    else if (c as u32) < 0x20 {
        seq!['\\', 'u', '0', '0', hex_digit(c as u32 as int / 16), hex_digit(c as u32 as int % 16)]
    } else {
        seq![c]
    }
}

/// The JSON-string form of a whole message text.
pub open spec fn escape_spec(s: Seq<char>) -> Seq<char>
    decreases s.len(),
{
    if s.len() == 0 {
        Seq::empty()
    } else {
        escape_spec(s.drop_last()) + escape_char(s.last())
    }
}

/// The synthetic error envelope for a message text.
pub open spec fn envelope_spec(msg: Seq<char>) -> Seq<char> {
    "{\"jsonrpc\":\"2.0\",\"error\":{\"code\":-32603,\"message\":\""@ + escape_spec(msg)
        + "\"}}"@
}

/// Whether a character takes an escape inside a JSON string.
pub open spec fn needs_escape(c: char) -> bool {
    c == '"' || c == '\\' || (c as u32) < 0x20
}

/// Appends the escape for a character that takes one.
fn append_escaped_char(r: &mut String, c: char)
    requires
        needs_escape(c),
    ensures
        final(r)@ == old(r)@ + escape_char(c),
{
    if c == '"' {
        r.append("\\\"");
        proof {
            reveal_strlit("\\\"");
            assert("\\\""@ =~= escape_char(c));
        }
    } else if c == '\\' {
        r.append("\\\\");
        proof {
            reveal_strlit("\\\\");
            assert("\\\\"@ =~= escape_char(c));
        }
    } else if c == '\n' {
        r.append("\\n");
        proof {
            reveal_strlit("\\n");
            assert("\\n"@ =~= escape_char(c));
        }
    } else if c == '\r' {
        r.append("\\r");
        proof {
            reveal_strlit("\\r");
            assert("\\r"@ =~= escape_char(c));
        }
    } else if c == '\t' {
        r.append("\\t");
        proof {
            reveal_strlit("\\t");
            assert("\\t"@ =~= escape_char(c));
        }
    } else if c == '\u{8}' {
        r.append("\\b");
        proof {
            reveal_strlit("\\b");
            assert("\\b"@ =~= escape_char(c));
        }
    } else if c == '\u{c}' {
        r.append("\\f");
        proof {
            reveal_strlit("\\f");
            assert("\\f"@ =~= escape_char(c));
        }
    } else {
        let v = c as u32;
        let hex = "0123456789abcdef";
        proof {
            reveal_strlit("0123456789abcdef");
        }
        let hi = (v / 16) as usize;
        let lo = (v % 16) as usize;
        r.append("\\u00");
        let dh = hex.substring_char(hi, hi + 1);
        r.append(dh);
        let dl = hex.substring_char(lo, lo + 1);
        r.append(dl);
        proof {
            reveal_strlit("\\u00");
            assert(dh@ =~= seq![hex_digit(c as u32 as int / 16)]);
            assert(dl@ =~= seq![hex_digit(c as u32 as int % 16)]);
            assert(old(r)@ + "\\u00"@ + dh@ + dl@ =~= old(r)@ + escape_char(c));
        }
    }
}

/// Builds the synthetic error envelope carrying `msg`.
pub fn error_envelope(msg: &str) -> (r: String)
    ensures
        r@ == envelope_spec(msg@),
{
    let mut r = String::from_str("{\"jsonrpc\":\"2.0\",\"error\":{\"code\":-32603,\"message\":\"");
    let n = msg.unicode_len();
    let mut i: usize = 0;
    proof {
        assert(msg@.take(0) =~= Seq::<char>::empty());
    }
    while i < n
        invariant
            n == msg@.len(),
            i <= n,
            r@ == "{\"jsonrpc\":\"2.0\",\"error\":{\"code\":-32603,\"message\":\""@ + escape_spec(
                msg@.take(i as int),
            ),
        decreases n - i,
    {
        let c = msg.get_char(i);
        if c == '"' || c == '\\' || (c as u32) < 0x20 {
            append_escaped_char(&mut r, c);
        } else {
            let piece = msg.substring_char(i, i + 1);
            r.append(piece);
            proof {
                assert(piece@ =~= escape_char(c));
            }
        }
        proof {
            assert(msg@.take(i as int + 1).drop_last() =~= msg@.take(i as int));
            assert(msg@.take(i as int + 1).last() == msg@[i as int]);
        }
        i = i + 1;
    }
    proof {
        assert(msg@.take(n as int) =~= msg@);
    }
    r.append("\"}}");
    r
}

} // verus!
