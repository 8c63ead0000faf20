//! Decoder for event-stream response bodies.
//!
//! The body is read line by line (lines are separated by `'\n'`). A line
//! beginning with the `data:` marker contributes its trimmed value to the
//! current event's buffer, joined with a newline when the buffer already
//! holds text; the literal termination sentinel `[DONE]` is discarded. A
//! blank line ends the current event and flushes a non-empty buffer as one
//! output payload. A buffer still pending when the input ends is flushed
//! once. Output order matches event order.

use vstd::prelude::*;
use vstd::string::StrSliceExecFns;
use vstd::string::StringExecFns;

use crate::text::{is_blank, is_blank_str, is_space_char, line_views, str_eq, trim_of, trim_spec};
use crate::text::lemma_line_views_push;

verus! {

/// A line that carries a data field: it begins with the five characters
/// of the `data:` marker.
pub open spec fn is_data_line(l: Seq<char>) -> bool {
    l.len() >= 5 && l[0] == 'd' && l[1] == 'a' && l[2] == 't' && l[3] == 'a' && l[4] == ':'
}

/// The value carried by a data line: everything after the marker, trimmed.
pub open spec fn data_value(l: Seq<char>) -> Seq<char> {
    trim_spec(l.subrange(5, l.len() as int))
}

/// The termination sentinel: a data value reading `[DONE]` is discarded.
pub open spec fn is_done_value(v: Seq<char>) -> bool {
    v == seq!['[', 'D', 'O', 'N', 'E', ']']
}

/// The event buffer after one complete line has been taken in.
pub open spec fn event_step_buf(l: Seq<char>, buf: Seq<char>) -> Seq<char> {
    if is_data_line(l) {
        let v = data_value(l);
        if is_done_value(v) {
            buf
        } else if buf.len() == 0 {
            v
        } else {
            buf + seq!['\n'] + v
        }
    } else if is_blank(l) {
        Seq::empty()
    } else {
        buf
    }
}

/// The output payloads after one complete line has been taken in: a blank
/// line flushes a non-empty buffer as one payload.
pub open spec fn event_step_out(l: Seq<char>, buf: Seq<char>, out: Seq<Seq<char>>) -> Seq<
    Seq<char>,
> {
    if !is_data_line(l) && is_blank(l) && buf.len() > 0 {
        out.push(buf)
    } else {
        out
    }
}

/// The decoder's accumulation state: the partial line being gathered, the
/// current event's buffer, and the payloads flushed so far.
#[verifier::ext_equal]
pub struct SseState {
    pub line: Seq<char>,
    pub buf: Seq<char>,
    pub out: Seq<Seq<char>>,
}

pub open spec fn init_state() -> SseState {
    SseState { line: Seq::empty(), buf: Seq::empty(), out: Seq::empty() }
}

/// One character of input: a newline completes the gathered line, any
/// other character extends it.
pub open spec fn char_step(st: SseState, c: char) -> SseState {
    if c == '\n' {
        SseState {
            line: Seq::empty(),
            buf: event_step_buf(st.line, st.buf),
            out: event_step_out(st.line, st.buf, st.out),
        }
    } else {
        SseState { line: st.line.push(c), buf: st.buf, out: st.out }
    }
}

/// The decoder state after the whole input `s` has been taken in.
pub open spec fn decode_state(s: Seq<char>) -> SseState
    decreases s.len(),
{
    if s.len() == 0 {
        init_state()
    } else {
        char_step(decode_state(s.drop_last()), s.last())
    }
}

/// The payloads decoded from the full event-stream text `s`: the state
/// after all input, with an unterminated final line taken in as a line and
/// a pending buffer flushed once.
pub open spec fn sse_decode(s: Seq<char>) -> Seq<Seq<char>> {
    let st = decode_state(s);
    let buf = if st.line.len() > 0 {
        event_step_buf(st.line, st.buf)
    } else {
        st.buf
    };
    let out = if st.line.len() > 0 {
        event_step_out(st.line, st.buf, st.out)
    } else {
        st.out
    };
    if buf.len() > 0 {
        out.push(buf)
    } else {
        out
    }
}

pub proof fn lemma_decode_append_char(s: Seq<char>, c: char)
    ensures
        decode_state(s.push(c)) == char_step(decode_state(s), c),
{
    assert(s.push(c).drop_last() =~= s);
    assert(s.push(c).last() == c);
}

/// Taking in a run of characters free of newlines only extends the
/// gathered line.
pub proof fn lemma_decode_extend_line(s: Seq<char>, t: Seq<char>)
    requires
        forall|i: int| 0 <= i < t.len() ==> t[i] != '\n',
    ensures
        decode_state(s + t) == (SseState {
            line: decode_state(s).line + t,
            buf: decode_state(s).buf,
            out: decode_state(s).out,
        }),
    decreases t.len(),
{
    if t.len() == 0 {
        assert(s + t =~= s);
        assert(decode_state(s).line + t =~= decode_state(s).line);
        assert(decode_state(s + t) =~= (SseState {
            line: decode_state(s).line + t,
            buf: decode_state(s).buf,
            out: decode_state(s).out,
        }));
    } else {
        let t0 = t.drop_last();
        lemma_decode_extend_line(s, t0);
        assert(s + t =~= (s + t0).push(t.last()));
        lemma_decode_append_char(s + t0, t.last());
        assert((decode_state(s).line + t0).push(t.last()) =~= decode_state(s).line + t);
    }
}

/// Taking in one whole line and its newline runs the line through the
/// event buffer and the flushed payloads.
pub proof fn lemma_decode_full_line(s: Seq<char>, l: Seq<char>)
    requires
        forall|i: int| 0 <= i < l.len() ==> l[i] != '\n',
    ensures
        decode_state(s + l + seq!['\n']) == (SseState {
            line: Seq::empty(),
            buf: event_step_buf(decode_state(s).line + l, decode_state(s).buf),
            out: event_step_out(decode_state(s).line + l, decode_state(s).buf, decode_state(s).out),
        }),
{
    lemma_decode_extend_line(s, l);
    assert(s + l + seq!['\n'] =~= (s + l).push('\n'));
    lemma_decode_append_char(s + l, '\n');
}

/// The termination sentinel never becomes an output payload: a data line
/// whose value reads `[DONE]` leaves the event buffer and the flushed
/// payloads exactly as they were.
pub proof fn lemma_done_sentinel_is_discarded(l: Seq<char>, buf: Seq<char>, out: Seq<Seq<char>>)
    requires
        is_data_line(l),
        is_done_value(data_value(l)),
    ensures
        event_step_buf(l, buf) == buf,
        event_step_out(l, buf, out) == out,
{
}

/// Two data lines inside one event are joined: when a data line carrying
/// `v1` and one carrying `v2` stand before the blank line that ends the
/// event, and `v1` is not empty, the event yields the single payload
/// `v1`, a newline, `v2`.
pub proof fn lemma_one_event_joins_data_lines(l1: Seq<char>, l2: Seq<char>, b: Seq<char>)
    requires
        is_data_line(l1),
        is_data_line(l2),
        forall|i: int| 0 <= i < l1.len() ==> l1[i] != '\n',
        forall|i: int| 0 <= i < l2.len() ==> l2[i] != '\n',
        !is_done_value(data_value(l1)),
        !is_done_value(data_value(l2)),
        data_value(l1).len() > 0,
        is_blank(b),
        forall|i: int| 0 <= i < b.len() ==> b[i] != '\n',
    ensures
        sse_decode(l1 + seq!['\n'] + l2 + seq!['\n'] + b + seq!['\n']) == seq![
            data_value(l1) + seq!['\n'] + data_value(l2),
        ],
{
    let e = Seq::<char>::empty();
    let v1 = data_value(l1);
    let v2 = data_value(l2);
    lemma_decode_full_line(e, l1);
    assert(e + l1 + seq!['\n'] =~= l1 + seq!['\n']);
    assert(decode_state(e).line + l1 =~= l1);
    let s1 = l1 + seq!['\n'];
    assert(decode_state(s1).line =~= e);
    assert(decode_state(s1).buf == v1);
    lemma_decode_full_line(s1, l2);
    assert(decode_state(s1).line + l2 =~= l2);
    let s2 = s1 + l2 + seq!['\n'];
    assert(decode_state(s2).buf == v1 + seq!['\n'] + v2);
    assert(decode_state(s2).line =~= e);
    lemma_decode_full_line(s2, b);
    assert(decode_state(s2).line + b =~= b);
    let s3 = s2 + b + seq!['\n'];
    assert(!is_data_line(b)) by {
        if is_data_line(b) {
            assert(is_space_char(b[0]));
        }
    }
    assert(decode_state(s3).out =~= decode_state(s2).out.push(v1 + seq!['\n'] + v2));
    assert(decode_state(s2).out =~= Seq::<Seq<char>>::empty());
    assert(sse_decode(s3) =~= seq![v1 + seq!['\n'] + v2]);
}

/// Takes one complete line into the event buffer and the flushed payloads.
fn feed_line(line: &str, buf: &mut String, out: &mut Vec<String>)
    ensures
        final(buf)@ == event_step_buf(line@, old(buf)@),
        line_views(final(out)@) == event_step_out(line@, old(buf)@, line_views(old(out)@)),
{
    let n = line.unicode_len();
    let is_data = n >= 5 && line.get_char(0) == 'd' && line.get_char(1) == 'a' && line.get_char(
        2,
    ) == 't' && line.get_char(3) == 'a' && line.get_char(4) == ':';
    if is_data {
        let rest = line.substring_char(5, n);
        let v = trim_of(rest);
        proof {
            assert(rest@ =~= line@.subrange(5, line@.len() as int));
        }
        if str_eq(v, "[DONE]") {
            proof {
                reveal_strlit("[DONE]");
                assert(v@ =~= seq!['[', 'D', 'O', 'N', 'E', ']']);
            }
        } else {
            proof {
                assert(!is_done_value(data_value(line@))) by {
                    reveal_strlit("[DONE]");
                    if is_done_value(data_value(line@)) {
                        assert(v@ =~= "[DONE]"@);
                    }
                }
            }
            if buf.as_str().is_empty() {
                let owned = String::from_str(v);
                *buf = owned;
            } else {
                buf.append("\n");
                buf.append(v);
                proof {
                    reveal_strlit("\n");
                    assert("\n"@ =~= seq!['\n']);
                }
            }
        }
    } else if is_blank_str(line) {
        if !buf.as_str().is_empty() {
            let flushed = buf.clone();
            proof {
                lemma_line_views_push(out@, flushed);
            }
            out.push(flushed);
            *buf = String::new();
        } else {
            proof {
                assert(old(buf)@ =~= Seq::<char>::empty());
            }
        }
    }
}

/// Decodes an event-stream body into its ordered payload lines.
pub fn parse_sse_to_json_lines(s: &str) -> (out: Vec<String>)
    ensures
        line_views(out@) == sse_decode(s@),
{
    let n = s.unicode_len();
    let mut line = String::new();
    let mut buf = String::new();
    let mut out: Vec<String> = Vec::new();
    let mut i: usize = 0;
    proof {
        assert(s@.take(0) =~= Seq::<char>::empty());
        assert(line_views(Seq::<String>::empty()) =~= Seq::<Seq<char>>::empty());
    }
    while i < n
        invariant
            n == s@.len(),
            i <= n,
            line@ == decode_state(s@.take(i as int)).line,
            buf@ == decode_state(s@.take(i as int)).buf,
            line_views(out@) == decode_state(s@.take(i as int)).out,
        decreases n - i,
    {
        let c = s.get_char(i);
        proof {
            assert(s@.take(i as int + 1).drop_last() =~= s@.take(i as int));
            assert(s@.take(i as int + 1).last() == s@[i as int]);
        }
        if c == '\n' {
            feed_line(line.as_str(), &mut buf, &mut out);
            line = String::new();
        } else {
            let piece = s.substring_char(i, i + 1);
            line.append(piece);
            proof {
                assert(line@ =~= decode_state(s@.take(i as int)).line.push(c));
            }
        }
        i = i + 1;
    }
    proof {
        assert(s@.take(n as int) =~= s@);
    }
    if !line.as_str().is_empty() {
        feed_line(line.as_str(), &mut buf, &mut out);
    }
    if !buf.as_str().is_empty() {
        let pending = buf;
        proof {
            lemma_line_views_push(out@, pending);
        }
        out.push(pending);
    }
    out
}

} // verus!
