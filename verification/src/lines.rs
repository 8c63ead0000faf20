//! Line hygiene at the bridge's edges.
//!
//! Inbound: a raw line read from the input stream has its trailing
//! line-ending characters stripped; a line that is blank or holds only
//! whitespace is discarded and never enters the inbound queue. Outbound:
//! each payload is written followed by a line terminator.

use vstd::prelude::*;
use vstd::string::StrSliceExecFns;
use vstd::string::StringExecFns;

use crate::text::{is_blank, is_blank_str, is_space_char};

verus! {

/// `s` with its trailing line-ending characters removed.
pub open spec fn strip_line_ending(s: Seq<char>) -> Seq<char>
    decreases s.len(),
{
    if s.len() > 0 && (s.last() == '\n' || s.last() == '\r') {
        strip_line_ending(s.drop_last())
    } else {
        s
    }
}

/// Stripping line endings does not change whether a line is blank.
pub proof fn lemma_strip_keeps_blankness(s: Seq<char>)
    ensures
        is_blank(strip_line_ending(s)) == is_blank(s),
    decreases s.len(),
{
    if s.len() > 0 && (s.last() == '\n' || s.last() == '\r') {
        lemma_strip_keeps_blankness(s.drop_last());
        assert(is_blank(s) == is_blank(s.drop_last())) by {
            if is_blank(s.drop_last()) {
                assert(forall|i: int|
                    0 <= i < s.len() - 1 ==> is_space_char(#[trigger] s[i]) == is_space_char(
                        s.drop_last()[i],
                    ));
                assert(is_space_char(s.last()));
            }
        }
    }
}

fn strip_eol(s: &str) -> (r: &str)
    ensures
        r@ == strip_line_ending(s@),
    decreases s@.len(),
{
    let n = s.unicode_len();
    if n == 0 {
        return s;
    }
    let c = s.get_char(n - 1);
    if c == '\n' || c == '\r' {
        let head = s.substring_char(0, n - 1);
        assert(head@ =~= s@.drop_last());
        strip_eol(head)
    } else {
        s
    }
}

/// Cleans one raw input line: strips its trailing line-ending characters
/// and forwards what is left, unless the line was blank or all
/// whitespace, in which case nothing is forwarded.
pub fn clean_input_line(raw: &str) -> (r: Option<String>)
    ensures
        (r is None) == is_blank(raw@),
        r matches Some(t) ==> t@ == strip_line_ending(raw@) && !is_blank(raw@),
{
    let stripped = strip_eol(raw);
    proof {
        lemma_strip_keeps_blankness(raw@);
    }
    if is_blank_str(stripped) {
        None
    } else {
        Some(String::from_str(stripped))
    }
}

/// A payload as it goes out on the wire: the line followed by its
/// terminator.
pub fn terminated_line(s: &str) -> (r: String)
    ensures
        r@ == s@ + seq!['\n'],
{
    let mut r = String::from_str(s);
    r.append("\n");
    proof {
        reveal_strlit("\n");
        assert(r@ =~= s@ + seq!['\n']);
    }
    r
}

} // verus!
