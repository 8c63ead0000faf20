//! The bridge's configuration: endpoint URI, optional bearer token,
//! optional diagnostic name, request timeout, queue depth and backoff
//! ceiling, each with a documented default. The values arrive as plain
//! optional strings (they are read from the environment outside the
//! library) and every rule applied to them — defaults, empty-string
//! filtering, numeric parsing — is verified here.

use vstd::prelude::*;
use vstd::string::StrSliceExecFns;

verus! {

/// The default remote endpoint.
pub open spec fn default_uri() -> Seq<char> {
    "https://glo-matcher.brainapi.lumen-labs.ai/mcp"@
}

/// The default request timeout, in milliseconds.
pub const DEFAULT_TIMEOUT_MS: u64 = 60000;

/// The default depth of the inbound and outbound queues.
pub const DEFAULT_MAX_QUEUE: usize = 10000;

/// The ceiling on the retry backoff, in milliseconds.
pub const DEFAULT_MAX_BACKOFF_MS: u64 = 30000;

pub open spec fn is_digit(c: char) -> bool {
    '0' <= c && c <= '9'
}

pub open spec fn digit_val(c: char) -> int {
    c as int - '0' as int
}

/// The value of a run of decimal digits, most significant first.
pub open spec fn digits_val(s: Seq<char>) -> int
    decreases s.len(),
{
    if s.len() == 0 {
        0
    } else {
        digits_val(s.drop_last()) * 10 + digit_val(s.last())
    }
}

pub open spec fn all_digits(s: Seq<char>) -> bool {
    forall|i: int| 0 <= i < s.len() ==> is_digit(#[trigger] s[i])
}

/// The digits of a decimal numeral: an optional leading plus sign is
/// accepted and skipped.
pub open spec fn numeric_body(s: Seq<char>) -> Seq<char> {
    if s.len() >= 1 && s[0] == '+' {
        s.drop_first()
    } else {
        s
    }
}

/// What parsing a decimal numeral yields: the value of its digits when it
/// is non-empty, all digits, and in range; nothing otherwise.
pub open spec fn parse_u64_spec(s: Seq<char>) -> Option<u64> {
    let b = numeric_body(s);
    if b.len() > 0 && all_digits(b) && digits_val(b) <= u64::MAX {
        Some(digits_val(b) as u64)
    } else {
        None
    }
}

proof fn lemma_digits_val_nonneg(s: Seq<char>)
    requires
        all_digits(s),
    ensures
        digits_val(s) >= 0,
    decreases s.len(),
{
    if s.len() > 0 {
        assert(all_digits(s.drop_last()));
        lemma_digits_val_nonneg(s.drop_last());
    }
}

/// The value of a digit run only grows as digits are appended.
proof fn lemma_digits_val_prefix(s: Seq<char>, k: int)
    requires
        all_digits(s),
        0 <= k <= s.len(),
    ensures
        digits_val(s.take(k)) <= digits_val(s),
    decreases s.len(),
{
    if k < s.len() {
        assert(all_digits(s.drop_last()));
        assert(s.take(k) =~= s.drop_last().take(k));
        lemma_digits_val_prefix(s.drop_last(), k);
        lemma_digits_val_nonneg(s.drop_last());
    } else {
        assert(s.take(k) =~= s);
    }
}

/// Parses a decimal numeral (optionally signed with a plus) into its
/// value; anything empty, non-numeric or out of range yields nothing.
pub fn parse_u64(s: &str) -> (r: Option<u64>)
    ensures
        r == parse_u64_spec(s@),
{
    let n = s.unicode_len();
    let mut start: usize = 0;
    if n >= 1 && s.get_char(0) == '+' {
        start = 1;
    }
    let ghost b = numeric_body(s@);
    proof {
        assert(b =~= s@.subrange(start as int, n as int));
    }
    if start == n {
        return None;
    }
    let mut acc: u64 = 0;
    let mut i: usize = start;
    proof {
        assert(b.take(0) =~= Seq::<char>::empty());
    }
    while i < n
        invariant
            n == s@.len(),
            start <= i <= n,
            start < n,
            b == numeric_body(s@),
            b == s@.subrange(start as int, n as int),
            all_digits(b.take(i - start)),
            acc == digits_val(b.take(i - start)),
        decreases n - i,
    {
        let c = s.get_char(i);
        proof {
            assert(b.take(i - start + 1).drop_last() =~= b.take(i - start));
            assert(b.take(i - start + 1).last() == b[i - start]);
            assert(b[i - start] == s@[i as int]);
        }
        if c < '0' || c > '9' {
            assert(!all_digits(b));
            return None;
        }
        let d = (c as u32 - '0' as u32) as u64;
        if acc > (u64::MAX - d) / 10 {
            proof {
                assert(10 * acc + d > u64::MAX) by (nonlinear_arith)
                    requires
                        acc > (u64::MAX - d) / 10,
                        0 <= d <= 9,
                        acc >= 0,
                ;
                assert(digits_val(b.take(i - start + 1)) == 10 * acc + d);
                if all_digits(b) {
                    lemma_digits_val_prefix(b, i - start + 1);
                    assert(digits_val(b) > u64::MAX);
                }
            }
            return None;
        }
        proof {
            assert(acc * 10 + d <= u64::MAX) by (nonlinear_arith)
                requires
                    acc <= (u64::MAX - d) / 10,
                    0 <= d <= 9,
                    acc >= 0,
            ;
        }
        acc = acc * 10 + d;
        i = i + 1;
    }
    proof {
        assert(b.take(n - start) =~= b);
    }
    Some(acc)
}

/// The bridge's configuration, immutable once built.
#[derive(Clone, Debug)]
pub struct Config {
    pub uri: String,
    pub bearer_token: Option<String>,
    pub mcp_name: Option<String>,
    pub timeout_ms: u64,
    pub max_queue: usize,
    pub max_backoff_ms: u64,
}

impl Config {
    /// Builds the configuration from raw optional settings text: a
    /// missing URI falls back to the default endpoint; an empty bearer
    /// token or diagnostic name counts as absent; a missing or
    /// unparsable timeout or queue depth falls back to its default; the
    /// backoff ceiling is fixed.
    pub fn from_settings(
        uri: Option<String>,
        bearer_token: Option<String>,
        mcp_name: Option<String>,
        timeout_ms_text: Option<String>,
        max_queue_text: Option<String>,
    ) -> (c: Config)
        ensures
            (match uri {
                Some(u) => c.uri@ == u@,
                None => c.uri@ == default_uri(),
            }),
            (match bearer_token {
                Some(t) => {
                    if t@.len() > 0 {
                        c.bearer_token matches Some(x) && x@ == t@
                    } else {
                        c.bearer_token is None
                    }
                },
                None => c.bearer_token is None,
            }),
            (match mcp_name {
                Some(t) => {
                    if t@.len() > 0 {
                        c.mcp_name matches Some(x) && x@ == t@
                    } else {
                        c.mcp_name is None
                    }
                },
                None => c.mcp_name is None,
            }),
            (match timeout_ms_text {
                Some(t) => {
                    match parse_u64_spec(t@) {
                        Some(v) => c.timeout_ms == v,
                        None => c.timeout_ms == DEFAULT_TIMEOUT_MS,
                    }
                },
                None => c.timeout_ms == DEFAULT_TIMEOUT_MS,
            }),
            (match max_queue_text {
                Some(t) => {
                    match parse_u64_spec(t@) {
                        Some(v) => {
                            if v <= usize::MAX {
                                c.max_queue == v
                            } else {
                                c.max_queue == DEFAULT_MAX_QUEUE
                            }
                        },
                        None => c.max_queue == DEFAULT_MAX_QUEUE,
                    }
                },
                None => c.max_queue == DEFAULT_MAX_QUEUE,
            }),
            c.max_backoff_ms == DEFAULT_MAX_BACKOFF_MS,
    {
        let uri = match uri {
            Some(u) => u,
            None => String::from_str("https://glo-matcher.brainapi.lumen-labs.ai/mcp"),
        };
        let bearer_token = match bearer_token {
            Some(t) => if t.as_str().is_empty() {
                None
            } else {
                Some(t)
            },
            None => None,
        };
        let mcp_name = match mcp_name {
            Some(t) => if t.as_str().is_empty() {
                None
            } else {
                Some(t)
            },
            None => None,
        };
        let timeout_ms = match timeout_ms_text {
            Some(t) => match parse_u64(t.as_str()) {
                Some(v) => v,
                None => DEFAULT_TIMEOUT_MS,
            },
            None => DEFAULT_TIMEOUT_MS,
        };
        let max_queue = match max_queue_text {
            Some(t) => match parse_u64(t.as_str()) {
                Some(v) => {
                    if v <= usize::MAX as u64 {
                        v as usize
                    } else {
                        DEFAULT_MAX_QUEUE
                    }
                },
                None => DEFAULT_MAX_QUEUE,
            },
            None => DEFAULT_MAX_QUEUE,
        };
        Config {
            uri,
            bearer_token,
            mcp_name,
            timeout_ms,
            max_queue,
            max_backoff_ms: DEFAULT_MAX_BACKOFF_MS,
        }
    }
}

} // verus!
