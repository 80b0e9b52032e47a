//! Database-side value types and the utilities used to build queries:
//! LIKE-pattern escaping and full-text-search query construction, both
//! specified exactly; id generation and JSON passing stay behind narrow
//! trusted wrappers.

use vstd::prelude::*;
use vstd::string::StrSliceExecFns;
use crate::common::AssistantError;
use crate::strutil::copy_str;

verus! {

/// Database health information.
#[derive(Debug, Clone)]
pub struct DatabaseHealth {
    pub is_healthy: bool,
    pub connectivity_ms: u64,
    pub pool_stats: PoolStats,
    pub error_message: Option<String>,
}

/// Connection pool statistics.
#[derive(Debug, Clone, Copy, PartialEq, Eq, Structural)]
pub struct PoolStats {
    pub connections_total: u32,
    pub connections_idle: u32,
    pub connections_available: u32,
}

/// Database size information.
#[derive(Debug, Clone, Copy, PartialEq, Eq, Structural)]
pub struct DatabaseSizeInfo {
    pub total_size_bytes: u64,
    pub free_space_bytes: u64,
}

impl DatabaseSizeInfo {
    /// The space in use: total minus free, never below zero.
    pub fn used_space_bytes(&self) -> (r: u64)
        ensures
            r == if self.total_size_bytes >= self.free_space_bytes {
                self.total_size_bytes - self.free_space_bytes
            } else {
                0
            },
    {
        if self.total_size_bytes >= self.free_space_bytes {
            self.total_size_bytes - self.free_space_bytes
        } else {
            0
        }
    }
}

/// The LIKE escaping of one character: backslash, percent and underscore
/// gain a backslash; everything else stands verbatim.
pub open spec fn like_escape_char(c: char) -> Seq<char> {
    if c == '\\' {
        seq!['\\', '\\']
    } else if c == '%' {
        seq!['\\', '%']
    } else if c == '_' {
        seq!['\\', '_']
    } else {
        seq![c]
    }
}

/// The LIKE escaping of a whole pattern.
pub open spec fn like_escaped(s: Seq<char>) -> Seq<char>
    decreases s.len(),
{
    if s.len() == 0 {
        Seq::empty()
    } else {
        like_escaped(s.drop_last()) + like_escape_char(s.last())
    }
}

/// A term in a full-text query: double quotes doubled, between quotes.
pub open spec fn fts_term(t: Seq<char>) -> Seq<char> {
    seq!['"'] + dquote_escaped(t) + seq!['"']
}

/// Doubling of double quotes inside a term.
pub open spec fn dquote_escaped(s: Seq<char>) -> Seq<char>
    decreases s.len(),
{
    if s.len() == 0 {
        Seq::empty()
    } else if s.last() == '"' {
        dquote_escaped(s.drop_last()) + seq!['"', '"']
    } else {
        dquote_escaped(s.drop_last()) + seq![s.last()]
    }
}

/// The quoted terms joined with ` AND `.
pub open spec fn fts_joined(terms: Seq<Seq<char>>) -> Seq<char>
    decreases terms.len(),
{
    if terms.len() == 0 {
        Seq::empty()
    } else if terms.len() == 1 {
        fts_term(terms[0])
    } else {
        fts_term(terms[0]) + " AND "@ + fts_joined(terms.skip(1))
    }
}

/// The full-text query for a term list: `*` when empty, else the quoted
/// terms joined with ` AND `.
pub open spec fn fts_query_of(terms: Seq<Seq<char>>) -> Seq<char> {
    if terms.len() == 0 {
        "*"@
    } else {
        fts_joined(terms)
    }
}

/// Database utility functions.
#[derive(Debug, Clone, Copy)]
pub struct DatabaseUtils;

impl DatabaseUtils {
    /// Escapes a LIKE pattern: backslash, percent and underscore are
    /// prefixed with a backslash.
    pub fn escape_like_pattern(pattern: &str) -> (r: String)
        ensures
            r@ == like_escaped(pattern@),
    {
        let mut out = String::new();
        let n = pattern.unicode_len();
        let mut i: usize = 0;
        proof {
            assert(like_escaped(pattern@.take(0)) =~= Seq::<char>::empty());
            assert(out@ =~= like_escaped(pattern@.take(0)));
        }
        while i < n
            invariant
                n == pattern@.len(),
                i <= n,
                out@ == like_escaped(pattern@.take(i as int)),
            decreases n - i,
        {
            proof {
                assert(pattern@.take(i + 1).drop_last() =~= pattern@.take(i as int));
                assert(pattern@.take(i + 1).last() == pattern@[i as int]);
            }
            let c = pattern.get_char(i);
            if c == '\\' {
                push_char2(&mut out, '\\', '\\');
            } else if c == '%' {
                push_char2(&mut out, '\\', '%');
            } else if c == '_' {
                push_char2(&mut out, '\\', '_');
            } else {
                crate::strutil::push_char(&mut out, c);
            }
            proof {
                assert(out@ =~= like_escaped(pattern@.take(i + 1)));
            }
            i = i + 1;
        }
        proof {
            assert(pattern@.take(n as int) =~= pattern@);
        }
        out
    }

    /// Builds a full-text-search query: `*` for no terms, else each term
    /// quoted (doubling inner quotes) and joined with ` AND `.
    pub fn build_fts_query(terms: &[String]) -> (r: String)
        ensures
            r@ == fts_query_of(crate::strutil::views_of(terms@)),
    {
        let ghost tv = crate::strutil::views_of(terms@);
        if terms.len() == 0 {
            proof {
                assert(tv.len() == 0);
            }
            return copy_str("*");
        }
        let mut out = String::new();
        let n = terms.len();
        let mut i: usize = 0;
        proof {
            assert(tv.skip(0) =~= tv);
        }
        while i < n
            invariant
                tv == crate::strutil::views_of(terms@),
                n == terms@.len(),
                n == tv.len(),
                n > 0,
                i <= n,
                out@ + fts_joined(tv.skip(i as int)) =~= fts_joined(tv),
            decreases n - i,
        {
            proof {
                assert(tv.skip(i as int)[0] == tv[i as int]);
                assert(tv.skip(i as int).skip(1) =~= tv.skip(i + 1));
            }
            push_fts_term(&mut out, terms[i].as_str());
            if i + 1 < n {
                crate::strutil::append_str(&mut out, " AND ");
            }
            proof {
                if i + 1 < n {
                    assert(tv.skip(i + 1)[0] == tv[i + 1]);
                    assert(tv.skip(i + 1).skip(1) =~= tv.skip(i + 2));
                }
            }
            i = i + 1;
        }
        proof {
            assert(fts_joined(tv.skip(n as int)) =~= Seq::<char>::empty());
            assert(out@ + Seq::<char>::empty() =~= out@);
        }
        out
    }

    /// A fresh unique identifier for database records.
    ///
    /// Relies on `uuid::Uuid::new_v4` and its hyphenated rendering: a
    /// 36-character string. The value depends on chance, so nothing more
    /// is stated of it.
    #[verifier::external_body]
    pub fn generate_id() -> (r: String)
        ensures
            r@.len() == 36,
    {
        uuid::Uuid::new_v4().to_string()
    }

    /// Parses JSON text into a value.
    ///
    /// Relies on `serde_json::from_str`: parses the text, or reports the
    /// parse error as a database error.
    #[verifier::external_body]
    pub fn parse_json(json_str: &str) -> (r: Result<serde_json::Value, AssistantError>) {
        serde_json::from_str(json_str).map_err(
            |e| AssistantError::Database(format!("Invalid JSON: {}", e)),
        )
    }

    /// Renders a value as JSON text.
    ///
    /// Relies on `serde_json::to_string`: renders the value, or reports
    /// the error as a database error. The serializer recurses through the
    /// value without a depth guard, so a pathologically deep value can
    /// exhaust the stack; callers should not hand it values of untrusted
    /// depth.
    #[verifier::external_body]
    pub fn stringify_json(value: &serde_json::Value) -> (r: Result<String, AssistantError>) {
        serde_json::to_string(value).map_err(
            |e| AssistantError::Database(format!("JSON serialization failed: {}", e)),
        )
    }
}

/// Declares `serde_json::Value` (opaque) for use in signatures.
#[verifier::external_type_specification]
#[verifier::external_body]
pub struct ExValue(serde_json::Value);

/// Appends two characters.
fn push_char2(out: &mut String, a: char, b: char)
    ensures
        final(out)@ == old(out)@.push(a).push(b),
{
    crate::strutil::push_char(out, a);
    crate::strutil::push_char(out, b);
}

/// Appends the quoted form of `term` (inner quotes doubled).
fn push_fts_term(out: &mut String, term: &str)
    ensures
        final(out)@ == old(out)@ + fts_term(term@),
{
    crate::strutil::push_char(out, '"');
    let n = term.unicode_len();
    let mut i: usize = 0;
    proof {
        assert(dquote_escaped(term@.take(0)) =~= Seq::<char>::empty());
        assert(out@ =~= old(out)@ + seq!['"'] + dquote_escaped(term@.take(0)));
    }
    while i < n
        invariant
            n == term@.len(),
            i <= n,
            out@ == old(out)@ + seq!['"'] + dquote_escaped(term@.take(i as int)),
        decreases n - i,
    {
        proof {
            assert(term@.take(i + 1).drop_last() =~= term@.take(i as int));
            assert(term@.take(i + 1).last() == term@[i as int]);
        }
        let c = term.get_char(i);
        if c == '"' {
            push_char2(out, '"', '"');
        } else {
            crate::strutil::push_char(out, c);
        }
        proof {
            assert(out@ =~= old(out)@ + seq!['"'] + dquote_escaped(term@.take(i + 1)));
        }
        i = i + 1;
    }
    crate::strutil::push_char(out, '"');
    proof {
        assert(term@.take(n as int) =~= term@);
        assert(out@ =~= old(out)@ + fts_term(term@));
    }
}

} // verus!
