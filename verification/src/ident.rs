use vstd::prelude::*;
use crate::text::{digits_value, lemma_digits_value_nonneg, parse_u64, parses_as_u64};

verus! {

/// Identifier of a record as its source carries it: either the typed integer
/// of the row's identifier column, or text taken from the payload.
#[derive(Debug, Clone, PartialEq, Eq)]
pub enum RawIdentifier {
    Numeric(u64),
    Text(String),
}

/// Typed key of one stored point: an unsigned integer where the source looks
/// numeric, an opaque string otherwise.
#[derive(Debug, Clone, PartialEq, Eq)]
pub enum PointId {
    Num(u64),
    Text(String),
}

/// The resolution policy: an integer stays an integer; text that reads as an
/// unsigned integer becomes that integer; any other text stays text.
pub open spec fn resolve_spec(raw: RawIdentifier) -> PointId {
    match raw {
        RawIdentifier::Numeric(n) => PointId::Num(n),
        RawIdentifier::Text(s) => if parses_as_u64(s@) {
            PointId::Num(digits_value(s@) as u64)
        } else {
            PointId::Text(s)
        },
    }
}

/// Maps a raw identifier to its point key, exactly as `resolve_spec` says.
/// Applied on the write path; the same policy would key any read path.
pub fn resolve(raw: RawIdentifier) -> (r: PointId)
    ensures
        r == resolve_spec(raw),
{
    match raw {
        RawIdentifier::Numeric(n) => PointId::Num(n),
        RawIdentifier::Text(s) => match parse_u64(s.as_str()) {
            Some(n) => {
                proof {
                    lemma_digits_value_nonneg(s@);
                    assert(digits_value(s@) as u64 == n);
                }
                PointId::Num(n)
            },
            None => PointId::Text(s),
        },
    }
}

/// Resolution is deterministic and idempotent: the same raw identifier always
/// yields the same point key, on every call and from every caller.
pub proof fn lemma_resolve_deterministic(a: RawIdentifier, b: RawIdentifier)
    requires
        a == b,
    ensures
        resolve_spec(a) == resolve_spec(b),
{
}

} // verus!
