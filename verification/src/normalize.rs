use vstd::prelude::*;
use vstd::string::StringExecFns;
use crate::ident::RawIdentifier;
use crate::text::{trim_quotes, trim_quotes_spec};

verus! {

/// One raw input row, reduced to the plain values normalization reads: the
/// typed identifier column, and the rendered payload fields (the payload's
/// own identifier field, if any, and its searchable-content field, if any).
#[derive(Debug, Clone)]
pub struct RawRecord {
    pub row_id: u64,
    pub payload_id: Option<String>,
    pub searchable: Option<String>,
}

/// Where the raw identifier of a record comes from.
#[derive(Debug, Clone, Copy, PartialEq, Eq)]
pub enum IdentifierSource {
    /// The row's top-level identifier column, already a typed integer.
    RowColumn,
    /// The payload's own identifier field, trimmed of surrounding quotes.
    PayloadField,
}

/// Why a record was skipped. Rejections are routine data-quality outcomes,
/// not errors: the run continues past every one of them.
#[derive(Debug, Clone, Copy, PartialEq, Eq)]
pub enum RejectReason {
    MissingContent,
    EmptyContent,
    NullContent,
    MissingIdentifier,
    EmptyIdentifier,
}

/// A validated record: the text bound for the embedding step, and the raw
/// identifier bound for resolution.
#[derive(Debug, Clone)]
pub struct Accepted {
    pub text: String,
    pub raw_identifier: RawIdentifier,
}

/// The searchable content passes: present, nonempty, and not the literal
/// `"null"` left behind by a malformed source.
pub open spec fn content_accepted(r: RawRecord) -> bool {
    match r.searchable {
        Some(s) => s@.len() > 0 && s@ != "null"@,
        None => false,
    }
}

/// The identifier passes: a row column always does; a payload field must be
/// present and nonempty once surrounding quotes are trimmed.
pub open spec fn identifier_accepted(r: RawRecord, source: IdentifierSource) -> bool {
    match source {
        IdentifierSource::RowColumn => true,
        IdentifierSource::PayloadField => match r.payload_id {
            Some(p) => trim_quotes_spec(p@).len() > 0,
            None => false,
        },
    }
}

pub open spec fn record_accepted(r: RawRecord, source: IdentifierSource) -> bool {
    content_accepted(r) && identifier_accepted(r, source)
}

/// The reason a rejected record is skipped; content faults are reported
/// before identifier faults.
pub open spec fn reject_reason_spec(r: RawRecord, source: IdentifierSource) -> RejectReason
    recommends
        !record_accepted(r, source),
{
    match r.searchable {
        None => RejectReason::MissingContent,
        Some(s) => if s@.len() == 0 {
            RejectReason::EmptyContent
        } else if s@ == "null"@ {
            RejectReason::NullContent
        } else {
            match r.payload_id {
                None => RejectReason::MissingIdentifier,
                Some(_) => RejectReason::EmptyIdentifier,
            }
        },
    }
}

/// The accepted outcome is faithful to the record: its text is the searchable
/// content exactly, with no other processing, and its raw identifier is the
/// configured source's value (the payload field trimmed of quotes).
pub open spec fn accepted_matches(a: Accepted, r: RawRecord, source: IdentifierSource) -> bool {
    &&& match r.searchable {
        Some(s) => a.text@ == s@,
        None => false,
    }
    &&& match source {
        IdentifierSource::RowColumn => a.raw_identifier == RawIdentifier::Numeric(r.row_id),
        IdentifierSource::PayloadField => match (a.raw_identifier, r.payload_id) {
            (RawIdentifier::Text(t), Some(p)) => t@ == trim_quotes_spec(p@),
            _ => false,
        },
    }
}

/// Validates one raw record: accepts it with its text and raw identifier, or
/// rejects it with the exact reason. Pure; a rejection skips the record only.
pub fn normalize(record: &RawRecord, source: IdentifierSource) -> (r: Result<
    Accepted,
    RejectReason,
>)
    ensures
        r is Ok <==> record_accepted(*record, source),
        match r {
            Ok(a) => accepted_matches(a, *record, source),
            Err(reason) => reason == reject_reason_spec(*record, source),
        },
{
    let text: String = match &record.searchable {
        None => {
            return Err(RejectReason::MissingContent);
        },
        Some(s) => {
            if s.as_str().is_empty() {
                return Err(RejectReason::EmptyContent);
            }
            let null_literal = String::from_str("null");
            if *s == null_literal {
                return Err(RejectReason::NullContent);
            }
            s.clone()
        },
    };
    let raw_identifier: RawIdentifier = match source {
        IdentifierSource::RowColumn => RawIdentifier::Numeric(record.row_id),
        IdentifierSource::PayloadField => match &record.payload_id {
            None => {
                return Err(RejectReason::MissingIdentifier);
            },
            Some(p) => {
                let trimmed = trim_quotes(p.as_str());
                if trimmed.as_str().is_empty() {
                    return Err(RejectReason::EmptyIdentifier);
                }
                RawIdentifier::Text(trimmed)
            },
        },
    };
    Ok(Accepted { text, raw_identifier })
}

} // verus!
