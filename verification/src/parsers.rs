//! Constrained value parsers: pure validation of raw input into domain
//! values. Every failure is a recoverable validation error citing the
//! offending field; no parser performs I/O or panics.

use vstd::prelude::*;
use vstd::string::StrSliceExecFns;

use crate::errors::ErrorCode;
use crate::errors::ServerError;
use crate::text::trim_str;
use crate::text::trimmed;

verus! {

/// Longest accepted view name, in characters.
pub const NAME_MAX_LEN: usize = 256;

/// Longest accepted view description, in characters.
pub const DESC_MAX_LEN: usize = 1000;

/// Longest accepted thumbnail reference, in characters.
pub const THUMBNAIL_MAX_LEN: usize = 500;

/// A name is accepted when something is left after trimming and the raw
/// input stays within the length bound.
pub open spec fn name_ok(s: Seq<char>) -> bool {
    trimmed(s).len() > 0 && s.len() <= NAME_MAX_LEN
}

/// A description is accepted when it stays within the length bound; empty
/// is valid.
pub open spec fn desc_ok(s: Seq<char>) -> bool {
    s.len() <= DESC_MAX_LEN
}

/// A thumbnail reference is accepted when it stays within the length bound;
/// empty is valid.
pub open spec fn thumbnail_ok(s: Seq<char>) -> bool {
    s.len() <= THUMBNAIL_MAX_LEN
}

/// What the identifier parser makes of a string: `None` when the input is
/// not an identifier in any accepted format, otherwise the canonical
/// hyphenated lowercase rendering. The result depends on the characters
/// alone.
pub uninterp spec fn uuid_parse(s: Seq<char>) -> Option<Seq<char>>;

/// Relies on `uuid::Uuid::parse_str` for which strings are accepted, and on
/// `uuid::Uuid::to_string` rendering the canonical hyphenated lowercase
/// form; a canonical rendering parses back to itself.
#[verifier::external_body]
fn parse_uuid(s: &str) -> (r: Option<String>)
    ensures
        r is Some <==> uuid_parse(s@) is Some,
        r is Some ==> r.unwrap()@ == uuid_parse(s@).unwrap(),
        r is Some ==> uuid_parse(r.unwrap()@) == Some(r.unwrap()@),
{
    match uuid::Uuid::parse_str(s) {
        Ok(u) => Some(u.to_string()),
        Err(_) => None,
    }
}

/// Relies on `uuid::Uuid::new_v4` and the hyphenated rendering: a fresh
/// identifier in canonical form, which parses back to itself. The value is
/// random, so nothing more is promised of it.
#[verifier::external_body]
pub(crate) fn new_view_id() -> (r: String)
    ensures
        uuid_parse(r@) == Some(r@),
{
    uuid::Uuid::new_v4().to_string()
}

/// Validates a view name: rejected when nothing is left after trimming or
/// the input exceeds the bound; otherwise yields the trimmed name.
pub fn parse_view_name(s: &str) -> (r: Result<String, ServerError>)
    ensures
        r is Ok <==> name_ok(s@),
        r is Ok ==> r->Ok_0@ == trimmed(s@),
        r is Err ==> r->Err_0.code == ErrorCode::ValidationError && r->Err_0.field@ == "name"@,
{
    if s.unicode_len() > NAME_MAX_LEN {
        return Err(ServerError::invalid_params("name"));
    }
    let t = trim_str(s);
    if t.as_str().is_empty() {
        return Err(ServerError::invalid_params("name"));
    }
    Ok(t)
}

/// Validates a view description: rejected only when the input exceeds the
/// bound; yields the trimmed text (empty is valid).
pub fn parse_view_desc(s: &str) -> (r: Result<String, ServerError>)
    ensures
        r is Ok <==> desc_ok(s@),
        r is Ok ==> r->Ok_0@ == trimmed(s@),
        r is Err ==> r->Err_0.code == ErrorCode::ValidationError && r->Err_0.field@ == "desc"@,
{
    if s.unicode_len() > DESC_MAX_LEN {
        return Err(ServerError::invalid_params("desc"));
    }
    Ok(trim_str(s))
}

/// Validates a thumbnail reference: rejected only when the input exceeds
/// the bound; yields the trimmed text (empty is valid).
pub fn parse_view_thumbnail(s: &str) -> (r: Result<String, ServerError>)
    ensures
        r is Ok <==> thumbnail_ok(s@),
        r is Ok ==> r->Ok_0@ == trimmed(s@),
        r is Err ==> r->Err_0.code == ErrorCode::ValidationError && r->Err_0.field@
            == "thumbnail"@,
{
    if s.unicode_len() > THUMBNAIL_MAX_LEN {
        return Err(ServerError::invalid_params("thumbnail"));
    }
    Ok(trim_str(s))
}

/// Validates an identifier (view id or parent id): accepted exactly when
/// the canonical identifier parser accepts it; yields the canonical
/// rendering, which the statement builder can bind directly.
pub fn parse_identifier(field: &str, s: &str) -> (r: Result<String, ServerError>)
    ensures
        r is Ok <==> uuid_parse(s@) is Some,
        r is Ok ==> Some(r->Ok_0@) == uuid_parse(s@) && uuid_parse(r->Ok_0@) == Some(r->Ok_0@),
        r is Err ==> r->Err_0.code == ErrorCode::ValidationError && r->Err_0.field@ == field@,
{
    match parse_uuid(s) {
        Some(c) => Ok(c),
        None => Err(ServerError::invalid_params(field)),
    }
}

/// Validates a view identifier.
pub fn check_view_id(id: &str) -> (r: Result<String, ServerError>)
    ensures
        r is Ok <==> uuid_parse(id@) is Some,
        r is Ok ==> Some(r->Ok_0@) == uuid_parse(id@) && uuid_parse(r->Ok_0@) == Some(r->Ok_0@),
        r is Err ==> r->Err_0.code == ErrorCode::ValidationError && r->Err_0.field@ == "view_id"@,
{
    parse_identifier("view_id", id)
}

} // verus!
