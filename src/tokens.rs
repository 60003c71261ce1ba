use vstd::prelude::*;

verus! {

/// The 128-bit value that the UUID text `s` denotes, if it is one.
pub uninterp spec fn parsed_token(s: Seq<char>) -> Option<u128>;

/// Relies on `uuid::Uuid::parse_str` and `uuid::Uuid::as_u128`: whether
/// the text parses, and to which value, depends on the text alone.
#[verifier::external_body]
pub(crate) fn parse_token(s: &str) -> (r: Option<u128>)
    ensures
        r == parsed_token(s@),
{
    match uuid::Uuid::parse_str(s) {
        Ok(u) => Some(u.as_u128()),
        Err(_) => None,
    }
}

/// Relies on `uuid::Uuid::new_v4` for a fresh random token; nothing is
/// known of its value.
#[verifier::external_body]
pub(crate) fn new_token() -> (r: u128) {
    uuid::Uuid::new_v4().as_u128()
}

/// The hyphenated lower-case UUID text of the 128-bit value `t`.
pub uninterp spec fn token_text_of(t: u128) -> Seq<char>;

/// Relies on `uuid::Uuid::from_u128` and the hyphenated `Display` form of
/// `uuid::Uuid`: the text depends on the value alone.
#[verifier::external_body]
pub(crate) fn token_text(t: u128) -> (r: String)
    ensures
        r@ == token_text_of(t),
{
    uuid::Uuid::from_u128(t).to_string()
}

} // verus!
