//! Token identifiers as bytes: `EGLD` for the native token, `TICKER-abcdef` for an ESDT.

use vstd::prelude::*;

verus! {

/// The identifier by which the native token EGLD is written.
pub open spec fn egld_representation() -> Seq<u8> {
    seq![69u8, 71u8, 76u8, 68u8]
}

pub open spec fn is_upper_or_digit(c: u8) -> bool {
    (65 <= c <= 90) || (48 <= c <= 57)
}

pub open spec fn is_lower_or_digit(c: u8) -> bool {
    (97 <= c <= 122) || (48 <= c <= 57)
}

/// An ESDT identifier: a ticker of 3 to 10 upper-case letters or digits, a dash,
/// then 6 lower-case letters or digits.
pub open spec fn spec_valid_esdt_identifier(s: Seq<u8>) -> bool {
    let n = s.len();
    let ticker_len = n - 7;
    &&& 10 <= n <= 17
    &&& forall|i: int| 0 <= i < ticker_len ==> is_upper_or_digit(#[trigger] s[i])
    &&& s[ticker_len] == 45u8
    &&& forall|i: int| n - 6 <= i < n ==> is_lower_or_digit(#[trigger] s[i])
}

/// A valid identifier of EGLD or of an ESDT.
pub open spec fn spec_valid_egld_or_esdt(s: Seq<u8>) -> bool {
    s == egld_representation() || spec_valid_esdt_identifier(s)
}

/// Calls `multiversx_chain_core::token_identifier_util::validate_token_identifier`,
/// the framework's own check of an ESDT identifier.  The contract claims what its
/// source does: the length is between 10 and 17, the ticker before the dash is upper-case
/// letters and digits, and the last six bytes are lower-case letters and digits.
#[verifier::external_body]
fn validate_esdt_identifier(token_id: &Vec<u8>) -> (r: bool)
    ensures
        r == spec_valid_esdt_identifier(token_id@),
{
    multiversx_sc::chain_core::token_identifier_util::validate_token_identifier(token_id.as_slice())
}

/// Tells whether the identifier names the native token.
pub fn is_egld(token_id: &Vec<u8>) -> (r: bool)
    ensures
        r == (token_id@ == egld_representation()),
{
    let egld: Vec<u8> = vec![69u8, 71u8, 76u8, 68u8];
    assert(egld@ =~= egld_representation());
    crate::launchpad_common::storage::same_bytes(token_id, &egld)
}

/// Tells whether an identifier names a valid ESDT token.
pub fn is_valid_esdt_identifier(token_id: &Vec<u8>) -> (r: bool)
    ensures
        r == spec_valid_esdt_identifier(token_id@),
{
    validate_esdt_identifier(token_id)
}

/// Tells whether an identifier names EGLD or a valid ESDT token; EGLD needs no check.
pub fn is_valid_egld_or_esdt(token_id: &Vec<u8>) -> (r: bool)
    ensures
        r == spec_valid_egld_or_esdt(token_id@),
{
    is_egld(token_id) || validate_esdt_identifier(token_id)
}

} // verus!
