//! Address classification: which of the three supported script patterns
//! an address uses.

use vstd::prelude::*;

use crate::errors::QueryError;

verus! {

/// The closed set of supported script patterns. No other kind is
/// representable; an unsupported pattern is an error, never a default.
#[derive(Clone, Copy, Debug, PartialEq, Eq, Structural)]
pub enum AddressKind {
    P2PKH,
    P2SH,
    P2WPKH,
}

/// A pay-to-public-key-hash address: 33 or 34 characters, leading
/// `'1'` (mainnet) or `'m'` / `'n'` (testnet).
pub open spec fn spec_is_p2pkh(s: Seq<char>) -> bool {
    &&& s.len() == 33 || s.len() == 34
    &&& s.len() > 0
    &&& s[0] == '1' || s[0] == 'm' || s[0] == 'n'
}

/// A pay-to-script-hash address: 34 or 35 characters, leading `'2'` or `'3'`.
pub open spec fn spec_is_p2sh(s: Seq<char>) -> bool {
    &&& s.len() == 34 || s.len() == 35
    &&& s.len() > 0
    &&& s[0] == '2' || s[0] == '3'
}

/// A pay-to-witness-public-key-hash address: 42 characters, leading
/// `"bc1q"` (mainnet) or `"tb1q"` (testnet).
pub open spec fn spec_is_p2wpkh(s: Seq<char>) -> bool {
    &&& s.len() == 42
    &&& (s[0] == 'b' && s[1] == 'c' && s[2] == '1' && s[3] == 'q') || (s[0] == 't' && s[1] == 'b'
        && s[2] == '1' && s[3] == 'q')
}

/// Relies on `bitcoin_address::is_p2pkh`: true exactly of strings of 33 or
/// 34 characters that start with `'1'`, `'m'` or `'n'`.
#[verifier::external_body]
fn is_p2pkh_address(address: &str) -> (r: bool)
    ensures
        r == spec_is_p2pkh(address@),
{
    bitcoin_address::is_p2pkh(&address.to_string())
}

/// Relies on `bitcoin_address::is_p2sh`: true exactly of strings of 34 or
/// 35 characters that start with `'2'` or `'3'`.
#[verifier::external_body]
fn is_p2sh_address(address: &str) -> (r: bool)
    ensures
        r == spec_is_p2sh(address@),
{
    bitcoin_address::is_p2sh(&address.to_string())
}

/// Relies on `bitcoin_address::is_p2wpkh`: true exactly of strings of 42
/// characters that start with `"bc1q"` or `"tb1q"`.
#[verifier::external_body]
fn is_p2wpkh_address(address: &str) -> (r: bool)
    ensures
        r == spec_is_p2wpkh(address@),
{
    bitcoin_address::is_p2wpkh(&address.to_string())
}

/// The classification of an address: the patterns are tested in fixed
/// priority, pay-to-public-key-hash first, then pay-to-script-hash, then
/// pay-to-witness-public-key-hash, and the first match wins.
pub open spec fn spec_classify(s: Seq<char>) -> Result<AddressKind, QueryError> {
    if spec_is_p2pkh(s) {
        Ok(AddressKind::P2PKH)
    } else if spec_is_p2sh(s) {
        Ok(AddressKind::P2SH)
    } else if spec_is_p2wpkh(s) {
        Ok(AddressKind::P2WPKH)
    } else {
        Err(QueryError::UnsupportedAddress)
    }
}

/// The three supported patterns are mutually exclusive: their leading
/// symbols and lengths are disjoint, so no string matches two of them and
/// the fixed classification priority never decides the outcome.
pub proof fn lemma_patterns_mutually_exclusive(s: Seq<char>)
    ensures
        !(spec_is_p2pkh(s) && spec_is_p2sh(s)),
        !(spec_is_p2pkh(s) && spec_is_p2wpkh(s)),
        !(spec_is_p2sh(s) && spec_is_p2wpkh(s)),
{
}

/// Classifies an address by its script pattern. Returns the one kind the
/// address matches, or `UnsupportedAddress` exactly when it matches none;
/// never a default kind.
pub fn classify(address: &str) -> (r: Result<AddressKind, QueryError>)
    ensures
        r == spec_classify(address@),
{
    if is_p2pkh_address(address) {
        Ok(AddressKind::P2PKH)
    } else if is_p2sh_address(address) {
        Ok(AddressKind::P2SH)
    } else if is_p2wpkh_address(address) {
        Ok(AddressKind::P2WPKH)
    } else {
        Err(QueryError::UnsupportedAddress)
    }
}

} // verus!
