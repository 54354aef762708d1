//! Script construction: from an address's decoded payload and its
//! classified kind to the exact serialized spending script, as a lowercase
//! hex string.

use vstd::prelude::*;
use vstd::slice::slice_subrange;
use vstd::string::StringExecFns;

use crate::address::AddressKind;
use crate::errors::QueryError;
use crate::hexstr::{
    hex_of_bytes, is_hex_str, lemma_hex_of_bytes_is_hex_str, lemma_hex_str_concat,
};

verus! {

/// The byte payload that checksum-validated base58 decoding yields for a
/// string, version byte included; `None` where decoding fails.
pub uninterp spec fn spec_base58check(s: Seq<char>) -> Option<Seq<u8>>;

/// The witness program bytes a bech32 address decodes to; `None` where
/// decoding fails.
pub uninterp spec fn spec_witness_program(s: Seq<char>) -> Option<Seq<u8>>;

/// Relies on `bitcoin::util::base58::from_check`: checksum-validated
/// base58 decoding, a pure function of the string, `Err` where the string
/// is not valid base58check.
#[verifier::external_body]
fn base58check_decode(address: &str) -> (r: Option<Vec<u8>>)
    ensures
        r is Some <==> spec_base58check(address@) is Some,
        r is Some ==> r->Some_0@ == spec_base58check(address@)->Some_0,
{
    match bitcoin::util::base58::from_check(address) {
        Ok(bytes) => Some(bytes),
        Err(_) => None,
    }
}

/// Relies on `bitcoin_bech32::WitnessProgram::from_address`: bech32
/// decoding of a segwit address, a pure function of the string, `Err`
/// where the string is not a valid segwit address.
#[verifier::external_body]
fn witness_program_decode(address: &str) -> (r: Option<Vec<u8>>)
    ensures
        r is Some <==> spec_witness_program(address@) is Some,
        r is Some ==> r->Some_0@ == spec_witness_program(address@)->Some_0,
{
    match bitcoin_bech32::WitnessProgram::from_address(address) {
        Ok(witness) => Some(witness.program().to_vec()),
        Err(_) => None,
    }
}

/// Relies on `hex_utilities::encode_hex`: two lowercase hex digits per
/// byte, in order.
#[verifier::external_body]
fn bytes_to_hex(bytes: &[u8]) -> (r: String)
    ensures
        r@ == hex_of_bytes(bytes@),
{
    hex_utilities::encode_hex(bytes)
}

/// The hex payload the spending script embeds for an address of the given
/// kind: for the base58 kinds the decoded bytes less the version byte, for
/// the segwit kind the witness program; `None` where the address does not
/// decode.
pub open spec fn spec_payload(s: Seq<char>, kind: AddressKind) -> Option<Seq<char>> {
    match kind {
        AddressKind::P2PKH | AddressKind::P2SH => match spec_base58check(s) {
            Some(bytes) => if bytes.len() >= 1 {
                Some(hex_of_bytes(bytes.skip(1)))
            } else {
                None
            },
            None => None,
        },
        AddressKind::P2WPKH => match spec_witness_program(s) {
            Some(bytes) => Some(hex_of_bytes(bytes)),
            None => None,
        },
    }
}

/// The serialized spending script for an address of the given kind:
/// fixed opcode bytes around the decoded payload.
pub open spec fn spec_build_script(s: Seq<char>, kind: AddressKind) -> Option<Seq<char>> {
    match spec_payload(s, kind) {
        Some(payload) => Some(
            match kind {
                AddressKind::P2PKH => "76a914"@ + payload + "88ac"@,
                AddressKind::P2SH => "a914"@ + payload + "87"@,
                AddressKind::P2WPKH => "0014"@ + payload,
            },
        ),
        None => None,
    }
}

proof fn lemma_opcode_literals_are_hex()
    ensures
        is_hex_str("76a914"@),
        is_hex_str("88ac"@),
        is_hex_str("a914"@),
        is_hex_str("87"@),
        is_hex_str("0014"@),
{
    reveal_strlit("76a914");
    reveal_strlit("88ac");
    reveal_strlit("a914");
    reveal_strlit("87");
    reveal_strlit("0014");
}

/// The decoded payload of the address for the given kind, as a lowercase
/// hex string, or `UnsupportedAddress` where the address does not decode.
fn decode_payload(address: &str, kind: AddressKind) -> (r: Result<String, QueryError>)
    ensures
        r is Ok <==> spec_payload(address@, kind) is Some,
        r is Ok ==> r->Ok_0@ == spec_payload(address@, kind)->Some_0,
        r is Ok ==> is_hex_str(r->Ok_0@),
        r is Err ==> r->Err_0 == QueryError::UnsupportedAddress,
{
    match kind {
        AddressKind::P2PKH | AddressKind::P2SH => {
            match base58check_decode(address) {
                Some(bytes) => {
                    if bytes.len() >= 1 {
                        let tail = slice_subrange(bytes.as_slice(), 1, bytes.len());
                        let payload = bytes_to_hex(tail);
                        proof {
                            assert(tail@ =~= spec_base58check(address@)->Some_0.skip(1));
                            lemma_hex_of_bytes_is_hex_str(tail@);
                        }
                        Ok(payload)
                    } else {
                        Err(QueryError::UnsupportedAddress)
                    }
                },
                None => Err(QueryError::UnsupportedAddress),
            }
        },
        AddressKind::P2WPKH => {
            match witness_program_decode(address) {
                Some(bytes) => {
                    let payload = bytes_to_hex(bytes.as_slice());
                    proof {
                        lemma_hex_of_bytes_is_hex_str(bytes@);
                    }
                    Ok(payload)
                },
                None => Err(QueryError::UnsupportedAddress),
            }
        },
    }
}

/// Builds the serialized spending script for an address of the given kind,
/// pure and deterministic:
/// `76a914` + payload + `88ac` for pay-to-public-key-hash,
/// `a914` + payload + `87` for pay-to-script-hash,
/// `0014` + payload for pay-to-witness-public-key-hash.
/// Returns `UnsupportedAddress` exactly where the payload does not decode.
pub fn build_script(address: &str, kind: AddressKind) -> (r: Result<String, QueryError>)
    ensures
        r is Ok <==> spec_build_script(address@, kind) is Some,
        r is Ok ==> r->Ok_0@ == spec_build_script(address@, kind)->Some_0,
        r is Ok ==> is_hex_str(r->Ok_0@),
        r is Err ==> r->Err_0 == QueryError::UnsupportedAddress,
{
    let payload = match decode_payload(address, kind) {
        Ok(payload) => payload,
        Err(e) => {
            return Err(e);
        },
    };
    proof {
        lemma_opcode_literals_are_hex();
    }
    match kind {
        AddressKind::P2PKH => {
            let mut script = String::from_str("76a914");
            script.append(payload.as_str());
            script.append("88ac");
            proof {
                lemma_hex_str_concat("76a914"@, payload@);
                lemma_hex_str_concat("76a914"@ + payload@, "88ac"@);
            }
            Ok(script)
        },
        AddressKind::P2SH => {
            let mut script = String::from_str("a914");
            script.append(payload.as_str());
            script.append("87");
            proof {
                lemma_hex_str_concat("a914"@, payload@);
                lemma_hex_str_concat("a914"@ + payload@, "87"@);
            }
            Ok(script)
        },
        AddressKind::P2WPKH => {
            let mut script = String::from_str("0014");
            script.append(payload.as_str());
            proof {
                lemma_hex_str_concat("0014"@, payload@);
            }
            Ok(script)
        },
    }
}

/// Building a script is deterministic: any two outputs that the contract
/// of `build_script` admits for the same address and kind are equal.
pub proof fn lemma_build_script_deterministic(
    addr: Seq<char>,
    kind: AddressKind,
    first: Seq<char>,
    second: Seq<char>,
)
    requires
        spec_build_script(addr, kind) == Some(first),
        spec_build_script(addr, kind) == Some(second),
    ensures
        first == second,
{
}

} // verus!
