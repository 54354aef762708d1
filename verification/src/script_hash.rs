//! The server-side lookup key: a 32-byte digest of the spending script,
//! with its two textual encodings, and the full derivation pipeline from
//! an address string to the key.

use vstd::prelude::*;

use crate::address::{classify, spec_classify, AddressKind};
use crate::errors::QueryError;
use crate::hexstr::{is_hex_str, spec_reverse_hex};
use crate::script::{build_script, spec_build_script};

verus! {

/// The 64-digit hex form of the SHA-256 digest of the bytes a hex string
/// denotes; a pure function of the string.
pub uninterp spec fn spec_sha256_hex(s: Seq<char>) -> Seq<char>;

/// Relies on `bitcoin_utils::sha256_hex`: the SHA-256 digest of the bytes
/// the hex string denotes, re-encoded as 64 lowercase hex digits.
#[verifier::external_body]
fn sha256_of_hex(script_hex: &str) -> (r: String)
    requires
        is_hex_str(script_hex@),
    ensures
        r@ == spec_sha256_hex(script_hex@),
        r@.len() == 64,
        is_hex_str(r@),
{
    bitcoin_utils::sha256_hex(&script_hex.to_string())
}

/// Relies on `hex_utilities::convert_big_endian_hex_to_little_endian`:
/// decodes a hex string to bytes, reverses the bytes, re-encodes them as
/// lowercase hex.
#[verifier::external_body]
fn reverse_hex_byte_order(hex: &str) -> (r: String)
    requires
        is_hex_str(hex@),
    ensures
        r@ == spec_reverse_hex(hex@),
{
    hex_utilities::convert_big_endian_hex_to_little_endian(&hex.to_string())
}

/// An immutable 32-byte script digest. Its display form is the byte order
/// the hash function produced; its protocol form, the wire parameter, is
/// always the exact byte-order reversal of the display form, fixed at
/// construction and never computed independently.
pub struct ScriptHash {
    display_hex: String,
    protocol_hex: String,
}

impl View for ScriptHash {
    type V = Seq<char>;

    /// A script hash is identified by its display-order hex form.
    closed spec fn view(&self) -> Seq<char> {
        self.display_hex@
    }
}

impl ScriptHash {
    #[verifier::type_invariant]
    spec fn type_inv(self) -> bool {
        &&& is_hex_str(self.display_hex@)
        &&& self.display_hex@.len() == 64
        &&& self.protocol_hex@ == spec_reverse_hex(self.display_hex@)
    }

    /// Hashes a serialized script into its lookup key: one SHA-256 digest
    /// in hex form, with the protocol form derived from it by byte-order
    /// reversal.
    pub fn hash_script(script_hex: &str) -> (r: ScriptHash)
        requires
            is_hex_str(script_hex@),
        ensures
            r@ == spec_sha256_hex(script_hex@),
    {
        let display_hex = sha256_of_hex(script_hex);
        let protocol_hex = reverse_hex_byte_order(display_hex.as_str());
        ScriptHash { display_hex, protocol_hex }
    }

    /// The digest in the byte order the hash function produced: 64
    /// lowercase hex digits.
    pub fn display_hex(&self) -> (r: &String)
        ensures
            r@ == self@,
            is_hex_str(self@),
            self@.len() == 64,
    {
        proof {
            use_type_invariant(&*self);
        }
        &self.display_hex
    }

    /// The digest in protocol order, the form transmitted in requests:
    /// the exact byte-order reversal of the display form.
    pub fn protocol_hex(&self) -> (r: &String)
        ensures
            r@ == spec_reverse_hex(self@),
            is_hex_str(r@),
            r@.len() == 64,
            is_hex_str(self@),
            self@.len() == 64,
    {
        proof {
            use_type_invariant(&*self);
            crate::hexstr::lemma_reverse_hex_wf(self.display_hex@);
        }
        &self.protocol_hex
    }
}

/// The script hash an address derives to: classification, script
/// construction, then one SHA-256 digest; or the error of the first stage
/// that fails.
pub open spec fn spec_script_hash_for_address(s: Seq<char>) -> Result<Seq<char>, QueryError> {
    match spec_classify(s) {
        Ok(kind) => match spec_build_script(s, kind) {
            Some(script) => Ok(spec_sha256_hex(script)),
            None => Err(QueryError::UnsupportedAddress),
        },
        Err(e) => Err(e),
    }
}

/// The script hash of a pay-to-public-key-hash address.
pub fn get_script_hash_for_p2pkh_address(address: &str) -> (r: Result<ScriptHash, QueryError>)
    ensures
        spec_build_script(address@, AddressKind::P2PKH) matches Some(script) ==> r is Ok
            && r->Ok_0@ == spec_sha256_hex(script),
        spec_build_script(address@, AddressKind::P2PKH) is None ==> r == Err::<
            ScriptHash,
            QueryError,
        >(QueryError::UnsupportedAddress),
{
    let script = build_script(address, AddressKind::P2PKH)?;
    Ok(ScriptHash::hash_script(script.as_str()))
}

/// The script hash of a pay-to-script-hash address.
pub fn get_script_hash_for_p2sh_address(address: &str) -> (r: Result<ScriptHash, QueryError>)
    ensures
        spec_build_script(address@, AddressKind::P2SH) matches Some(script) ==> r is Ok
            && r->Ok_0@ == spec_sha256_hex(script),
        spec_build_script(address@, AddressKind::P2SH) is None ==> r == Err::<
            ScriptHash,
            QueryError,
        >(QueryError::UnsupportedAddress),
{
    let script = build_script(address, AddressKind::P2SH)?;
    Ok(ScriptHash::hash_script(script.as_str()))
}

/// The script hash of a pay-to-witness-public-key-hash address.
pub fn get_script_hash_for_p2wpkh_address(address: &str) -> (r: Result<ScriptHash, QueryError>)
    ensures
        spec_build_script(address@, AddressKind::P2WPKH) matches Some(script) ==> r is Ok
            && r->Ok_0@ == spec_sha256_hex(script),
        spec_build_script(address@, AddressKind::P2WPKH) is None ==> r == Err::<
            ScriptHash,
            QueryError,
        >(QueryError::UnsupportedAddress),
{
    let script = build_script(address, AddressKind::P2WPKH)?;
    Ok(ScriptHash::hash_script(script.as_str()))
}

/// Derives the lookup key for an address: classifies it, builds the exact
/// spending script for its kind, and hashes the script. Fails with
/// `UnsupportedAddress` exactly where classification or payload decoding
/// fails.
pub fn get_script_hash_for_address(address: &str) -> (r: Result<ScriptHash, QueryError>)
    ensures
        r is Ok <==> spec_script_hash_for_address(address@) is Ok,
        r is Ok ==> r->Ok_0@ == spec_script_hash_for_address(address@)->Ok_0,
        r is Err ==> r->Err_0 == spec_script_hash_for_address(address@)->Err_0,
{
    match classify(address) {
        Ok(AddressKind::P2PKH) => get_script_hash_for_p2pkh_address(address),
        Ok(AddressKind::P2SH) => get_script_hash_for_p2sh_address(address),
        Ok(AddressKind::P2WPKH) => get_script_hash_for_p2wpkh_address(address),
        Err(e) => Err(e),
    }
}

} // verus!
