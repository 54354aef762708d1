use electrs_query::script_hash::{
    get_script_hash_for_p2pkh_address, get_script_hash_for_p2sh_address,
    get_script_hash_for_p2wpkh_address,
};
use electrs_query::{
    build_script, get_script_hash_for_address, AddressKind, ProtocolCommand, QueryError,
};

#[test]
fn p2pkh_script_serialization() {
    // The spending script of a pay-to-public-key-hash address is the
    // fixed opcode bytes around the 20-byte public key hash.
    let address = "mv7RvNNQ7HpQf2diQai5hgpeuzkFoAQP9G";
    let script = build_script(address, AddressKind::P2PKH).unwrap();
    let pk_hash = bitcoin_utils::get_public_key_hash_from_address(&address.to_string());
    assert_eq!(pk_hash.len(), 40);
    assert_eq!(script, format!("76a914{}88ac", pk_hash));
}

#[test]
fn p2sh_script_serialization() {
    let address = "2MzBNKyJjx44BDJfwEevVzS3Q9Z5kSEYUZB";
    let script = build_script(address, AddressKind::P2SH).unwrap();
    let script_hash = bitcoin_utils::get_script_hash_from_p2sh_address(address);
    assert_eq!(script_hash.len(), 40);
    assert_eq!(script, format!("a914{}87", script_hash));
}

#[test]
fn p2wpkh_script_serialization() {
    let address = "tb1qphdqqxupe6dzkz3z58twy5l4s0v24mle5gkp99";
    let script = build_script(address, AddressKind::P2WPKH).unwrap();
    let pk_hash = bitcoin_utils::get_pubkey_hash_from_p2wpkh_address(&address.to_string());
    assert_eq!(pk_hash.len(), 40);
    assert_eq!(script, format!("0014{}", pk_hash));
}

#[test]
fn build_script_is_deterministic() {
    let address = "mv7RvNNQ7HpQf2diQai5hgpeuzkFoAQP9G";
    let first = build_script(address, AddressKind::P2PKH).unwrap();
    let second = build_script(address, AddressKind::P2PKH).unwrap();
    assert_eq!(first, second);
}

#[test]
fn p2pkh_scenario_full_pipeline() {
    // The classified kind, the serialized script, and the protocol-order
    // parameter that a balance request would carry.
    let address = "mv7RvNNQ7HpQf2diQai5hgpeuzkFoAQP9G";
    assert_eq!(electrs_query::classify(address), Ok(AddressKind::P2PKH));

    let script = build_script(address, AddressKind::P2PKH).unwrap();
    assert!(script.starts_with("76a914"));
    assert!(script.ends_with("88ac"));
    assert_eq!(script.len(), 50);

    let script_hash = get_script_hash_for_address(address).unwrap();
    let expected_display = bitcoin_utils::sha256_hex(&script);
    assert_eq!(script_hash.display_hex(), &expected_display);

    let expected_protocol =
        hex_utilities::convert_big_endian_hex_to_little_endian(&expected_display);
    assert_eq!(script_hash.protocol_hex(), &expected_protocol);

    let command = ProtocolCommand::GetBalance {
        script_hash: script_hash.protocol_hex().clone(),
    };
    let params = command.params();
    assert_eq!(params.len(), 1);
    assert_eq!(&params[0], script_hash.protocol_hex());
}

#[test]
fn protocol_hex_is_byte_reversal_of_display_hex() {
    let address = "tb1qphdqqxupe6dzkz3z58twy5l4s0v24mle5gkp99";
    let script_hash = get_script_hash_for_address(address).unwrap();
    let display = script_hash.display_hex().clone();
    let protocol = script_hash.protocol_hex().clone();
    assert_eq!(display.len(), 64);
    assert_eq!(protocol.len(), 64);

    // Pairwise reversal of the 32 hex byte pairs.
    let pairs: Vec<&str> = (0..32).map(|i| &display[2 * i..2 * i + 2]).collect();
    let reversed: String = pairs.iter().rev().copied().collect();
    assert_eq!(protocol, reversed);

    // Reversing twice returns the original string.
    let twice = hex_utilities::convert_big_endian_hex_to_little_endian(&protocol);
    assert_eq!(twice, display);
}

#[test]
fn script_hash_agrees_for_each_kind() {
    let p2pkh = "mv7RvNNQ7HpQf2diQai5hgpeuzkFoAQP9G";
    let p2sh = "2MzBNKyJjx44BDJfwEevVzS3Q9Z5kSEYUZB";
    let p2wpkh = "tb1qphdqqxupe6dzkz3z58twy5l4s0v24mle5gkp99";

    let by_kind = get_script_hash_for_p2pkh_address(p2pkh).unwrap();
    let by_pipeline = get_script_hash_for_address(p2pkh).unwrap();
    assert_eq!(by_kind.display_hex(), by_pipeline.display_hex());

    let by_kind = get_script_hash_for_p2sh_address(p2sh).unwrap();
    let by_pipeline = get_script_hash_for_address(p2sh).unwrap();
    assert_eq!(by_kind.display_hex(), by_pipeline.display_hex());

    let by_kind = get_script_hash_for_p2wpkh_address(p2wpkh).unwrap();
    let by_pipeline = get_script_hash_for_address(p2wpkh).unwrap();
    assert_eq!(by_kind.display_hex(), by_pipeline.display_hex());
}

#[test]
fn undecodable_address_is_rejected() {
    // Shaped like a pay-to-public-key-hash address, but '0' is not a
    // base58 character, so the payload cannot be decoded.
    let shaped_only = "n000000000000000000000000000000000";
    assert_eq!(electrs_query::classify(shaped_only), Ok(AddressKind::P2PKH));
    assert_eq!(
        build_script(shaped_only, AddressKind::P2PKH),
        Err(QueryError::UnsupportedAddress)
    );
    assert!(get_script_hash_for_address(shaped_only).is_err());
}
