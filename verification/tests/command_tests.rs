use electrs_query::command::{
    decode_balance_response, decode_history_entry, decode_history_response, decode_unspent_response,
    decode_utxo, encode_balance, encode_history, encode_history_entry, encode_unspent, encode_utxo,
};
use electrs_query::{
    AddressBalance, HistoricalTransaction, ProtocolCommand, QueryError, ResponseValue, Utxo,
};

fn balance_object(confirmed: Option<ResponseValue>, unconfirmed: Option<ResponseValue>) -> ResponseValue {
    let mut fields = Vec::new();
    if let Some(value) = confirmed {
        fields.push(("confirmed".to_string(), value));
    }
    if let Some(value) = unconfirmed {
        fields.push(("unconfirmed".to_string(), value));
    }
    ResponseValue::Object(fields)
}

fn history_object(height: ResponseValue, tx_hash: &str) -> ResponseValue {
    ResponseValue::Object(vec![
        ("height".to_string(), height),
        ("tx_hash".to_string(), ResponseValue::Text(tx_hash.to_string())),
    ])
}

fn utxo_object(height: u64, tx_hash: &str, tx_pos: u64, value: u64) -> ResponseValue {
    ResponseValue::Object(vec![
        ("height".to_string(), ResponseValue::UInt(height)),
        ("tx_hash".to_string(), ResponseValue::Text(tx_hash.to_string())),
        ("tx_pos".to_string(), ResponseValue::UInt(tx_pos)),
        ("value".to_string(), ResponseValue::UInt(value)),
    ])
}

#[test]
fn method_names_match_the_wire_protocol() {
    assert_eq!(ProtocolCommand::RelayFee.method_name(), "blockchain.relayfee");
    let hash = "00".repeat(32);
    let command = ProtocolCommand::GetBalance { script_hash: hash.clone() };
    assert_eq!(command.method_name(), "blockchain.scripthash.get_balance");
    let command = ProtocolCommand::GetHistory { script_hash: hash.clone() };
    assert_eq!(command.method_name(), "blockchain.scripthash.get_history");
    let command = ProtocolCommand::ListUnspent { script_hash: hash.clone() };
    assert_eq!(command.method_name(), "blockchain.scripthash.listunspent");
}

#[test]
fn params_carry_the_script_hash() {
    assert_eq!(ProtocolCommand::RelayFee.params().len(), 0);
    let hash = "ab".repeat(32);
    let command = ProtocolCommand::GetHistory { script_hash: hash.clone() };
    assert_eq!(command.params(), vec![hash]);
}

#[test]
fn decode_balance_reads_both_fields() {
    let response = balance_object(
        Some(ResponseValue::UInt(86947)),
        Some(ResponseValue::UInt(1512)),
    );
    assert_eq!(
        decode_balance_response(&response),
        Ok(AddressBalance { confirmed: 86947, unconfirmed: 1512 })
    );
}

#[test]
fn decode_balance_missing_confirmed_is_malformed() {
    // Never a zero-filled balance when a required field is absent.
    let response = balance_object(None, Some(ResponseValue::UInt(1512)));
    assert_eq!(decode_balance_response(&response), Err(QueryError::MalformedResponse));
}

#[test]
fn decode_balance_rejects_wrong_types() {
    let response = balance_object(
        Some(ResponseValue::Text("86947".to_string())),
        Some(ResponseValue::UInt(1512)),
    );
    assert_eq!(decode_balance_response(&response), Err(QueryError::MalformedResponse));
    let response = balance_object(Some(ResponseValue::Int(-5)), Some(ResponseValue::UInt(0)));
    assert_eq!(decode_balance_response(&response), Err(QueryError::MalformedResponse));
    assert_eq!(
        decode_balance_response(&ResponseValue::Null),
        Err(QueryError::MalformedResponse)
    );
}

#[test]
fn decode_history_preserves_negative_height() {
    // A mempool entry carries height -1; it must decode and keep the sign.
    let tx = "f5d8ee39a430901c91a5917b9f2dc19d6d1a0e9cea205b009ca73dd04470b9a6";
    let response = ResponseValue::Array(vec![history_object(ResponseValue::Int(-1), tx)]);
    let decoded = decode_history_response(&response).unwrap();
    assert_eq!(decoded.len(), 1);
    assert_eq!(decoded[0].height, -1);
    assert_eq!(decoded[0].tx_hash, tx);
}

#[test]
fn decode_history_keeps_server_order() {
    let first = history_object(ResponseValue::UInt(100), "aa");
    let second = history_object(ResponseValue::UInt(50), "bb");
    let response = ResponseValue::Array(vec![first, second]);
    let decoded = decode_history_response(&response).unwrap();
    assert_eq!(decoded.len(), 2);
    assert_eq!(decoded[0].height, 100);
    assert_eq!(decoded[0].tx_hash, "aa");
    assert_eq!(decoded[1].height, 50);
    assert_eq!(decoded[1].tx_hash, "bb");
}

#[test]
fn decode_history_rejects_missing_field() {
    let entry = ResponseValue::Object(vec![("height".to_string(), ResponseValue::UInt(7))]);
    let response = ResponseValue::Array(vec![entry]);
    assert_eq!(decode_history_response(&response), Err(QueryError::MalformedResponse));
}

#[test]
fn decode_single_history_entry() {
    let entry = history_object(ResponseValue::UInt(2000), "cc");
    assert_eq!(
        decode_history_entry(&entry),
        Ok(HistoricalTransaction { height: 2000, tx_hash: "cc".to_string() })
    );
}

#[test]
fn decode_unspent_reads_all_fields() {
    let response = ResponseValue::Array(vec![
        utxo_object(1000, "dd", 2, 550000),
        utxo_object(1001, "ee", 0, 10),
    ]);
    let decoded = decode_unspent_response(&response).unwrap();
    assert_eq!(decoded.len(), 2);
    assert_eq!(
        decoded[0],
        Utxo { height: 1000, tx_hash: "dd".to_string(), tx_pos: 2, value: 550000 }
    );
    assert_eq!(
        decoded[1],
        Utxo { height: 1001, tx_hash: "ee".to_string(), tx_pos: 0, value: 10 }
    );
}

#[test]
fn decode_unspent_rejects_missing_value() {
    let entry = ResponseValue::Object(vec![
        ("height".to_string(), ResponseValue::UInt(1000)),
        ("tx_hash".to_string(), ResponseValue::Text("dd".to_string())),
        ("tx_pos".to_string(), ResponseValue::UInt(2)),
    ]);
    let response = ResponseValue::Array(vec![entry]);
    assert_eq!(decode_unspent_response(&response), Err(QueryError::MalformedResponse));
    assert_eq!(decode_utxo(&ResponseValue::UInt(3)), Err(QueryError::MalformedResponse));
}

#[test]
fn balance_round_trip_is_exact() {
    // Re-serializing and decoding preserves 64-bit values exactly.
    let balance = AddressBalance { confirmed: u64::MAX, unconfirmed: u64::MAX - 1 };
    assert_eq!(decode_balance_response(&encode_balance(&balance)), Ok(balance));
    let balance = AddressBalance { confirmed: 0, unconfirmed: 0 };
    assert_eq!(decode_balance_response(&encode_balance(&balance)), Ok(balance));
}

#[test]
fn history_round_trip_is_exact() {
    let entries = vec![
        HistoricalTransaction { height: -1, tx_hash: "aa".to_string() },
        HistoricalTransaction { height: i64::MAX, tx_hash: "bb".to_string() },
        HistoricalTransaction { height: i64::MIN, tx_hash: "cc".to_string() },
    ];
    assert_eq!(
        decode_history_entry(&encode_history_entry(&entries[0])),
        Ok(entries[0].clone())
    );
    assert_eq!(decode_history_response(&encode_history(&entries)), Ok(entries));
}

#[test]
fn unspent_round_trip_is_exact() {
    let utxos = vec![
        Utxo { height: u64::MAX, tx_hash: "dd".to_string(), tx_pos: u64::MAX, value: u64::MAX },
        Utxo { height: 0, tx_hash: "ee".to_string(), tx_pos: 0, value: 0 },
    ];
    assert_eq!(decode_utxo(&encode_utxo(&utxos[0])), Ok(utxos[0].clone()));
    assert_eq!(decode_unspent_response(&encode_unspent(&utxos)), Ok(utxos));
}

#[test]
fn duplicate_field_takes_first_binding() {
    let response = ResponseValue::Object(vec![
        ("confirmed".to_string(), ResponseValue::UInt(1)),
        ("confirmed".to_string(), ResponseValue::UInt(2)),
        ("unconfirmed".to_string(), ResponseValue::UInt(3)),
    ]);
    assert_eq!(
        decode_balance_response(&response),
        Ok(AddressBalance { confirmed: 1, unconfirmed: 3 })
    );
}
