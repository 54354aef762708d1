//! The typed protocol command layer: one variant per server method, each
//! with its wire method name, its parameter list, and a decoder for its
//! one response shape. A response missing a required field, or holding
//! one of the wrong type, is rejected as `MalformedResponse`, never
//! replaced by a default.

use vstd::prelude::*;

use crate::domain::{AddressBalance, HistoricalTransaction, Utxo};
use crate::errors::QueryError;

verus! {

/// A raw server response, modelled as plain values. Integers that fit an
/// unsigned 64-bit value are `UInt`; negative integers are `Int`; any
/// value the protocol layer does not type (such as a fractional number)
/// is `Other`, which every decoder rejects.
#[derive(Debug)]
pub enum ResponseValue {
    Null,
    Bool(bool),
    UInt(u64),
    Int(i64),
    Text(String),
    Array(Vec<ResponseValue>),
    Object(Vec<(String, ResponseValue)>),
    Other,
}

/// The first value bound to a field name, searching in order; `None`
/// where the name is absent.
pub open spec fn spec_find_field(
    fields: Seq<(String, ResponseValue)>,
    name: Seq<char>,
) -> Option<ResponseValue>
    decreases fields.len(),
{
    if fields.len() == 0 {
        None
    } else if fields[0].0@ == name {
        Some(fields[0].1)
    } else {
        spec_find_field(fields.skip(1), name)
    }
}

fn find_field<'a>(fields: &'a Vec<(String, ResponseValue)>, name: &String) -> (r: Option<
    &'a ResponseValue,
>)
    ensures
        match r {
            Some(v) => spec_find_field(fields@, name@) == Some(*v),
            None => spec_find_field(fields@, name@) is None,
        },
{
    let mut i: usize = 0;
    proof {
        assert(fields@.skip(0) =~= fields@);
    }
    while i < fields.len()
        invariant
            i <= fields.len(),
            spec_find_field(fields@, name@) == spec_find_field(fields@.skip(i as int), name@),
        decreases fields.len() - i,
    {
        proof {
            assert(fields@.skip(i as int)[0] == fields@[i as int]);
            assert(fields@.skip(i as int).skip(1) =~= fields@.skip(i as int + 1));
        }
        if fields[i].0.eq(name) {
            return Some(&fields[i].1);
        }
        i += 1;
    }
    proof {
        assert(fields@.skip(fields@.len() as int) =~= Seq::<(String, ResponseValue)>::empty());
    }
    None
}

/// The unsigned 64-bit reading of a response value, where it has one.
pub open spec fn spec_as_u64(v: ResponseValue) -> Option<u64> {
    match v {
        ResponseValue::UInt(n) => Some(n),
        _ => None,
    }
}

/// The signed 64-bit reading of a response value, where it has one:
/// either a non-negative integer that fits, or a negative integer.
pub open spec fn spec_as_i64(v: ResponseValue) -> Option<i64> {
    match v {
        ResponseValue::UInt(n) => if n <= i64::MAX as u64 {
            Some(n as i64)
        } else {
            None
        },
        ResponseValue::Int(n) => Some(n),
        _ => None,
    }
}

/// The balance a response decodes to: an object with unsigned `confirmed`
/// and `unconfirmed` fields, both required.
pub open spec fn spec_decode_balance(v: ResponseValue) -> Result<AddressBalance, QueryError> {
    match v {
        ResponseValue::Object(fields) => match (
            spec_find_field(fields@, "confirmed"@),
            spec_find_field(fields@, "unconfirmed"@),
        ) {
            (Some(c), Some(u)) => match (spec_as_u64(c), spec_as_u64(u)) {
                (Some(confirmed), Some(unconfirmed)) => Ok(
                    AddressBalance { confirmed, unconfirmed },
                ),
                _ => Err(QueryError::MalformedResponse),
            },
            _ => Err(QueryError::MalformedResponse),
        },
        _ => Err(QueryError::MalformedResponse),
    }
}

/// Decodes a balance response. A response missing `confirmed` or
/// `unconfirmed` yields `MalformedResponse`, never a zero-filled balance.
pub fn decode_balance_response(v: &ResponseValue) -> (r: Result<AddressBalance, QueryError>)
    ensures
        r == spec_decode_balance(*v),
{
    match v {
        ResponseValue::Object(fields) => {
            let confirmed_name = String::from_str("confirmed");
            let unconfirmed_name = String::from_str("unconfirmed");
            match (find_field(fields, &confirmed_name), find_field(fields, &unconfirmed_name)) {
                (Some(c), Some(u)) => match (c, u) {
                    (ResponseValue::UInt(confirmed), ResponseValue::UInt(unconfirmed)) => Ok(
                        AddressBalance { confirmed: *confirmed, unconfirmed: *unconfirmed },
                    ),
                    _ => Err(QueryError::MalformedResponse),
                },
                _ => Err(QueryError::MalformedResponse),
            }
        },
        _ => Err(QueryError::MalformedResponse),
    }
}

/// The history entry a response element decodes to: an object with a
/// signed `height` (negative for mempool entries) and a `tx_hash` string,
/// both required.
pub open spec fn spec_decode_history_entry(v: ResponseValue) -> Result<
    HistoricalTransaction,
    QueryError,
> {
    match v {
        ResponseValue::Object(fields) => match (
            spec_find_field(fields@, "height"@),
            spec_find_field(fields@, "tx_hash"@),
        ) {
            (Some(h), Some(ResponseValue::Text(t))) => match spec_as_i64(h) {
                Some(height) => Ok(HistoricalTransaction { height, tx_hash: t }),
                None => Err(QueryError::MalformedResponse),
            },
            _ => Err(QueryError::MalformedResponse),
        },
        _ => Err(QueryError::MalformedResponse),
    }
}

/// Decodes one history entry. A negative height decodes successfully and
/// is preserved.
pub fn decode_history_entry(v: &ResponseValue) -> (r: Result<HistoricalTransaction, QueryError>)
    ensures
        r == spec_decode_history_entry(*v),
{
    match v {
        ResponseValue::Object(fields) => {
            let height_name = String::from_str("height");
            let tx_hash_name = String::from_str("tx_hash");
            match (find_field(fields, &height_name), find_field(fields, &tx_hash_name)) {
                (Some(h), Some(ResponseValue::Text(t))) => {
                    let height: i64 = match h {
                        ResponseValue::UInt(n) => {
                            if *n <= i64::MAX as u64 {
                                *n as i64
                            } else {
                                return Err(QueryError::MalformedResponse);
                            }
                        },
                        ResponseValue::Int(n) => *n,
                        _ => {
                            return Err(QueryError::MalformedResponse);
                        },
                    };
                    Ok(HistoricalTransaction { height, tx_hash: t.clone() })
                },
                _ => Err(QueryError::MalformedResponse),
            }
        },
        _ => Err(QueryError::MalformedResponse),
    }
}

pub open spec fn spec_history_entries_ok(items: Seq<ResponseValue>) -> bool {
    forall|i: int| 0 <= i < items.len() ==> spec_decode_history_entry(#[trigger] items[i]) is Ok
}

/// The history a response decodes to: a sequence of entries, in server
/// order, every one of which must decode.
pub open spec fn spec_decode_history(v: ResponseValue) -> Result<
    Seq<HistoricalTransaction>,
    QueryError,
> {
    match v {
        ResponseValue::Array(items) => if spec_history_entries_ok(items@) {
            Ok(Seq::new(items@.len(), |i: int| spec_decode_history_entry(items@[i])->Ok_0))
        } else {
            Err(QueryError::MalformedResponse)
        },
        _ => Err(QueryError::MalformedResponse),
    }
}

/// Decodes a history response, preserving the server's order.
pub fn decode_history_response(v: &ResponseValue) -> (r: Result<
    Vec<HistoricalTransaction>,
    QueryError,
>)
    ensures
        r is Ok <==> spec_decode_history(*v) is Ok,
        r is Ok ==> r->Ok_0@ == spec_decode_history(*v)->Ok_0,
        r is Err ==> r->Err_0 == spec_decode_history(*v)->Err_0,
{
    match v {
        ResponseValue::Array(items) => {
            let mut out: Vec<HistoricalTransaction> = Vec::new();
            let mut i: usize = 0;
            while i < items.len()
                invariant
                    *v == ResponseValue::Array(*items),
                    i <= items.len(),
                    out@.len() == i,
                    forall|j: int|
                        0 <= j < i ==> spec_decode_history_entry(#[trigger] items@[j]) is Ok,
                    forall|j: int|
                        0 <= j < i ==> out@[j] == spec_decode_history_entry(
                            #[trigger] items@[j],
                        )->Ok_0,
                decreases items.len() - i,
            {
                match decode_history_entry(&items[i]) {
                    Ok(entry) => {
                        out.push(entry);
                    },
                    Err(e) => {
                        proof {
                            assert(spec_decode_history_entry(items@[i as int]) is Err);
                            assert(!spec_history_entries_ok(items@));
                            assert(*v == ResponseValue::Array(*items));
                            assert(e == QueryError::MalformedResponse);
                        }
                        return Err(e);
                    },
                }
                i += 1;
            }
            proof {
                assert(out@ =~= Seq::new(
                    items@.len(),
                    |k: int| spec_decode_history_entry(items@[k])->Ok_0,
                ));
            }
            Ok(out)
        },
        _ => Err(QueryError::MalformedResponse),
    }
}

/// The unspent output a response element decodes to: an object with
/// unsigned `height`, `tx_pos` and `value` fields and a `tx_hash` string,
/// all required.
pub open spec fn spec_decode_utxo(v: ResponseValue) -> Result<Utxo, QueryError> {
    match v {
        ResponseValue::Object(fields) => match (
            spec_find_field(fields@, "height"@),
            spec_find_field(fields@, "tx_hash"@),
            spec_find_field(fields@, "tx_pos"@),
            spec_find_field(fields@, "value"@),
        ) {
            (Some(h), Some(ResponseValue::Text(t)), Some(p), Some(val)) => match (
                spec_as_u64(h),
                spec_as_u64(p),
                spec_as_u64(val),
            ) {
                (Some(height), Some(tx_pos), Some(value)) => Ok(
                    Utxo { height, tx_hash: t, tx_pos, value },
                ),
                _ => Err(QueryError::MalformedResponse),
            },
            _ => Err(QueryError::MalformedResponse),
        },
        _ => Err(QueryError::MalformedResponse),
    }
}

/// Decodes one unspent output entry.
pub fn decode_utxo(v: &ResponseValue) -> (r: Result<Utxo, QueryError>)
    ensures
        r == spec_decode_utxo(*v),
{
    match v {
        ResponseValue::Object(fields) => {
            let height_name = String::from_str("height");
            let tx_hash_name = String::from_str("tx_hash");
            let tx_pos_name = String::from_str("tx_pos");
            let value_name = String::from_str("value");
            match (
                find_field(fields, &height_name),
                find_field(fields, &tx_hash_name),
                find_field(fields, &tx_pos_name),
                find_field(fields, &value_name),
            ) {
                (Some(h), Some(ResponseValue::Text(t)), Some(p), Some(val)) => match (
                    h,
                    p,
                    val,
                ) {
                    (
                        ResponseValue::UInt(height),
                        ResponseValue::UInt(tx_pos),
                        ResponseValue::UInt(value),
                    ) => Ok(
                        Utxo {
                            height: *height,
                            tx_hash: t.clone(),
                            tx_pos: *tx_pos,
                            value: *value,
                        },
                    ),
                    _ => Err(QueryError::MalformedResponse),
                },
                _ => Err(QueryError::MalformedResponse),
            }
        },
        _ => Err(QueryError::MalformedResponse),
    }
}

pub open spec fn spec_utxo_entries_ok(items: Seq<ResponseValue>) -> bool {
    forall|i: int| 0 <= i < items.len() ==> spec_decode_utxo(#[trigger] items[i]) is Ok
}

/// The unspent outputs a response decodes to: a sequence of entries, in
/// server order, every one of which must decode.
pub open spec fn spec_decode_unspent(v: ResponseValue) -> Result<Seq<Utxo>, QueryError> {
    match v {
        ResponseValue::Array(items) => if spec_utxo_entries_ok(items@) {
            Ok(Seq::new(items@.len(), |i: int| spec_decode_utxo(items@[i])->Ok_0))
        } else {
            Err(QueryError::MalformedResponse)
        },
        _ => Err(QueryError::MalformedResponse),
    }
}

/// Decodes a list-unspent response, preserving the server's order.
pub fn decode_unspent_response(v: &ResponseValue) -> (r: Result<Vec<Utxo>, QueryError>)
    ensures
        r is Ok <==> spec_decode_unspent(*v) is Ok,
        r is Ok ==> r->Ok_0@ == spec_decode_unspent(*v)->Ok_0,
        r is Err ==> r->Err_0 == spec_decode_unspent(*v)->Err_0,
{
    match v {
        ResponseValue::Array(items) => {
            let mut out: Vec<Utxo> = Vec::new();
            let mut i: usize = 0;
            while i < items.len()
                invariant
                    *v == ResponseValue::Array(*items),
                    i <= items.len(),
                    out@.len() == i,
                    forall|j: int| 0 <= j < i ==> spec_decode_utxo(#[trigger] items@[j]) is Ok,
                    forall|j: int|
                        0 <= j < i ==> out@[j] == spec_decode_utxo(#[trigger] items@[j])->Ok_0,
                decreases items.len() - i,
            {
                match decode_utxo(&items[i]) {
                    Ok(entry) => {
                        out.push(entry);
                    },
                    Err(e) => {
                        proof {
                            assert(spec_decode_utxo(items@[i as int]) is Err);
                            assert(!spec_utxo_entries_ok(items@));
                            assert(*v == ResponseValue::Array(*items));
                            assert(e == QueryError::MalformedResponse);
                        }
                        return Err(e);
                    },
                }
                i += 1;
            }
            proof {
                assert(out@ =~= Seq::new(items@.len(), |k: int| spec_decode_utxo(items@[k])->Ok_0));
            }
            Ok(out)
        },
        _ => Err(QueryError::MalformedResponse),
    }
}

/// Re-serializes a balance. Decoding the result gives the balance back:
/// both numeric fields are preserved exactly.
pub fn encode_balance(balance: &AddressBalance) -> (r: ResponseValue)
    ensures
        spec_decode_balance(r) == Ok::<AddressBalance, QueryError>(*balance),
{
    let mut fields: Vec<(String, ResponseValue)> = Vec::new();
    fields.push((String::from_str("confirmed"), ResponseValue::UInt(balance.confirmed)));
    fields.push((String::from_str("unconfirmed"), ResponseValue::UInt(balance.unconfirmed)));
    proof {
        reveal_strlit("confirmed");
        reveal_strlit("unconfirmed");
        assert("confirmed"@.len() == 9);
        assert("unconfirmed"@.len() == 11);
        assert("confirmed"@ != "unconfirmed"@);
        assert(fields@.skip(1)[0] == fields@[1]);
        assert(spec_find_field(fields@, "confirmed"@) == Some(fields@[0].1));
        assert(spec_find_field(fields@.skip(1), "unconfirmed"@) == Some(fields@[1].1));
        assert(spec_find_field(fields@, "unconfirmed"@) == Some(fields@[1].1));
    }
    ResponseValue::Object(fields)
}

/// Re-serializes one history entry. Decoding the result gives the entry
/// back: the height, negative or not, is preserved exactly.
pub fn encode_history_entry(entry: &HistoricalTransaction) -> (r: ResponseValue)
    ensures
        spec_decode_history_entry(r) == Ok::<HistoricalTransaction, QueryError>(*entry),
{
    let height_value = if entry.height >= 0 {
        ResponseValue::UInt(entry.height as u64)
    } else {
        ResponseValue::Int(entry.height)
    };
    let mut fields: Vec<(String, ResponseValue)> = Vec::new();
    fields.push((String::from_str("height"), height_value));
    fields.push((String::from_str("tx_hash"), ResponseValue::Text(entry.tx_hash.clone())));
    proof {
        reveal_strlit("height");
        reveal_strlit("tx_hash");
        assert("height"@.len() == 6);
        assert("tx_hash"@.len() == 7);
        assert("height"@ != "tx_hash"@);
        assert(fields@.skip(1)[0] == fields@[1]);
        assert(spec_find_field(fields@, "height"@) == Some(fields@[0].1));
        assert(spec_find_field(fields@.skip(1), "tx_hash"@) == Some(fields@[1].1));
        assert(spec_find_field(fields@, "tx_hash"@) == Some(fields@[1].1));
        assert(spec_as_i64(fields@[0].1) == Some(entry.height));
    }
    ResponseValue::Object(fields)
}

/// Re-serializes a transaction history. Decoding the result gives the
/// same entries in the same order.
pub fn encode_history(entries: &Vec<HistoricalTransaction>) -> (r: ResponseValue)
    ensures
        spec_decode_history(r) == Ok::<Seq<HistoricalTransaction>, QueryError>(entries@),
{
    let mut items: Vec<ResponseValue> = Vec::new();
    let mut i: usize = 0;
    while i < entries.len()
        invariant
            i <= entries.len(),
            items@.len() == i,
            forall|j: int|
                0 <= j < i ==> spec_decode_history_entry(#[trigger] items@[j]) == Ok::<
                    HistoricalTransaction,
                    QueryError,
                >(entries@[j]),
        decreases entries.len() - i,
    {
        let item = encode_history_entry(&entries[i]);
        items.push(item);
        i += 1;
    }
    proof {
        assert(spec_history_entries_ok(items@));
        assert(Seq::new(items@.len(), |k: int| spec_decode_history_entry(items@[k])->Ok_0)
            =~= entries@);
    }
    ResponseValue::Array(items)
}

/// Re-serializes one unspent output. Decoding the result gives the output
/// back: all three numeric fields are preserved exactly.
pub fn encode_utxo(utxo: &Utxo) -> (r: ResponseValue)
    ensures
        spec_decode_utxo(r) == Ok::<Utxo, QueryError>(*utxo),
{
    let mut fields: Vec<(String, ResponseValue)> = Vec::new();
    fields.push((String::from_str("height"), ResponseValue::UInt(utxo.height)));
    fields.push((String::from_str("tx_hash"), ResponseValue::Text(utxo.tx_hash.clone())));
    fields.push((String::from_str("tx_pos"), ResponseValue::UInt(utxo.tx_pos)));
    fields.push((String::from_str("value"), ResponseValue::UInt(utxo.value)));
    proof {
        reveal_strlit("height");
        reveal_strlit("tx_hash");
        reveal_strlit("tx_pos");
        reveal_strlit("value");
        assert("height"@.len() == 6);
        assert("tx_hash"@.len() == 7);
        assert("tx_pos"@.len() == 6);
        assert("value"@.len() == 5);
        assert("height"@[0] == 'h' && "tx_pos"@[0] == 't');
        assert("height"@ != "tx_hash"@);
        assert("height"@ != "tx_pos"@);
        assert("height"@ != "value"@);
        assert("tx_hash"@ != "tx_pos"@);
        assert("tx_hash"@ != "value"@);
        assert("tx_pos"@ != "value"@);
        assert(fields@.skip(1)[0] == fields@[1]);
        assert(fields@.skip(1).skip(1) =~= fields@.skip(2));
        assert(fields@.skip(2)[0] == fields@[2]);
        assert(fields@.skip(2).skip(1) =~= fields@.skip(3));
        assert(fields@.skip(3)[0] == fields@[3]);
        assert(spec_find_field(fields@, "height"@) == Some(fields@[0].1));
        assert(spec_find_field(fields@.skip(1), "tx_hash"@) == Some(fields@[1].1));
        assert(spec_find_field(fields@, "tx_hash"@) == Some(fields@[1].1));
        assert(spec_find_field(fields@.skip(2), "tx_pos"@) == Some(fields@[2].1));
        assert(spec_find_field(fields@.skip(1), "tx_pos"@) == Some(fields@[2].1));
        assert(spec_find_field(fields@, "tx_pos"@) == Some(fields@[2].1));
        assert(spec_find_field(fields@.skip(3), "value"@) == Some(fields@[3].1));
        assert(spec_find_field(fields@.skip(2), "value"@) == Some(fields@[3].1));
        assert(spec_find_field(fields@.skip(1), "value"@) == Some(fields@[3].1));
        assert(spec_find_field(fields@, "value"@) == Some(fields@[3].1));
    }
    ResponseValue::Object(fields)
}

/// Re-serializes a list of unspent outputs. Decoding the result gives the
/// same outputs in the same order.
pub fn encode_unspent(utxos: &Vec<Utxo>) -> (r: ResponseValue)
    ensures
        spec_decode_unspent(r) == Ok::<Seq<Utxo>, QueryError>(utxos@),
{
    let mut items: Vec<ResponseValue> = Vec::new();
    let mut i: usize = 0;
    while i < utxos.len()
        invariant
            i <= utxos.len(),
            items@.len() == i,
            forall|j: int|
                0 <= j < i ==> spec_decode_utxo(#[trigger] items@[j]) == Ok::<Utxo, QueryError>(
                    utxos@[j],
                ),
        decreases utxos.len() - i,
    {
        let item = encode_utxo(&utxos[i]);
        items.push(item);
        i += 1;
    }
    proof {
        assert(spec_utxo_entries_ok(items@));
        assert(Seq::new(items@.len(), |k: int| spec_decode_utxo(items@[k])->Ok_0) =~= utxos@);
    }
    ResponseValue::Array(items)
}

/// One server query: its wire method name and its parameters. A command
/// is immutable once constructed; each variant owns the decoding of
/// exactly one response shape.
#[derive(Debug)]
pub enum ProtocolCommand {
    /// `blockchain.relayfee`: no parameters; the response, a single
    /// fractional fee rate, is decoded by the caller of the transport.
    RelayFee,
    /// `blockchain.scripthash.get_balance`, decoded by
    /// `decode_balance_response`.
    GetBalance { script_hash: String },
    /// `blockchain.scripthash.get_history`, decoded by
    /// `decode_history_response`.
    GetHistory { script_hash: String },
    /// `blockchain.scripthash.listunspent`, decoded by
    /// `decode_unspent_response`.
    ListUnspent { script_hash: String },
}

pub open spec fn spec_method_name(c: ProtocolCommand) -> Seq<char> {
    match c {
        ProtocolCommand::RelayFee => "blockchain.relayfee"@,
        ProtocolCommand::GetBalance { .. } => "blockchain.scripthash.get_balance"@,
        ProtocolCommand::GetHistory { .. } => "blockchain.scripthash.get_history"@,
        ProtocolCommand::ListUnspent { .. } => "blockchain.scripthash.listunspent"@,
    }
}

/// The parameter list of a command: none for the relay fee, else the one
/// protocol-order script hash.
pub open spec fn spec_params(c: ProtocolCommand) -> Seq<Seq<char>> {
    match c {
        ProtocolCommand::RelayFee => Seq::empty(),
        ProtocolCommand::GetBalance { script_hash } => seq![script_hash@],
        ProtocolCommand::GetHistory { script_hash } => seq![script_hash@],
        ProtocolCommand::ListUnspent { script_hash } => seq![script_hash@],
    }
}

impl ProtocolCommand {
    /// The wire method name of this command.
    pub fn method_name(&self) -> (r: &'static str)
        ensures
            r@ == spec_method_name(*self),
    {
        match self {
            ProtocolCommand::RelayFee => "blockchain.relayfee",
            ProtocolCommand::GetBalance { .. } => "blockchain.scripthash.get_balance",
            ProtocolCommand::GetHistory { .. } => "blockchain.scripthash.get_history",
            ProtocolCommand::ListUnspent { .. } => "blockchain.scripthash.listunspent",
        }
    }

    /// The request parameters of this command, in order.
    pub fn params(&self) -> (r: Vec<String>)
        ensures
            r@.len() == spec_params(*self).len(),
            forall|i: int| 0 <= i < r@.len() ==> r@[i]@ == spec_params(*self)[i],
    {
        match self {
            ProtocolCommand::RelayFee => Vec::new(),
            ProtocolCommand::GetBalance { script_hash } => {
                let mut params: Vec<String> = Vec::new();
                params.push(script_hash.clone());
                params
            },
            ProtocolCommand::GetHistory { script_hash } => {
                let mut params: Vec<String> = Vec::new();
                params.push(script_hash.clone());
                params
            },
            ProtocolCommand::ListUnspent { script_hash } => {
                let mut params: Vec<String> = Vec::new();
                params.push(script_hash.clone());
                params
            },
        }
    }
}

} // verus!
