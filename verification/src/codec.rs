//! The canonical binary encoding (DAG-CBOR) and the human-readable one
//! (DAG-JSON) of the data model, as the libipld crate computes them.

use vstd::prelude::*;
use vstd::utf8::{decode_utf8, valid_utf8};
use crate::cid::{Cid, CidVersion};
use crate::frame::{framed, well_framed};
use crate::value::{readable, Value, ValueMap, ValueView};
use libipld::Ipld as Outside;

verus! {

/// The canonical encoder takes every value but one that holds an integer
/// beyond what 64 bits and a sign can say.
pub open spec fn encodable(v: ValueView) -> bool
    decreases v,
{
    match v {
        ValueView::Integer(i) => -0x1_0000_0000_0000_0000 <= i <= 0xffff_ffff_ffff_ffff,
        ValueView::List(items) => forall|i: int|
            0 <= i < items.len() ==> encodable(#[trigger] items[i]),
        ValueView::StringMap(m) => forall|k: Seq<char>|
            m.contains_key(k) ==> encodable(#[trigger] m[k]),
        _ => true,
    }
}

/// The DAG-CBOR bytes of the value `v`.
pub uninterp spec fn dag_cbor_bytes(v: ValueView) -> Seq<u8>;

/// The value that the DAG-CBOR bytes `bytes` decode to, if they decode to a
/// value of the data model.
pub uninterp spec fn dag_cbor_value(bytes: Seq<u8>) -> Option<ValueView>;

/// The DAG-JSON bytes of the value `v`, if the encoder gives any.
pub uninterp spec fn dag_json_bytes(v: ValueView) -> Option<Seq<u8>>;

/// Builds libipld's `Ipld::Link` of the cid crate's identifier with the same
/// parts, which that crate takes because they are valid together.
#[verifier::external_body]
fn outside_link(cid: &Cid) -> Outside {
    let version = match cid.version {
        CidVersion::V0 => libipld::cid::Version::V0,
        CidVersion::V1 => libipld::cid::Version::V1,
    };
    let hash = libipld::multihash::Multihash::wrap(cid.hash_code, &cid.digest).unwrap();
    Outside::Link(libipld::Cid::new(version, cid.codec, hash).unwrap())
}

/// Builds the libipld value that holds what `value` holds, variant by
/// variant; the entries of a map go into libipld's `BTreeMap`.
#[verifier::external_body]
fn to_outside(value: &Value) -> Outside {
    match value {
        Value::Null => Outside::Null,
        Value::Bool(b) => Outside::Bool(*b),
        Value::Integer(i) => Outside::Integer(*i),
        Value::String(s) => Outside::String(s.clone()),
        Value::Bytes(b) => Outside::Bytes(b.clone()),
        Value::List(l) => Outside::List(l.iter().map(to_outside).collect()),
        Value::StringMap(m) => Outside::StringMap(
            m.entries.iter().map(|(k, v)| (k.clone(), to_outside(v))).collect(),
        ),
        Value::Link(cid) => outside_link(cid),
    }
}

/// Takes the parts of the identifier that a libipld `Ipld::Link` holds. The
/// constructors of the cid and multihash crates admit no digest longer than
/// 64 bytes and no version 0 identifier but of DAG-PB data by SHA2-256, so
/// the parts are valid together.
#[verifier::external_body]
fn inside_link(link: &Outside) -> Option<Cid> {
    match link {
        Outside::Link(c) => Some(Cid {
            version: match c.version() {
                libipld::cid::Version::V0 => CidVersion::V0,
                libipld::cid::Version::V1 => CidVersion::V1,
            },
            codec: c.codec(),
            hash_code: c.hash().code(),
            digest: c.hash().digest().to_vec(),
        }),
        _ => None,
    }
}

/// Builds the value that holds what the libipld value holds, variant by
/// variant, or `None` where a floating point number is in it.
#[verifier::external_body]
fn from_outside(ipld: &Outside) -> Option<Value> {
    Some(match ipld {
        Outside::Null => Value::Null,
        Outside::Bool(b) => Value::Bool(*b),
        Outside::Integer(i) => Value::Integer(*i),
        Outside::Float(_) => return None,
        Outside::String(s) => Value::String(s.clone()),
        Outside::Bytes(b) => Value::Bytes(b.clone()),
        Outside::List(l) => Value::List(l.iter().map(from_outside).collect::<Option<_>>()?),
        Outside::StringMap(_) => Value::StringMap(inside_map(ipld)?),
        Outside::Link(_) => Value::Link(inside_link(ipld)?),
    })
}

/// Takes the entries that a libipld `Ipld::StringMap` holds, in the order of
/// its `BTreeMap`, which is that of the keys' bytes; `None` where a floating
/// point number is in a value.
#[verifier::external_body]
fn inside_map(map: &Outside) -> Option<ValueMap> {
    match map {
        Outside::StringMap(m) => Some(ValueMap {
            entries: m.iter().map(|(k, v)| Some((k.clone(), from_outside(v)?))).collect::<Option<_>>()?,
        }),
        _ => None,
    }
}

/// Calls libipld's `DagCborCodec.encode` on the libipld value that holds what
/// `value` holds. The encoder's source fails on one thing only, an integer
/// beyond 64 bits and a sign; the contract says so, and names the bytes.
#[verifier::external_body]
fn dag_cbor_encode(value: &Value) -> (encoded: Result<Vec<u8>, anyhow::Error>)
    ensures
        encoded is Ok <==> encodable(value@),
        encoded matches Ok(bytes) ==> bytes@ == dag_cbor_bytes(value@),
{
    libipld::codec::Codec::encode(&libipld::cbor::DagCborCodec, &to_outside(value))
}

/// Calls libipld's `DagCborCodec.decode` and hands back the value that holds
/// what came out, or nothing where a floating point number is in it. The
/// decoder makes room for as many bytes or entries as an item announces
/// before it reads them, and calls itself for each nested list or map; on
/// well-framed input that is no more than a multiple of the input and no
/// deeper than the bound on nesting, so the call returns. The contract names
/// the result.
#[verifier::external_body]
fn dag_cbor_decode(bytes: &[u8]) -> (decoded: Result<Option<Value>, anyhow::Error>)
    requires
        framed(bytes@),
    ensures
        match decoded {
            Ok(Some(value)) => dag_cbor_value(bytes@) == Some(value@),
            _ => dag_cbor_value(bytes@) is None,
        },
{
    let decoded: Outside = libipld::codec::Codec::decode(&libipld::cbor::DagCborCodec, bytes)?;
    Ok(from_outside(&decoded))
}

/// Calls libipld's `DagJsonCodec.encode` on the libipld value that holds what
/// `value` holds. The contract names the result.
#[verifier::external_body]
fn dag_json_encode(value: &Value) -> (encoded: Result<Vec<u8>, anyhow::Error>)
    ensures
        match encoded {
            Ok(bytes) => dag_json_bytes(value@) == Some(bytes@),
            Err(_) => dag_json_bytes(value@) is None,
        },
{
    libipld::codec::Codec::encode(&libipld::json::DagJsonCodec, &to_outside(value))
}

/// Calls `String::from_utf8` of std, which gives the string of the bytes
/// where they are valid UTF-8 and fails where they are not.
#[verifier::external_body]
fn utf8_to_string(bytes: Vec<u8>) -> (text: Result<String, std::string::FromUtf8Error>)
    ensures
        text is Ok <==> valid_utf8(bytes@),
        text matches Ok(s) ==> s@ == decode_utf8(bytes@),
{
    String::from_utf8(bytes)
}

/// The canonical binary encoding of a value, or `None` where the value holds
/// an integer that the encoding cannot say.
pub fn encode(value: &Value) -> (encoded: Option<Vec<u8>>)
    ensures
        encoded is Some <==> encodable(value@),
        encoded matches Some(bytes) ==> bytes@ == dag_cbor_bytes(value@),
{
    match dag_cbor_encode(value) {
        Ok(bytes) => Some(bytes),
        Err(_) => None,
    }
}

/// The value that canonical bytes stand for: what they decode to, where they
/// are well framed.
pub open spec fn value_of(bytes: Seq<u8>) -> Option<ValueView> {
    if framed(bytes) {
        dag_cbor_value(bytes)
    } else {
        None
    }
}

/// The value that canonical bytes stand for, or `None` where they stand for
/// none: they are not well framed, or the decoder refuses them, or they hold
/// a floating point number.
pub fn decode(bytes: &[u8]) -> (decoded: Option<Value>)
    ensures
        match decoded {
            Some(value) => value_of(bytes@) == Some(value@),
            None => value_of(bytes@) is None,
        },
{
    if well_framed(bytes) {
        match dag_cbor_decode(bytes) {
            Ok(decoded) => decoded,
            Err(_) => None,
        }
    } else {
        None
    }
}

/// The human-readable rendering of a value: the text of the DAG-JSON bytes of
/// its readable form, where the encoder gives bytes and they are text.
pub open spec fn json_text(v: ValueView) -> Option<Seq<char>> {
    match dag_json_bytes(readable(v)) {
        Some(bytes) => if valid_utf8(bytes) {
            Some(decode_utf8(bytes))
        } else {
            None
        },
        None => None,
    }
}

/// The human-readable rendering of a value, in which every identifier stands
/// as a map of one key, `/`, holding its textual form.
pub fn to_json(value: &Value) -> (text: Option<String>)
    ensures
        match text {
            Some(s) => json_text(value@) == Some(s@),
            None => json_text(value@) is None,
        },
{
    let shown = value.readable();
    match dag_json_encode(&shown) {
        Ok(bytes) => match utf8_to_string(bytes) {
            Ok(text) => Some(text),
            Err(_) => None,
        },
        Err(_) => None,
    }
}

} // verus!
