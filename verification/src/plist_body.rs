//! The binary property lists of PIN pairing: writing the two-entry
//! dictionaries the controller sends and reading fields of the receiver's
//! replies, through the `plist` crate.

use vstd::prelude::*;

use crate::crypto::{base64_padded_decode, base64_padded_decoded, base64_unpadded_decode, base64_unpadded_decoded};
use crate::error::AirPlayError;
use crate::text::push_str;

verus! {

/// One field of a property list reply.
#[derive(Debug, Clone, PartialEq, Eq)]
pub enum PlistField {
    /// The bytes are not a property list.
    NotPlist,
    /// The property list is not a dictionary.
    NotDictionary,
    /// The dictionary has no such key.
    Missing,
    Data(Vec<u8>),
    Text(String),
    /// The value has another type.
    OtherType,
}

/// A property list field as plain values.
pub enum PlistFieldView {
    NotPlist,
    NotDictionary,
    Missing,
    Data(Seq<u8>),
    Text(Seq<char>),
    OtherType,
}

impl View for PlistField {
    type V = PlistFieldView;

    open spec fn view(&self) -> PlistFieldView {
        match self {
            PlistField::NotPlist => PlistFieldView::NotPlist,
            PlistField::NotDictionary => PlistFieldView::NotDictionary,
            PlistField::Missing => PlistFieldView::Missing,
            PlistField::Data(d) => PlistFieldView::Data(d@),
            PlistField::Text(t) => PlistFieldView::Text(t@),
            PlistField::OtherType => PlistFieldView::OtherType,
        }
    }
}

/// The binary property list of the dictionary { `k1`: `v1`, `k2`: `v2` }
/// with string values, keys in that order.
pub uninterp spec fn binary_plist_of_strings(k1: Seq<char>, v1: Seq<char>, k2: Seq<char>, v2: Seq<char>) -> Seq<u8>;

/// The binary property list of the dictionary { `k1`: `d1`, `k2`: `d2` }
/// with data values, keys in that order.
pub uninterp spec fn binary_plist_of_data(k1: Seq<char>, d1: Seq<u8>, k2: Seq<char>, d2: Seq<u8>) -> Seq<u8>;

/// The field `field` of the property list in `body`, as
/// `plist::Value::from_reader` reads it (any of its encodings).
pub uninterp spec fn plist_field_of(body: Seq<u8>, field: Seq<char>) -> PlistFieldView;

/// `Value::Dictionary` of two string entries written with
/// `to_writer_binary` into memory. Writing into a vector does not fail.
#[verifier::external_body]
pub(crate) fn encode_plist_strings(k1: &str, v1: &str, k2: &str, v2: &str) -> (r: Option<Vec<u8>>)
    ensures
        r is Some,
        r matches Some(b) ==> b@ == binary_plist_of_strings(k1@, v1@, k2@, v2@),
{
    let mut dictionary = plist::Dictionary::new();
    dictionary.insert(k1.to_string(), plist::Value::String(v1.to_string()));
    dictionary.insert(k2.to_string(), plist::Value::String(v2.to_string()));
    let mut out = Vec::new();
    plist::Value::Dictionary(dictionary).to_writer_binary(&mut out).ok().map(|()| out)
}

/// `Value::Dictionary` of two data entries written with
/// `to_writer_binary` into memory. Writing into a vector does not fail.
#[verifier::external_body]
pub(crate) fn encode_plist_data(k1: &str, d1: &[u8], k2: &str, d2: &[u8]) -> (r: Option<Vec<u8>>)
    ensures
        r is Some,
        r matches Some(b) ==> b@ == binary_plist_of_data(k1@, d1@, k2@, d2@),
{
    let mut dictionary = plist::Dictionary::new();
    dictionary.insert(k1.to_string(), plist::Value::Data(d1.to_vec()));
    dictionary.insert(k2.to_string(), plist::Value::Data(d2.to_vec()));
    let mut out = Vec::new();
    plist::Value::Dictionary(dictionary).to_writer_binary(&mut out).ok().map(|()| out)
}

/// `Value::from_reader(body)`, `into_dictionary`, then the entry `field`
/// taken out of the dictionary: the field of a property list reply.
#[verifier::external_body]
pub(crate) fn plist_field(body: &[u8], field: &str) -> (r: PlistField)
    ensures
        r@ == plist_field_of(body@, field@),
{
    match plist::Value::from_reader(std::io::Cursor::new(body)) {
        Err(_) => PlistField::NotPlist,
        Ok(value) => match value.into_dictionary() {
            None => PlistField::NotDictionary,
            Some(mut dictionary) => match dictionary.remove(field) {
                None => PlistField::Missing,
                Some(plist::Value::Data(data)) => PlistField::Data(data),
                Some(plist::Value::String(text)) => PlistField::Text(text),
                Some(_) => PlistField::OtherType,
            },
        },
    }
}

/// The bytes of field `field` of a reply: data as it is, text as padded or
/// unpadded Base64.
pub open spec fn plist_data_of(body: Seq<u8>, field: Seq<char>) -> Option<Seq<u8>> {
    match plist_field_of(body, field) {
        PlistFieldView::Data(d) => Some(d),
        PlistFieldView::Text(t) => match base64_padded_decoded(t) {
            Some(b) => Some(b),
            None => base64_unpadded_decoded(t),
        },
        _ => None,
    }
}

/// A protocol error `"<path><what><field><tail>"`.
fn plist_error(path: &str, what: &str, field_name: &str, tail: &str) -> (e: AirPlayError)
    ensures
        e matches AirPlayError::Protocol { message } && message@ == path@ + what@ + field_name@ + tail@,
{
    let mut message = String::from_str(path);
    push_str(&mut message, what);
    push_str(&mut message, field_name);
    push_str(&mut message, tail);
    AirPlayError::Protocol { message }
}

/// The bytes of field `field_name` of the property list reply from `path`;
/// anything else is a protocol error.
pub fn plist_data_field(body: &[u8], field_name: &str, path: &str) -> (r: Result<Vec<u8>, AirPlayError>)
    ensures
        match plist_data_of(body@, field_name@) {
            Some(d) => r matches Ok(v) && v@ == d,
            None => r matches Err(AirPlayError::Protocol { .. }),
        },
{
    match plist_field(body, field_name) {
        PlistField::Data(data) => Ok(data),
        PlistField::Text(text) => match base64_padded_decode(text.as_str()) {
            Some(b) => Ok(b),
            None => match base64_unpadded_decode(text.as_str()) {
                Some(b) => Ok(b),
                None => Err(plist_error(path, " 字段 ", field_name, " 不是有效 Base64 数据")),
            },
        },
        PlistField::OtherType => Err(plist_error(path, " 字段 ", field_name, " 类型无效")),
        PlistField::Missing => Err(plist_error(path, " 缺少字段 ", field_name, "")),
        PlistField::NotPlist => Err(plist_error(path, " 返回了无效 binary plist", "", "")),
        PlistField::NotDictionary => Err(plist_error(path, " 返回的 binary plist 不是 dictionary", "", "")),
    }
}

} // verus!
