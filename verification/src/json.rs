//! JSON text, as `serde_json` reads and writes it.

use crate::record::{record_view, Field, Record};
use std::collections::BTreeMap;
use vstd::prelude::*;

verus! {

/// `serde_json::Error`: why a text was not read, or a value not written. It
/// is carried as it comes; nothing is claimed of what it holds.
#[verifier::external_type_specification]
#[verifier::external_body]
pub struct ExJsonError(serde_json::Error);

/// What `serde_json::from_slice` reads from `text` as a map from names to
/// arrays of bytes: the fields of the JSON object in the order of their
/// names, a repeated name keeping the value that came last. `None` where it
/// rejects `text`.
pub uninterp spec fn json_record(text: Seq<u8>) -> Option<Record>;

/// What `serde_json` writes for `record` as a map: one JSON object that
/// lists the fields in their order, each value as an array of numbers. `None`
/// where the encoder gives up.
pub uninterp spec fn json_object(record: Record) -> Option<Seq<u8>>;

/// Reads `text` with `serde_json::from_slice` as a
/// `BTreeMap<String, Vec<u8>>` and hands out the map's entries in the map's
/// order.
///
/// Trusted: whether the text is accepted, and the fields that come out of
/// it, depend on nothing but the text.
#[verifier::external_body]
pub(crate) fn parse_record(text: &[u8]) -> (parsed: Result<Vec<Field>, serde_json::Error>)
    ensures
        match parsed {
            Ok(fields) => json_record(text@) == Some(record_view(fields@)),
            Err(_) => json_record(text@) is None,
        },
{
    let map: BTreeMap<String, Vec<u8>> = serde_json::from_slice(text)?;
    Ok(map.into_iter().map(|(name, value)| Field { name, value }).collect())
}

/// Writes `fields` as one JSON object with `serde::Serializer::collect_map`
/// on a `serde_json::Serializer` that fills a byte vector.
///
/// Trusted: whether the encoder succeeds, and the text that it writes,
/// depend on nothing but the fields' names and values.
#[verifier::external_body]
pub(crate) fn write_record(fields: &Vec<Field>) -> (written: Result<Vec<u8>, serde_json::Error>)
    ensures
        match written {
            Ok(text) => json_object(record_view(fields@)) == Some(text@),
            Err(_) => json_object(record_view(fields@)) is None,
        },
{
    let mut text: Vec<u8> = Vec::new();
    let mut writer = serde_json::Serializer::new(&mut text);
    serde::Serializer::collect_map(&mut writer, fields.iter().map(|f| (&f.name, &f.value)))?;
    Ok(text)
}

} // verus!
