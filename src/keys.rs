//! The key table that primes the protocol decoder: a JSON object from
//! command id to base64 text, decoded to id -> secret bytes.

use std::collections::{BTreeMap, HashMap};
use vstd::prelude::*;

verus! {

#[verifier::external_type_specification]
#[verifier::external_body]
pub struct ExJsonError(serde_json::Error);

#[verifier::external_type_specification]
#[verifier::external_body]
pub struct ExDecodeError(base64::DecodeError);

/// Why a key table could not be loaded.
#[derive(Clone, Copy, Debug, PartialEq, Eq, Structural)]
pub enum KeyTableError {
    /// The text is not a JSON object from integer ids to strings.
    Json,
    /// The entry of this id is not valid base64.
    Base64 { id: u16 },
}

/// The entries of a JSON object from `u16` ids to strings, in the order in
/// which the parser hands them out; `None` where the text is no such object.
pub uninterp spec fn key_table_entries(json: Seq<u8>) -> Option<Seq<(u16, Seq<char>)>>;

/// The bytes that a standard base64 text stands for; `None` where it is not
/// valid base64.
pub uninterp spec fn base64_decoded(text: Seq<char>) -> Option<Seq<u8>>;

/// The views of key table entries.
pub open spec fn entry_views(v: Seq<(u16, String)>) -> Seq<(u16, Seq<char>)> {
    v.map_values(|e: (u16, String)| (e.0, e.1@))
}

/// The table that `entries` give, each decoded and inserted in order, or
/// the id of the first entry that does not decode.
pub open spec fn decode_all(entries: Seq<(u16, Seq<char>)>) -> Result<Map<u16, Seq<u8>>, u16>
    decreases entries.len(),
{
    if entries.len() == 0 {
        Ok(Map::empty())
    } else {
        match decode_all(entries.drop_last()) {
            Err(id) => Err(id),
            Ok(m) => match base64_decoded(entries.last().1) {
                Some(b) => Ok(m.insert(entries.last().0, b)),
                None => Err(entries.last().0),
            },
        }
    }
}

/// The views of a decoded table.
pub open spec fn table_view(t: HashMap<u16, Vec<u8>>) -> Map<u16, Seq<u8>> {
    t@.map_values(|v: Vec<u8>| v@)
}

/// Relies on `serde_json::from_slice` into a `BTreeMap<u16, String>`: the
/// object's entries, or an error where the text is no such object.
#[verifier::external_body]
fn parse_key_table(json: &[u8]) -> (r: Result<Vec<(u16, String)>, serde_json::Error>)
    ensures
        match r {
            Ok(v) => key_table_entries(json@) == Some(entry_views(v@)),
            Err(_) => key_table_entries(json@) is None,
        },
{
    match serde_json::from_slice::<BTreeMap<u16, String>>(json) {
        Ok(m) => Ok(m.into_iter().collect()),
        Err(e) => Err(e),
    }
}

/// Relies on base64's `Engine::decode` with the standard engine: the bytes
/// that the text stands for, or an error where it is not valid base64.
#[verifier::external_body]
fn decode_base64(text: &str) -> (r: Result<Vec<u8>, base64::DecodeError>)
    ensures
        match r {
            Ok(b) => base64_decoded(text@) == Some(b@),
            Err(_) => base64_decoded(text@) is None,
        },
{
    base64::Engine::decode(&base64::engine::general_purpose::STANDARD, text)
}

/// Once a prefix of the entries fails to decode, so do all of them, with
/// the same id.
proof fn lemma_decode_all_err(entries: Seq<(u16, Seq<char>)>, i: int)
    requires
        0 <= i <= entries.len(),
        decode_all(entries.take(i)) is Err,
    ensures
        decode_all(entries) == decode_all(entries.take(i)),
    decreases entries.len() - i,
{
    if i < entries.len() {
        assert(entries.take(i + 1).drop_last() == entries.take(i));
        lemma_decode_all_err(entries, i + 1);
    } else {
        assert(entries.take(i) == entries);
    }
}

/// Decodes the entries of a parsed key table, in order; fails on the first
/// entry that is not valid base64.
pub fn decode_key_entries(entries: Vec<(u16, String)>) -> (r: Result<HashMap<u16, Vec<u8>>, KeyTableError>)
    ensures
        match decode_all(entry_views(entries@)) {
            Ok(m) => r matches Ok(t) && table_view(t) == m,
            Err(id) => r == Err::<HashMap<u16, Vec<u8>>, KeyTableError>(KeyTableError::Base64 { id }),
        },
{
    let ghost es = entry_views(entries@);
    let mut table: HashMap<u16, Vec<u8>> = HashMap::new();
    let mut i: usize = 0;
    proof {
        assert(table_view(table) =~= Map::<u16, Seq<u8>>::empty());
        assert(es.take(0) =~= Seq::<(u16, Seq<char>)>::empty());
    }
    while i < entries.len()
        invariant
            i <= entries.len(),
            es == entry_views(entries@),
            decode_all(es.take(i as int)) == Ok::<Map<u16, Seq<u8>>, u16>(table_view(table)),
        decreases entries.len() - i,
    {
        proof {
            assert(es.take(i + 1).drop_last() == es.take(i as int));
        }
        let id = entries[i].0;
        match decode_base64(entries[i].1.as_str()) {
            Ok(bytes) => {
                let ghost prev = table_view(table);
                let ghost b = bytes@;
                table.insert(id, bytes);
                proof {
                    assert(table_view(table) =~= prev.insert(id, b));
                }
            },
            Err(_) => {
                proof {
                    lemma_decode_all_err(es, i + 1);
                }
                return Err(KeyTableError::Base64 { id });
            },
        }
        i += 1;
    }
    proof {
        assert(es.take(i as int) == es);
    }
    Ok(table)
}

/// Loads the key table from its JSON text.
pub fn load_keys(json: &[u8]) -> (r: Result<HashMap<u16, Vec<u8>>, KeyTableError>)
    ensures
        match key_table_entries(json@) {
            None => r == Err::<HashMap<u16, Vec<u8>>, KeyTableError>(KeyTableError::Json),
            Some(es) => match decode_all(es) {
                Ok(m) => r matches Ok(t) && table_view(t) == m,
                Err(id) => r == Err::<HashMap<u16, Vec<u8>>, KeyTableError>(KeyTableError::Base64 { id }),
            },
        },
{
    match parse_key_table(json) {
        Ok(entries) => decode_key_entries(entries),
        Err(_) => Err(KeyTableError::Json),
    }
}

} // verus!
