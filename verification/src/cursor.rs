//! The pagination cursor handed to clients: the text attributes of the last
//! key that a page read, written as a JSON object and encoded in URL-safe
//! base64 without padding, and read back the same way.

use vstd::prelude::*;
use base64::Engine;
use vstd::utf8::encode_utf8;
use crate::errors::AppError;

verus! {

#[verifier::external_type_specification]
#[verifier::external_body]
pub struct ExDecodeError(base64::DecodeError);

#[verifier::external_type_specification]
#[verifier::external_body]
pub struct ExJsonError(serde_json::Error);

/// The URL-safe, unpadded base64 text of the UTF-8 bytes of `text`, as
/// `base64::engine::general_purpose::URL_SAFE_NO_PAD` writes it.
pub uninterp spec fn base64_url_unpadded(text: Seq<char>) -> Seq<char>;

/// The bytes that `URL_SAFE_NO_PAD` decodes from `text`, or `None` when it
/// refuses the text.
pub uninterp spec fn base64_url_unpadded_decoded(text: Seq<char>) -> Option<Seq<u8>>;

/// The JSON object text that `serde_json::to_string` writes for the string
/// map that holds `entries`.
pub uninterp spec fn json_object_text(entries: Seq<(Seq<char>, Seq<char>)>) -> Seq<char>;

/// The entries, in ascending key order, of the string map that
/// `serde_json::from_slice` reads from `bytes`, or `None` when the bytes are
/// not a JSON object of strings.
pub uninterp spec fn json_object_entries(bytes: Seq<u8>) -> Option<Seq<(Seq<char>, Seq<char>)>>;

/// No two entries have the same name.
pub open spec fn distinct_keys(entries: Seq<(Seq<char>, Seq<char>)>) -> bool {
    forall|i: int, j: int|
        0 <= i < j < entries.len() ==> #[trigger] entries[i].0 != #[trigger] entries[j].0
}

pub open spec fn pairs_view(v: Seq<(String, String)>) -> Seq<(Seq<char>, Seq<char>)> {
    v.map_values(|p: (String, String)| (p.0@, p.1@))
}

/// Calls `URL_SAFE_NO_PAD.encode` on the bytes of `text`.
#[verifier::external_body]
fn base64_url_encode(text: &str) -> (encoded: String)
    ensures
        encoded@ == base64_url_unpadded(text@),
{
    base64::engine::general_purpose::URL_SAFE_NO_PAD.encode(text)
}

/// Calls `URL_SAFE_NO_PAD.decode` on the bytes of `text`. Decoding gives back
/// the bytes that were encoded: text that `encode` wrote for some bytes
/// decodes to those bytes.
#[verifier::external_body]
fn base64_url_decode(text: &str) -> (res: Result<Vec<u8>, base64::DecodeError>)
    ensures
        res is Ok <==> base64_url_unpadded_decoded(text@) is Some,
        res matches Ok(bytes) ==> bytes@ == base64_url_unpadded_decoded(text@)->0,
        forall|s: Seq<char>|
            text@ == #[trigger] base64_url_unpadded(s) ==> res is Ok && res->Ok_0@ == encode_utf8(s),
{
    base64::engine::general_purpose::URL_SAFE_NO_PAD.decode(text)
}

/// Calls `serde_json::to_string` on the string map that holds `entries`.
/// Writing a map whose keys are strings cannot fail.
#[verifier::external_body]
fn json_object_to_string(entries: &Vec<(String, String)>) -> (res: Result<
    String,
    serde_json::Error,
>)
    requires
        distinct_keys(pairs_view(entries@)),
    ensures
        res is Ok,
        res->Ok_0@ == json_object_text(pairs_view(entries@)),
{
    let map: std::collections::BTreeMap<&str, &str> = entries.iter().map(
        |(k, v)| (k.as_str(), v.as_str()),
    ).collect();
    serde_json::to_string(&map)
}

/// Calls `serde_json::from_slice` to read a string map from `bytes`, and
/// hands out its entries in the map's (ascending) order. Reading gives back
/// what was written: the text that `to_string` wrote for a map is read back
/// as that map.
#[verifier::external_body]
fn json_object_from_slice(bytes: &[u8]) -> (res: Result<Vec<(String, String)>, serde_json::Error>)
    ensures
        res is Ok <==> json_object_entries(bytes@) is Some,
        res matches Ok(v) ==> pairs_view(v@) == json_object_entries(bytes@)->0,
        res matches Ok(v) ==> distinct_keys(pairs_view(v@)),
        forall|e: Seq<(Seq<char>, Seq<char>)>|
            distinct_keys(e) && bytes@ == encode_utf8(#[trigger] json_object_text(e)) ==> res is Ok
                && pairs_view(res->Ok_0@).to_set() == e.to_set(),
{
    serde_json::from_slice::<std::collections::BTreeMap<String, String>>(bytes).map(
        |m| m.into_iter().collect(),
    )
}

/// The names of the attributes of a key.
pub open spec fn key_names(key: Seq<(String, Option<String>)>) -> Seq<Seq<char>> {
    key.map_values(|p: (String, Option<String>)| p.0@)
}

/// No two attributes of a key have the same name.
pub open spec fn distinct_names(key: Seq<(String, Option<String>)>) -> bool {
    forall|i: int, j: int| 0 <= i < j < key.len() ==> #[trigger] key[i].0@ != #[trigger] key[j].0@
}

pub open spec fn text_entry(p: (String, Option<String>)) -> Option<(Seq<char>, Seq<char>)> {
    match p.1 {
        Some(v) => Some((p.0@, v@)),
        None => None,
    }
}

/// The text attributes of a key, in order: a cursor keeps these and drops
/// the attributes of any other kind.
pub open spec fn text_entries(key: Seq<(String, Option<String>)>) -> Seq<(Seq<char>, Seq<char>)> {
    key.filter_map(|p: (String, Option<String>)| text_entry(p))
}

/// The cursor that stands for a key.
pub open spec fn cursor_text(key: Seq<(String, Option<String>)>) -> Seq<char> {
    base64_url_unpadded(json_object_text(text_entries(key)))
}

pub open spec fn starts_with(s: Seq<char>, prefix: Seq<char>) -> bool {
    prefix.len() <= s.len() && s.take(prefix.len() as int) == prefix
}

/// The text attributes of a key whose names are distinct have distinct
/// names, and each of them is a name of the key.
pub proof fn lemma_text_entries_distinct(key: Seq<(String, Option<String>)>)
    requires
        distinct_names(key),
    ensures
        distinct_keys(text_entries(key)),
        forall|j: int|
            0 <= j < text_entries(key).len() ==> key_names(key).contains(
                #[trigger] text_entries(key)[j].0,
            ),
    decreases key.len(),
{
    if key.len() > 0 {
        let rest = key.drop_last();
        assert(distinct_names(rest));
        lemma_text_entries_distinct(rest);
        let te = text_entries(key);
        let tr = text_entries(rest);
        assert(key.filter_map(|p: (String, Option<String>)| text_entry(p)) == rest.filter_map(
            |p: (String, Option<String>)| text_entry(p),
        ) + match text_entry(key.last()) {
            Some(s) => seq![s],
            None => Seq::empty(),
        });
        assert forall|j: int| 0 <= j < te.len() implies key_names(key).contains(
            #[trigger] te[j].0,
        ) by {
            if j < tr.len() {
                assert(te[j] == tr[j]);
                let k = choose|k: int| 0 <= k < key_names(rest).len() && key_names(rest)[k] == tr[j].0;
                assert(key_names(key)[k] == tr[j].0);
            } else {
                assert(key_names(key)[key.len() - 1] == te[j].0);
            }
        }
        if text_entry(key.last()) is Some {
            assert forall|i: int, j: int| 0 <= i < j < te.len() implies #[trigger] te[i].0
                != #[trigger] te[j].0 by {
                if j == te.len() - 1 {
                    assert(te[i] == tr[i]);
                    let k = choose|k: int| 0 <= k < key_names(rest).len() && key_names(rest)[k] == tr[i].0;
                    assert(key[k].0@ != key[key.len() - 1].0@);
                } else {
                    assert(te[i] == tr[i]);
                    assert(te[j] == tr[j]);
                }
            }
        } else {
            assert(te =~= tr);
        }
    }
}

/// The cursor for `key`, whose attribute names are distinct (a key is a map
/// from names to attributes); `None` stands for an attribute that is not
/// text.
pub fn encode_cursor(key: &Vec<(String, Option<String>)>) -> (res: Result<String, AppError>)
    requires
        distinct_names(key@),
    ensures
        res matches Ok(cursor) && cursor@ == cursor_text(key@),
        distinct_keys(text_entries(key@)),
{
    let mut entries: Vec<(String, String)> = Vec::new();
    for i in 0..key.len()
        invariant
            pairs_view(entries@) == text_entries(key@.take(i as int)),
    {
        let ghost before = entries@;
        proof {
            assert(key@.take(i + 1).drop_last() =~= key@.take(i as int));
            assert(key@.take(i + 1).last() == key@[i as int]);
        }
        let (name, value) = &key[i];
        match value {
            Some(v) => {
                entries.push((name.clone(), v.clone()));
                assert(pairs_view(entries@) =~= pairs_view(before) + seq![(name@, v@)]);
            },
            None => {},
        }
    }
    proof {
        assert(key@.take(key@.len() as int) =~= key@);
        lemma_text_entries_distinct(key@);
    }
    match json_object_to_string(&entries) {
        Ok(json) => Ok(base64_url_encode(json.as_str())),
        Err(e) => {
            let mut m = String::from_str("Cursor encoding error: ");
            m.append(e.to_string().as_str());
            Err(AppError::Internal(m))
        },
    }
}

pub open spec fn decoding_error_prefix() -> Seq<char> {
    "Cursor decoding error: "@
}

pub open spec fn deserialize_error_prefix() -> Seq<char> {
    "Deserialize cursor error: "@
}

/// The bytes of a cursor, given the outcome of its base64 decoding: the
/// decoded bytes, or the decoder's description of why it refused the text.
/// A refusal is an internal error whose text is the decoding error prefix
/// followed by that description.
pub fn cursor_bytes(decoded: Result<Vec<u8>, String>) -> (res: Result<Vec<u8>, AppError>)
    ensures
        match decoded {
            Ok(bytes) => res == Ok::<Vec<u8>, AppError>(bytes),
            Err(d) => res matches Err(AppError::Internal(m)) && m@ == decoding_error_prefix()
                + d@,
        },
{
    match decoded {
        Ok(bytes) => Ok(bytes),
        Err(d) => {
            let mut m = String::from_str("Cursor decoding error: ");
            m.append(d.as_str());
            Err(AppError::Internal(m))
        },
    }
}

/// The key attributes of a cursor, given the outcome of reading its bytes as
/// a JSON object of strings: the entries, or the reader's description of why
/// it refused the bytes. A refusal is an internal error whose text is the
/// deserialization error prefix followed by that description.
pub fn cursor_entries(parsed: Result<Vec<(String, String)>, String>) -> (res: Result<
    Vec<(String, String)>,
    AppError,
>)
    ensures
        match parsed {
            Ok(entries) => res == Ok::<Vec<(String, String)>, AppError>(entries),
            Err(d) => res matches Err(AppError::Internal(m)) && m@ == deserialize_error_prefix()
                + d@,
        },
{
    match parsed {
        Ok(entries) => Ok(entries),
        Err(d) => {
            let mut m = String::from_str("Deserialize cursor error: ");
            m.append(d.as_str());
            Err(AppError::Internal(m))
        },
    }
}

/// Reads the key back from a cursor: its text attributes, with distinct
/// names. A cursor that is not URL-safe unpadded base64, or whose bytes are
/// not a JSON object of strings, is refused as an internal error (see
/// [`cursor_bytes`] and [`cursor_entries`]). A cursor written by
/// [`encode_cursor`] gives back the text attributes of its key.
pub fn decode_cursor(cursor: &str) -> (res: Result<Vec<(String, String)>, AppError>)
    ensures
        ({
            let decoded = base64_url_unpadded_decoded(cursor@);
            &&& decoded is None ==> (res matches Err(AppError::Internal(m)) && starts_with(
                m@,
                decoding_error_prefix(),
            ))
            &&& (decoded is Some && json_object_entries(decoded->0) is None) ==> (res matches Err(
                AppError::Internal(m),
            ) && starts_with(m@, deserialize_error_prefix()))
            &&& (decoded is Some && json_object_entries(decoded->0) is Some) ==> (res matches Ok(
                v,
            ) && pairs_view(v@) == json_object_entries(decoded->0)->0)
        }),
        res matches Ok(v) ==> distinct_keys(pairs_view(v@)),
        forall|key: Seq<(String, Option<String>)>|
            distinct_names(key) && cursor@ == #[trigger] cursor_text(key) ==> (res matches Ok(v)
                && pairs_view(v@).to_set() == text_entries(key).to_set()),
{
    let decoded = match base64_url_decode(cursor) {
        Ok(b) => Ok(b),
        Err(e) => Err(e.to_string()),
    };
    let bytes = match cursor_bytes(decoded) {
        Ok(b) => b,
        Err(err) => {
            proof {
                let m = err->Internal_0@;
                assert(m.take(decoding_error_prefix().len() as int) =~= decoding_error_prefix());
                assert forall|key: Seq<(String, Option<String>)>|
                    distinct_names(key) && cursor@ == #[trigger] cursor_text(key) implies false by {
                    lemma_text_entries_distinct(key);
                }
            }
            return Err(err);
        },
    };
    let parsed = match json_object_from_slice(bytes.as_slice()) {
        Ok(v) => Ok(v),
        Err(e) => Err(e.to_string()),
    };
    let res = cursor_entries(parsed);
    proof {
        match &res {
            Ok(v) => {
                assert forall|key: Seq<(String, Option<String>)>|
                    distinct_names(key) && cursor@ == #[trigger] cursor_text(key) implies (
                    pairs_view(v@).to_set() == text_entries(key).to_set()) by {
                    lemma_text_entries_distinct(key);
                }
            },
            Err(err) => {
                let m = err->Internal_0@;
                assert(m.take(deserialize_error_prefix().len() as int)
                    =~= deserialize_error_prefix());
                assert forall|key: Seq<(String, Option<String>)>|
                    distinct_names(key) && cursor@ == #[trigger] cursor_text(key) implies false by {
                    lemma_text_entries_distinct(key);
                }
            },
        }
    }
    res
}

} // verus!
