//! A plain model of JSON documents, and the parse boundary.
//!
//! The node's responses arrive as JSON text. The library holds a parsed
//! document as its own tree, [`Json`], so that looking up object fields is
//! ordinary verified code; only the parse itself is delegated to an outside
//! parser behind a trusted wrapper.

use vstd::prelude::*;

verus! {

/// A JSON document as a plain tree.
///
/// Numbers are carried as their decimal text: no number is ever read by this
/// library, so nothing more is needed of them.
#[derive(Debug, PartialEq, Eq)]
pub enum Json {
    Null,
    Bool(bool),
    Num(String),
    Str(String),
    Arr(Vec<Json>),
    Obj(Vec<(String, Json)>),
}

/// The value under `key` in an object's field list: the first binding wins.
pub open spec fn obj_lookup(fields: Seq<(String, Json)>, key: Seq<char>) -> Option<Json>
    decreases fields.len(),
{
    if fields.len() == 0 {
        None
    } else if fields[0].0@ == key {
        Some(fields[0].1)
    } else {
        obj_lookup(fields.skip(1), key)
    }
}

/// The value under `key` when `j` is an object; `None` otherwise.
pub open spec fn json_field(j: Json, key: Seq<char>) -> Option<Json> {
    match j {
        Json::Obj(fields) => obj_lookup(fields@, key),
        _ => None,
    }
}

proof fn lemma_obj_lookup_skip(fields: Seq<(String, Json)>, key: Seq<char>, i: int)
    requires
        0 <= i <= fields.len(),
        forall|k: int| 0 <= k < i ==> #[trigger] fields[k].0@ != key,
    ensures
        obj_lookup(fields, key) == obj_lookup(fields.skip(i), key),
    decreases i,
{
    if i > 0 {
        lemma_obj_lookup_skip(fields, key, i - 1);
        assert(fields.skip(i - 1)[0] == fields[i - 1]);
        assert(fields.skip(i - 1).skip(1) =~= fields.skip(i));
    } else {
        assert(fields.skip(0) =~= fields);
    }
}

/// Looks up `key` in `j`, matching [`json_field`] exactly.
pub fn field<'a>(j: &'a Json, key: &str) -> (r: Option<&'a Json>)
    ensures
        match r {
            Some(v) => json_field(*j, key@) == Some(*v),
            None => json_field(*j, key@) is None,
        },
{
    match j {
        Json::Obj(fields) => {
            let k: String = key.to_owned();
            let n: usize = fields.len();
            for i in 0..n
                invariant
                    n == fields@.len(),
                    k@ == key@,
                    json_field(*j, key@) == obj_lookup(fields@, key@),
                    forall|t: int| 0 <= t < i ==> #[trigger] fields@[t].0@ != key@,
            {
                if fields[i].0 == k {
                    proof {
                        lemma_obj_lookup_skip(fields@, key@, i as int);
                        assert(fields@.skip(i as int)[0] == fields@[i as int]);
                        assert(fields@[i as int].0@ == key@);
                        assert(fields@.skip(i as int).len() > 0);
                        assert(obj_lookup(fields@.skip(i as int), key@)
                            == Some(fields@[i as int].1));
                        assert(json_field(*j, key@) == Some(fields@[i as int].1));
                    }
                    return Some(&fields[i].1);
                }
            }
            proof {
                lemma_obj_lookup_skip(fields@, key@, n as int);
            }
            None
        },
        _ => None,
    }
}

#[verifier::external_type_specification]
#[verifier::external_body]
pub struct ExValue(serde_json::Value);

/// The document that a JSON text denotes, or `None` where the text is not
/// well-formed JSON. Its value is fixed by `serde_json`'s parser, which reads
/// nothing but the text.
pub uninterp spec fn spec_parse_text(s: Seq<char>) -> Option<Json>;

/// Relies on `serde_json::from_str::<serde_json::Value>`: whether a text is
/// well-formed JSON, and which document it denotes, depend on the text alone.
#[verifier::external_body]
pub(crate) fn parse_text(s: &str) -> (r: Option<Json>)
    ensures
        r == spec_parse_text(s@),
{
    serde_json::from_str::<serde_json::Value>(s).ok().map(json_of_value)
}

/// Relies on `serde_json::Value`: each of its variants is moved, one arm each,
/// into the library's own tree, a number as its decimal text. This exists only
/// to serve the body of [`parse_text`], which hands it the parsed value.
#[verifier::external_body]
fn json_of_value(v: serde_json::Value) -> Json {
    match v {
        serde_json::Value::Null => Json::Null,
        serde_json::Value::Bool(b) => Json::Bool(b),
        serde_json::Value::Number(n) => Json::Num(n.to_string()),
        serde_json::Value::String(s) => Json::Str(s),
        serde_json::Value::Array(a) => Json::Arr(a.into_iter().map(json_of_value).collect()),
        serde_json::Value::Object(o) => Json::Obj(o.into_iter().map(|(k, w)| (k, json_of_value(w))).collect()),
    }
}

} // verus!
