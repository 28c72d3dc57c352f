//! The wire payload: a JSON object whose fields are strings.
//!
//! The one trusted step turns the response text into the object's fields,
//! each a name paired with its string value (or with nothing where the
//! member is not a string). Everything after that — which fields are
//! required, how their text is read — is verified code.

use vstd::prelude::*;

verus! {

/// What JSON parsing makes of `s`: `None` where `s` is not a JSON object
/// or some member value is malformed; otherwise the object's members in
/// their key order, each value kept where it is a JSON string and marked
/// absent where it is any other JSON value.
pub uninterp spec fn json_string_fields(s: Seq<char>) -> Option<
    Seq<(Seq<char>, Option<Seq<char>>)>,
>;

/// The spec-level image of an exec field list.
pub open spec fn fields_view(v: Seq<(String, Option<String>)>) -> Seq<
    (Seq<char>, Option<Seq<char>>),
> {
    Seq::new(v.len(), |i: int| (v[i].0@, v[i].1.deep_view()))
}

/// Relies on serde_json::from_str into an ordered map of JSON values:
/// it succeeds exactly on JSON text whose top level is an object, and
/// yields the members as deserialized strings in key order, with later
/// duplicates of a key replacing earlier ones.
#[verifier::external_body]
pub(crate) fn json_object_strings(text: &str) -> (r: Option<Vec<(String, Option<String>)>>)
    ensures
        match json_string_fields(text@) {
            None => r is None,
            Some(fs) => r matches Some(v) && fields_view(v@) == fs,
        },
{
    let map: std::collections::BTreeMap<String, serde_json::Value> =
        match serde_json::from_str(text) {
            Ok(m) => m,
            Err(_) => return None,
        };
    Some(map.into_iter().map(|(k, v)| match v {
        serde_json::Value::String(sv) => (k, Some(sv)),
        _ => (k, None),
    }).collect())
}

/// The value of the first field named `key`: `None` where no field has
/// that name, `Some(None)` where the field is not a string, and
/// `Some(Some(v))` where it is the string `v`.
pub open spec fn lookup_field(
    fields: Seq<(Seq<char>, Option<Seq<char>>)>,
    key: Seq<char>,
) -> Option<Option<Seq<char>>>
    decreases fields.len(),
{
    if fields.len() == 0 {
        None
    } else if fields[0].0 == key {
        Some(fields[0].1)
    } else {
        lookup_field(fields.drop_first(), key)
    }
}

proof fn lemma_lookup_skip(fields: Seq<(Seq<char>, Option<Seq<char>>)>, key: Seq<char>, i: int)
    requires
        0 <= i <= fields.len(),
        forall|j: int| 0 <= j < i ==> (#[trigger] fields[j]).0 != key,
    ensures
        lookup_field(fields, key) == lookup_field(fields.skip(i), key),
    decreases i,
{
    if i > 0 {
        let t = fields.drop_first();
        assert(forall|j: int| 0 <= j < i - 1 ==> (#[trigger] t[j]).0 != key) by {
            assert(forall|j: int| 0 <= j < i - 1 ==> t[j] == fields[j + 1]);
        }
        lemma_lookup_skip(t, key, i - 1);
        assert(t.skip(i - 1) =~= fields.skip(i));
    } else {
        assert(fields.skip(0) =~= fields);
    }
}

/// Finds the field named `key`, handing back a copy of its entry.
pub fn find_field(fields: &Vec<(String, Option<String>)>, key: &String) -> (r: Option<
    Option<String>,
>)
    ensures
        r.deep_view() == lookup_field(fields_view(fields@), key@),
{
    let ghost fv = fields_view(fields@);
    let n = fields.len();
    let mut i: usize = 0;
    while i < n
        invariant
            n == fields@.len(),
            i <= n,
            fv == fields_view(fields@),
            forall|j: int| 0 <= j < i ==> (#[trigger] fv[j]).0 != key@,
        decreases n - i,
    {
        if fields[i].0.eq(key) {
            let r = match &fields[i].1 {
                Some(s) => Some(Some(s.clone())),
                None => Some(None),
            };
            proof {
                lemma_lookup_skip(fv, key@, i as int);
                assert(fv.skip(i as int)[0] == fv[i as int]);
            }
            return r;
        }
        i += 1;
    }
    proof {
        lemma_lookup_skip(fv, key@, n as int);
        assert(fv.skip(n as int) =~= Seq::<(Seq<char>, Option<Seq<char>>)>::empty());
    }
    None
}

} // verus!
