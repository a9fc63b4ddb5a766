//! Reading and writing whole objects in RobTop's indexed format.

use vstd::prelude::*;
use crate::serde::de::error::Error as DeError;
use crate::serde::de::indexed::IndexedDeserializer;
use crate::serde::ser::indexed::IndexedSerializer;
use crate::serde::{
    decode_field, emit, encode_field, field_lookup, field_ok, field_views, keys_distinct,
    map_tokens, list_tokens, schema_wf, struct_readable, struct_tokens, struct_values, FieldKind,
    FieldValue, FieldView, Lookup,
};
use crate::split::{join, split};
use crate::text::parse_int;

verus! {

/// Every value fits its field's kind (see [`field_ok`]).
pub open spec fn fields_faithful(schema: Seq<(u64, FieldKind)>, vals: Seq<FieldView>) -> bool {
    &&& vals.len() == schema.len()
    &&& forall|i: int| 0 <= i < schema.len() ==> field_ok(schema[i].1, #[trigger] vals[i])
}

/// A value read for a field always fits the field's kind.
pub proof fn lemma_decoded_field_ok(kind: FieldKind, found: Lookup)
    requires
        decode_field(kind, found) is Some,
    ensures
        field_ok(kind, decode_field(kind, found)->0),
{
    match found {
        Lookup::Found(Some(t)) => {
            match kind {
                FieldKind::DefaultToNone { hi } => {
                    let v = parse_int(t, 0, hi as int)->0;
                    assert(0 <= v <= hi);
                },
                _ => {},
            }
        },
        _ => {},
    }
}

/// Reads the object described by `schema` from `input`, whose tokens are separated by
/// `delimiter` (as `key, value` pairs if `map_like`).
pub fn read_gj(input: &str, delimiter: &str, map_like: bool, schema: &Vec<(u64, FieldKind)>) -> (res:
    Result<Vec<FieldValue>, DeError>)
    requires
        delimiter@.len() > 0,
        schema_wf(schema@),
    ensures
        res is Ok <==> struct_readable(split(input@, delimiter@), schema@, map_like),
        res matches Ok(vals) ==> field_views(vals@) == struct_values(
            split(input@, delimiter@),
            schema@,
            map_like,
        ),
        res matches Ok(vals) ==> fields_faithful(schema@, field_views(vals@)),
        res matches Err(e) ==> e is Custom,
{
    let deserializer = IndexedDeserializer::new(input, delimiter, map_like);
    let res = deserializer.read_struct(schema);
    proof {
        if let Ok(vals) = &res {
            let toks = split(input@, delimiter@);
            assert(field_views(vals@) == struct_values(toks, schema@, map_like));
            assert forall|i: int| 0 <= i < schema@.len() implies field_ok(
                schema@[i].1,
                #[trigger] field_views(vals@)[i],
            ) by {
                assert(decode_field(schema@[i].1, field_lookup(toks, schema@, i, map_like)) is Some);
                lemma_decoded_field_ok(schema@[i].1, field_lookup(toks, schema@, i, map_like));
            }
        }
    }
    res
}

/// Writes the object described by `schema` with the given field values: its tokens, separated by
/// `delimiter`.
pub fn write_gj_fields(delimiter: &'static str, map_like: bool, schema: &Vec<(u64, FieldKind)>, vals: &Vec<
    FieldValue,
>) -> (res: String)
    requires
        vals@.len() == schema@.len(),
    ensures
        res@ == join(struct_tokens(schema@, field_views(vals@), map_like), delimiter@),
{
    let mut serializer = IndexedSerializer::new(delimiter, map_like);
    let _ = serializer.write_struct(schema, vals);
    let res = serializer.into_output();
    proof {
        let toks = struct_tokens(schema@, field_views(vals@), map_like);
        if toks.len() == 0 {
            assert(join(toks, delimiter@) =~= Seq::<char>::empty());
        } else {
            assert(emit(Seq::empty(), true, toks, delimiter@) =~= join(toks, delimiter@));
        }
    }
    res
}

/// No two fields share an index, shown by a map from index back to position.
pub proof fn lemma_keys_distinct_by_position(schema: Seq<(u64, FieldKind)>, position: spec_fn(u64) -> int)
    requires
        forall|i: int| 0 <= i < schema.len() ==> position(#[trigger] schema[i].0) == i,
    ensures
        keys_distinct(schema),
{
    assert forall|i: int, j: int|
        0 <= i < schema.len() && 0 <= j < schema.len() && i != j implies #[trigger] schema[i].0
        != #[trigger] schema[j].0 by {
        if schema[i].0 == schema[j].0 {
            assert(position(schema[i].0) == i);
            assert(position(schema[j].0) == j);
        }
    }
}

/// The tokens written for the first `n` fields only grow with `n`.
proof fn lemma_tokens_grow(schema: Seq<(u64, FieldKind)>, vals: Seq<FieldView>, map_like: bool, m: nat, n: nat)
    requires
        m <= n <= schema.len(),
        n <= vals.len(),
    ensures
        map_like ==> map_tokens(schema, vals, m).len() <= map_tokens(schema, vals, n).len(),
        !map_like ==> list_tokens(schema, vals, m).len() <= list_tokens(schema, vals, n).len(),
    decreases n - m,
{
    if m < n {
        lemma_tokens_grow(schema, vals, map_like, m, (n - 1) as nat);
    }
}

/// An object that has at least one field that is written is written as at least one token.
pub proof fn lemma_struct_tokens_nonempty(schema: Seq<(u64, FieldKind)>, vals: Seq<FieldView>, map_like: bool, i: int)
    requires
        0 <= i < schema.len(),
        vals.len() == schema.len(),
        encode_field(schema[i].1, vals[i]) is Some,
    ensures
        struct_tokens(schema, vals, map_like).len() > 0,
{
    lemma_tokens_grow(schema, vals, map_like, (i + 1) as nat, schema.len());
}

} // verus!

verus! {

/// The integer a field value holds (`0` for other values).
pub open spec fn fv_int(v: FieldView) -> int {
    match v {
        FieldView::Int(x) => x,
        _ => 0,
    }
}

/// The optional integer a field value holds (`None` for other values).
pub open spec fn fv_opt_int(v: FieldView) -> Option<int> {
    match v {
        FieldView::OptInt(x) => x,
        _ => None,
    }
}

/// The boolean a field value holds (`false` for other values).
pub open spec fn fv_bool(v: FieldView) -> bool {
    match v {
        FieldView::Bool(b) => b,
        _ => false,
    }
}

/// The text a field value holds (empty for other values).
pub open spec fn fv_text(v: FieldView) -> Seq<char> {
    match v {
        FieldView::Text(t) => t,
        _ => Seq::empty(),
    }
}

/// The optional text a field value holds (`None` for other values).
pub open spec fn fv_opt_text(v: FieldView) -> Option<Seq<char>> {
    match v {
        FieldView::OptText(t) => t,
        _ => None,
    }
}

/// The integer a field value holds.
pub fn value_int(v: &FieldValue) -> (res: i128)
    ensures
        res as int == fv_int(v@),
{
    match v {
        FieldValue::Int(x) => *x,
        _ => 0,
    }
}

/// The optional integer a field value holds.
pub fn value_opt_int(v: &FieldValue) -> (res: Option<i128>)
    ensures
        match res {
            Some(x) => fv_opt_int(v@) == Some(x as int),
            None => fv_opt_int(v@) is None,
        },
{
    match v {
        FieldValue::OptInt(x) => *x,
        _ => None,
    }
}

/// The boolean a field value holds.
pub fn value_bool(v: &FieldValue) -> (res: bool)
    ensures
        res == fv_bool(v@),
{
    match v {
        FieldValue::Bool(b) => *b,
        _ => false,
    }
}

/// The text a field value holds.
pub fn value_text(v: &FieldValue) -> (res: String)
    ensures
        res@ == fv_text(v@),
{
    match v {
        FieldValue::Text(t) => t.clone(),
        _ => String::new(),
    }
}

/// The optional text a field value holds.
pub fn value_opt_text(v: &FieldValue) -> (res: Option<String>)
    ensures
        match res {
            Some(s) => fv_opt_text(v@) == Some(s@),
            None => fv_opt_text(v@) is None,
        },
{
    match v {
        FieldValue::OptText(Some(t)) => Some(t.clone()),
        _ => None,
    }
}

/// A copy of an optional string.
pub fn clone_opt_string(s: &Option<String>) -> (res: Option<String>)
    ensures
        match res {
            Some(r) => s matches Some(x) && x@ == r@,
            None => s is None,
        },
{
    match s {
        Some(x) => Some(x.clone()),
        None => None,
    }
}

} // verus!
