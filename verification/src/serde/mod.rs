//! RobTop's indexed data format: the fields of an object are concatenated with a delimiter, either
//! as `key, value` pairs (map-like) or in declaration order (list-like).
//!
//! Every data model describes its fields by a schema: for each field the index it is stored under
//! and the kind of value it holds. The kinds fix how a value is written as a token and how a token
//! is read back, so that reading and writing can be stated (and proved inverse) once for all models.

pub mod de;
pub mod gj;
pub mod ser;
pub mod thunk;

use vstd::prelude::*;
use crate::split::{free_before, free_of, join, separable, split, lemma_split_join, occurs_at};
use crate::text::{decimal, is_float_text, parse_int, signed_decimal, lemma_decimal_injective, lemma_parse_signed_decimal, lemma_decimal, is_digit};

verus! {

/// The conversion between a field's type in the data models and the plain value it is read and
/// written as in RobTop's formats.
pub trait InternalProxy: Sized {
    /// The plain value a field is read as.
    type DeserializeProxy;
    /// The plain value a field is written as.
    type SerializeProxy;

    /// The plain value this value is written as.
    spec fn spec_to_proxy(&self) -> Self::SerializeProxy;

    /// The value a plain value is read as.
    spec fn spec_from_proxy(from: Self::DeserializeProxy) -> Self;

    /// The plain value this value is written as.
    fn to_serialize_proxy(&self) -> (res: Self::SerializeProxy)
        ensures
            res == self.spec_to_proxy(),
    ;

    /// The value a plain value is read as.
    fn from_deserialize_proxy(from: Self::DeserializeProxy) -> (res: Self)
        ensures
            res == Self::spec_from_proxy(from),
    ;
}

/// How a boolean is written. Reading accepts `0`, `1`, `2`, `10` and the empty string for all of
/// them.
#[derive(Clone, Copy, PartialEq, Eq, Structural, Debug)]
pub enum BoolStyle {
    /// `1` / `0`
    OneZero,
    /// `10` / `0`
    TenZero,
    /// `1` / the empty string
    OneEmpty,
    /// `2` / `0`
    TwoZero,
}

/// The kind of value a field of a data model holds.
#[derive(Clone, Copy, PartialEq, Eq, Structural, Debug)]
pub enum FieldKind {
    /// An integer in `lo..=hi`.
    Int { lo: i128, hi: i128 },
    /// A non-negative integer up to `hi` where `0` stands for an absent value.
    DefaultToNone { hi: i128 },
    /// An optional integer in `lo..=hi`; an empty or missing value stands for an absent one.
    OptInt { lo: i128, hi: i128 },
    /// A boolean, written in the given style.
    Bool { style: BoolStyle },
    /// A string.
    Text,
    /// A string holding a decimal floating point number.
    FloatText,
    /// An optional string; an empty or missing value stands for an absent one.
    OptText,
    /// An optional string that is left out completely when absent.
    SkippedOptText,
}

/// The abstract value of a field.
pub enum FieldView {
    Int(int),
    OptInt(Option<int>),
    Bool(bool),
    Text(Seq<char>),
    OptText(Option<Seq<char>>),
}

/// A field's value, as held while reading or writing an object.
pub enum FieldValue {
    Int(i128),
    OptInt(Option<i128>),
    Bool(bool),
    Text(String),
    OptText(Option<String>),
}

impl View for FieldValue {
    type V = FieldView;

    open spec fn view(&self) -> FieldView {
        match self {
            FieldValue::Int(v) => FieldView::Int(*v as int),
            FieldValue::OptInt(v) => FieldView::OptInt(
                match v {
                    Some(x) => Some(*x as int),
                    None => None,
                },
            ),
            FieldValue::Bool(b) => FieldView::Bool(*b),
            FieldValue::Text(s) => FieldView::Text(s@),
            FieldValue::OptText(s) => FieldView::OptText(
                match s {
                    Some(x) => Some(x@),
                    None => None,
                },
            ),
        }
    }
}

/// The abstract values of a sequence of field values.
pub open spec fn field_views(vals: Seq<FieldValue>) -> Seq<FieldView> {
    vals.map_values(|v: FieldValue| v@)
}

/// What looking up a key among the `key, value` pairs of a map-like object finds.
pub enum Lookup {
    /// The key does not occur.
    Missing,
    /// The key occurs once; the value is absent if the key is the very last token.
    Found(Option<Seq<char>>),
    /// The key occurs more than once.
    Duplicate,
}

/// The number of `key, value` pairs in a token sequence (a trailing key counts as a pair).
pub open spec fn pair_count(n: nat) -> nat {
    (n + 1) / 2
}

/// The value belonging to the `p`-th key, if the tokens go on that far.
pub open spec fn value_of_pair(tokens: Seq<Seq<char>>, p: int) -> Option<Seq<char>> {
    if 2 * p + 1 < tokens.len() {
        Some(tokens[2 * p + 1])
    } else {
        None
    }
}

/// Looking up `key` among the first `p` pairs.
pub open spec fn lookup_upto(tokens: Seq<Seq<char>>, key: Seq<char>, p: nat) -> Lookup
    decreases p,
{
    if p == 0 {
        Lookup::Missing
    } else {
        let prev = lookup_upto(tokens, key, (p - 1) as nat);
        if tokens[2 * (p - 1)] == key {
            match prev {
                Lookup::Missing => Lookup::Found(value_of_pair(tokens, p - 1)),
                _ => Lookup::Duplicate,
            }
        } else {
            prev
        }
    }
}

/// Looking up `key` among all pairs.
pub open spec fn lookup(tokens: Seq<Seq<char>>, key: Seq<char>) -> Lookup {
    lookup_upto(tokens, key, pair_count(tokens.len()))
}

/// Whether a token reads as `true`, as `false`, or as neither.
pub open spec fn parse_bool(t: Seq<char>) -> Option<bool> {
    if t == seq!['0'] || t.len() == 0 {
        Some(false)
    } else if t == seq!['1'] || t == seq!['2'] || t == seq!['1', '0'] {
        Some(true)
    } else {
        None
    }
}

/// How a boolean is written in the given style.
pub open spec fn bool_token(style: BoolStyle, b: bool) -> Seq<char> {
    match style {
        BoolStyle::OneZero => if b { seq!['1'] } else { seq!['0'] },
        BoolStyle::TenZero => if b { seq!['1', '0'] } else { seq!['0'] },
        BoolStyle::OneEmpty => if b { seq!['1'] } else { seq![] },
        BoolStyle::TwoZero => if b { seq!['2'] } else { seq!['0'] },
    }
}

/// Reading the field of the given kind from what the lookup of its key found (`None`: the
/// object cannot be read).
pub open spec fn decode_field(kind: FieldKind, found: Lookup) -> Option<FieldView> {
    match found {
        Lookup::Duplicate => None,
        Lookup::Missing => match kind {
            FieldKind::OptInt { .. } => Some(FieldView::OptInt(None)),
            FieldKind::OptText => Some(FieldView::OptText(None)),
            FieldKind::SkippedOptText => Some(FieldView::OptText(None)),
            _ => None,
        },
        Lookup::Found(value) => match kind {
            FieldKind::Int { lo, hi } => match value {
                Some(t) => match parse_int(t, lo as int, hi as int) {
                    Some(v) => Some(FieldView::Int(v)),
                    None => None,
                },
                None => None,
            },
            FieldKind::DefaultToNone { hi } => match value {
                Some(t) => match parse_int(t, 0, hi as int) {
                    Some(v) => Some(FieldView::OptInt(if v == 0 { None } else { Some(v) })),
                    None => None,
                },
                None => None,
            },
            FieldKind::OptInt { lo, hi } => match value {
                Some(t) => if t.len() == 0 {
                    Some(FieldView::OptInt(None))
                } else {
                    match parse_int(t, lo as int, hi as int) {
                        Some(v) => Some(FieldView::OptInt(Some(v))),
                        None => None,
                    }
                },
                None => Some(FieldView::OptInt(None)),
            },
            FieldKind::Bool { .. } => match value {
                Some(t) => match parse_bool(t) {
                    Some(b) => Some(FieldView::Bool(b)),
                    None => None,
                },
                None => Some(FieldView::Bool(false)),
            },
            FieldKind::Text => match value {
                Some(t) => Some(FieldView::Text(t)),
                None => None,
            },
            FieldKind::FloatText => match value {
                Some(t) => if is_float_text(t) {
                    Some(FieldView::Text(t))
                } else {
                    None
                },
                None => None,
            },
            FieldKind::OptText | FieldKind::SkippedOptText => match value {
                Some(t) => if t.len() == 0 {
                    Some(FieldView::OptText(None))
                } else {
                    Some(FieldView::OptText(Some(t)))
                },
                None => Some(FieldView::OptText(None)),
            },
        },
    }
}

/// The token a field is written as (`None`: the field is left out).
pub open spec fn encode_field(kind: FieldKind, v: FieldView) -> Option<Seq<char>> {
    match kind {
        FieldKind::Int { .. } => match v {
            FieldView::Int(x) => Some(signed_decimal(x)),
            _ => None,
        },
        FieldKind::DefaultToNone { .. } => match v {
            FieldView::OptInt(Some(x)) => Some(signed_decimal(x)),
            FieldView::OptInt(None) => Some(seq!['0']),
            _ => None,
        },
        FieldKind::OptInt { .. } => match v {
            FieldView::OptInt(Some(x)) => Some(signed_decimal(x)),
            FieldView::OptInt(None) => Some(seq![]),
            _ => None,
        },
        FieldKind::Bool { style } => match v {
            FieldView::Bool(b) => Some(bool_token(style, b)),
            _ => None,
        },
        FieldKind::Text | FieldKind::FloatText => match v {
            FieldView::Text(t) => Some(t),
            _ => None,
        },
        FieldKind::OptText => match v {
            FieldView::OptText(Some(t)) => Some(t),
            FieldView::OptText(None) => Some(seq![]),
            _ => None,
        },
        FieldKind::SkippedOptText => match v {
            FieldView::OptText(Some(t)) => Some(t),
            _ => None,
        },
    }
}

/// The values a field of the given kind can take such that reading back what was written gives
/// the same value.
pub open spec fn field_ok(kind: FieldKind, v: FieldView) -> bool {
    match kind {
        FieldKind::Int { lo, hi } => v matches FieldView::Int(x) && lo <= x <= hi,
        FieldKind::DefaultToNone { hi } => v matches FieldView::OptInt(o) && match o {
            Some(x) => 1 <= x <= hi,
            None => true,
        },
        FieldKind::OptInt { lo, hi } => v matches FieldView::OptInt(o) && match o {
            Some(x) => lo <= x <= hi,
            None => true,
        },
        FieldKind::Bool { .. } => v is Bool,
        FieldKind::Text => v is Text,
        FieldKind::FloatText => v matches FieldView::Text(t) && is_float_text(t),
        FieldKind::OptText | FieldKind::SkippedOptText => v matches FieldView::OptText(o) && match o {
            Some(t) => t.len() > 0,
            None => true,
        },
    }
}

/// A kind whose bounds fit the integer representation used while reading.
pub open spec fn kind_wf(kind: FieldKind) -> bool {
    match kind {
        FieldKind::Int { lo, hi } => -0x1_0000_0000_0000_0000 <= lo <= 0 <= hi
            < 0x1_0000_0000_0000_0000,
        FieldKind::DefaultToNone { hi } => 0 <= hi < 0x1_0000_0000_0000_0000,
        FieldKind::OptInt { lo, hi } => -0x1_0000_0000_0000_0000 <= lo <= 0 <= hi
            < 0x1_0000_0000_0000_0000,
        _ => true,
    }
}

/// A schema: for each field, its index and kind.
pub open spec fn schema_wf(schema: Seq<(u64, FieldKind)>) -> bool {
    forall|i: int| 0 <= i < schema.len() ==> kind_wf(#[trigger] schema[i].1)
}

/// No two fields share an index.
pub open spec fn keys_distinct(schema: Seq<(u64, FieldKind)>) -> bool {
    forall|i: int, j: int|
        0 <= i < schema.len() && 0 <= j < schema.len() && i != j ==> #[trigger] schema[i].0
            != #[trigger] schema[j].0
}

/// The token holding the index of a field.
pub open spec fn key_token(k: u64) -> Seq<char> {
    decimal(k as nat)
}

/// The tokens the first `n` fields are written as in the map-like variant.
pub open spec fn map_tokens(schema: Seq<(u64, FieldKind)>, vals: Seq<FieldView>, n: nat) -> Seq<
    Seq<char>,
>
    decreases n,
{
    if n == 0 {
        seq![]
    } else {
        let prev = map_tokens(schema, vals, (n - 1) as nat);
        match encode_field(schema[n - 1].1, vals[n - 1]) {
            Some(t) => prev + seq![key_token(schema[n - 1].0), t],
            None => prev,
        }
    }
}

/// The tokens the first `n` fields are written as in the list-like variant.
pub open spec fn list_tokens(schema: Seq<(u64, FieldKind)>, vals: Seq<FieldView>, n: nat) -> Seq<
    Seq<char>,
>
    decreases n,
{
    if n == 0 {
        seq![]
    } else {
        let prev = list_tokens(schema, vals, (n - 1) as nat);
        match encode_field(schema[n - 1].1, vals[n - 1]) {
            Some(t) => prev.push(t),
            None => prev,
        }
    }
}

/// The tokens an object with the given field values is written as.
pub open spec fn struct_tokens(schema: Seq<(u64, FieldKind)>, vals: Seq<FieldView>, map_like: bool) -> Seq<Seq<char>> {
    if map_like {
        map_tokens(schema, vals, schema.len())
    } else {
        list_tokens(schema, vals, schema.len())
    }
}

/// What reading the `i`-th field of a schema from the tokens finds.
pub open spec fn field_lookup(tokens: Seq<Seq<char>>, schema: Seq<(u64, FieldKind)>, i: int, map_like: bool) -> Lookup {
    if map_like {
        lookup(tokens, key_token(schema[i].0))
    } else if i < tokens.len() {
        Lookup::Found(Some(tokens[i]))
    } else {
        Lookup::Found(None)
    }
}

/// Whether every field of the schema can be read from the tokens.
pub open spec fn struct_readable(tokens: Seq<Seq<char>>, schema: Seq<(u64, FieldKind)>, map_like: bool) -> bool {
    forall|i: int|
        0 <= i < schema.len() ==> (#[trigger] decode_field(
            schema[i].1,
            field_lookup(tokens, schema, i, map_like),
        )) is Some
}

/// The field values read from the tokens (meaningful when [`struct_readable`] holds).
pub open spec fn struct_values(tokens: Seq<Seq<char>>, schema: Seq<(u64, FieldKind)>, map_like: bool) -> Seq<FieldView> {
    Seq::new(
        schema.len(),
        |i: int| decode_field(schema[i].1, field_lookup(tokens, schema, i, map_like))->Some_0,
    )
}


/// Reading back what was written for a field gives the field's value.
pub proof fn lemma_field_roundtrip(kind: FieldKind, v: FieldView)
    requires
        kind_wf(kind),
        field_ok(kind, v),
    ensures
        decode_field(
            kind,
            match encode_field(kind, v) {
                Some(t) => Lookup::Found(Some(t)),
                None => Lookup::Missing,
            },
        ) == Some(v),
{
    match kind {
        FieldKind::Int { lo, hi } => {
            if let FieldView::Int(x) = v {
                lemma_parse_signed_decimal(x, lo as int, hi as int);
            }
        },
        FieldKind::DefaultToNone { hi } => {
            if let FieldView::OptInt(Some(x)) = v {
                lemma_parse_signed_decimal(x, 0, hi as int);
            } else {
                assert(seq!['0'][0] == '0');
                lemma_parse_signed_decimal(0, 0, hi as int);
                assert(signed_decimal(0) =~= seq!['0']) by {
                    reveal_with_fuel(decimal, 2);
                }
            }
        },
        FieldKind::OptInt { lo, hi } => {
            if let FieldView::OptInt(Some(x)) = v {
                lemma_parse_signed_decimal(x, lo as int, hi as int);
                lemma_signed_decimal_nonempty(x);
            }
        },
        FieldKind::Bool { style } => {
            if let FieldView::Bool(b) = v {
                assert(parse_bool(bool_token(style, b)) == Some(b));
            }
        },
        _ => {},
    }
}

proof fn lemma_signed_decimal_nonempty(x: int)
    ensures
        signed_decimal(x).len() > 0,
{
    if x < 0 {
        lemma_decimal((-x) as nat);
    } else {
        lemma_decimal(x as nat);
    }
}

/// Looking a key up among the pairs of a prefix with an even number of tokens does not see what
/// follows the prefix.
proof fn lemma_lookup_prefix(a: Seq<Seq<char>>, b: Seq<Seq<char>>, key: Seq<char>, p: nat)
    requires
        a.len() % 2 == 0,
        2 * p <= a.len(),
    ensures
        lookup_upto(a + b, key, p) == lookup_upto(a, key, p),
    decreases p,
{
    if p > 0 {
        lemma_lookup_prefix(a, b, key, (p - 1) as nat);
        assert((a + b)[2 * (p - 1)] == a[2 * (p - 1)]);
        assert(value_of_pair(a + b, p - 1) == value_of_pair(a, p - 1));
    }
}

/// Appending a `key, value` pair to an even number of tokens.
proof fn lemma_lookup_push_pair(a: Seq<Seq<char>>, k: Seq<char>, v: Seq<char>, key: Seq<char>)
    requires
        a.len() % 2 == 0,
    ensures
        lookup(a + seq![k, v], key) == if k == key {
            match lookup(a, key) {
                Lookup::Missing => Lookup::Found(Some(v)),
                _ => Lookup::Duplicate,
            }
        } else {
            lookup(a, key)
        },
{
    let t = a + seq![k, v];
    let p = pair_count(a.len());
    assert(pair_count(t.len()) == p + 1);
    lemma_lookup_prefix(a, seq![k, v], key, p);
    assert(t[2 * p as int] == k);
    assert(value_of_pair(t, p as int) == Some(v));
}

proof fn lemma_map_tokens_even(schema: Seq<(u64, FieldKind)>, vals: Seq<FieldView>, n: nat)
    requires
        n <= schema.len(),
        n <= vals.len(),
    ensures
        map_tokens(schema, vals, n).len() % 2 == 0,
    decreases n,
{
    if n > 0 {
        lemma_map_tokens_even(schema, vals, (n - 1) as nat);
    }
}

/// A key that no field among the first `n` has is not found.
proof fn lemma_map_lookup_absent(schema: Seq<(u64, FieldKind)>, vals: Seq<FieldView>, n: nat, k: u64)
    requires
        n <= schema.len(),
        n <= vals.len(),
        forall|j: int| 0 <= j < n ==> schema[j].0 != k,
    ensures
        lookup(map_tokens(schema, vals, n), key_token(k)) == Lookup::Missing,
    decreases n,
{
    if n > 0 {
        lemma_map_lookup_absent(schema, vals, (n - 1) as nat, k);
        lemma_map_tokens_even(schema, vals, (n - 1) as nat);
        let prev = map_tokens(schema, vals, (n - 1) as nat);
        if let Some(t) = encode_field(schema[n - 1].1, vals[n - 1]) {
            lemma_decimal_injective(schema[n - 1].0 as nat, k as nat);
            lemma_lookup_push_pair(prev, key_token(schema[n - 1].0), t, key_token(k));
        }
    }
}

/// The key of the `j`-th field finds exactly what was written for it.
proof fn lemma_map_lookup_present(schema: Seq<(u64, FieldKind)>, vals: Seq<FieldView>, n: nat, j: int)
    requires
        0 <= j < n <= schema.len(),
        n <= vals.len(),
        keys_distinct(schema),
    ensures
        lookup(map_tokens(schema, vals, n), key_token(schema[j].0)) == match encode_field(
            schema[j].1,
            vals[j],
        ) {
            Some(t) => Lookup::Found(Some(t)),
            None => Lookup::Missing,
        },
    decreases n,
{
    lemma_map_tokens_even(schema, vals, (n - 1) as nat);
    let prev = map_tokens(schema, vals, (n - 1) as nat);
    if j == n - 1 {
        assert forall|i: int| 0 <= i < n - 1 implies schema[i].0 != schema[j].0 by {
            assert(schema[i].0 != schema[j].0);
        }
        lemma_map_lookup_absent(schema, vals, (n - 1) as nat, schema[j].0);
        if let Some(t) = encode_field(schema[n - 1].1, vals[n - 1]) {
            lemma_lookup_push_pair(prev, key_token(schema[n - 1].0), t, key_token(schema[j].0));
        }
    } else {
        lemma_map_lookup_present(schema, vals, (n - 1) as nat, j);
        if let Some(t) = encode_field(schema[n - 1].1, vals[n - 1]) {
            assert(schema[n - 1].0 != schema[j].0);
            lemma_decimal_injective(schema[n - 1].0 as nat, schema[j].0 as nat);
            lemma_lookup_push_pair(prev, key_token(schema[n - 1].0), t, key_token(schema[j].0));
        }
    }
}

proof fn lemma_list_tokens(schema: Seq<(u64, FieldKind)>, vals: Seq<FieldView>, n: nat)
    requires
        n <= schema.len(),
        n <= vals.len(),
        forall|i: int| 0 <= i < n ==> (#[trigger] encode_field(schema[i].1, vals[i])) is Some,
    ensures
        list_tokens(schema, vals, n).len() == n,
        forall|i: int|
            0 <= i < n ==> Some(#[trigger] list_tokens(schema, vals, n)[i]) == encode_field(
                schema[i].1,
                vals[i],
            ),
    decreases n,
{
    if n > 0 {
        lemma_list_tokens(schema, vals, (n - 1) as nat);
        assert(encode_field(schema[n - 1].1, vals[n - 1]) is Some);
    }
}

/// Every token of the sequence is free of delimiter occurrences reaching into the next one.
pub open spec fn all_free_before(tokens: Seq<Seq<char>>, d: Seq<char>) -> bool {
    forall|i: int| 0 <= i < tokens.len() ==> free_before(#[trigger] tokens[i], d)
}

pub proof fn lemma_all_free_separable(tokens: Seq<Seq<char>>, d: Seq<char>)
    requires
        all_free_before(tokens, d),
    ensures
        separable(tokens, d),
{
    if tokens.len() > 0 {
        let t = tokens.last();
        assert(free_before(t, d));
        assert forall|j: int| 0 <= j < t.len() implies !occurs_at(t, d, j) by {
            if occurs_at(t, d, j) {
                assert((t + d).subrange(j, j + d.len()) =~= t.subrange(j, j + d.len()));
                assert(occurs_at(t + d, d, j));
            }
        }
    }
}

/// Digit tokens cannot hide a delimiter that does not start with a digit.
pub proof fn lemma_digits_free_before(t: Seq<char>, d: Seq<char>)
    requires
        forall|i: int| 0 <= i < t.len() ==> is_digit(#[trigger] t[i]),
        d.len() > 0,
        !is_digit(d[0]),
    ensures
        free_before(t, d),
{
    assert forall|j: int| 0 <= j < t.len() implies !occurs_at(t + d, d, j) by {
        if occurs_at(t + d, d, j) {
            assert((t + d).subrange(j, j + d.len())[0] == (t + d)[j]);
            assert(is_digit(t[j]));
        }
    }
}

/// The tokens written for the values of a schema, the keys among them, can be split apart again.
pub open spec fn values_separable(schema: Seq<(u64, FieldKind)>, vals: Seq<FieldView>, d: Seq<char>) -> bool {
    forall|i: int|
        0 <= i < schema.len() ==> match #[trigger] encode_field(schema[i].1, vals[i]) {
            Some(t) => free_before(t, d),
            None => true,
        }
}

/// The values an object of the schema can hold such that writing and reading it back gives it
/// again: each value is one that its kind writes faithfully, the written tokens can be told apart,
/// and (for the list-like variant) no field is left out.
pub open spec fn struct_roundtrips(schema: Seq<(u64, FieldKind)>, vals: Seq<FieldView>, map_like: bool, d: Seq<char>) -> bool {
    &&& vals.len() == schema.len()
    &&& schema_wf(schema)
    &&& forall|i: int| 0 <= i < schema.len() ==> field_ok(schema[i].1, #[trigger] vals[i])
    &&& values_separable(schema, vals, d)
    &&& struct_tokens(schema, vals, map_like).len() > 0
    &&& map_like ==> keys_distinct(schema)
    &&& !map_like ==> forall|i: int| 0 <= i < schema.len() ==> (#[trigger] encode_field(schema[i].1, vals[i])) is Some
}

proof fn lemma_map_tokens_free(schema: Seq<(u64, FieldKind)>, vals: Seq<FieldView>, n: nat, d: Seq<char>)
    requires
        n <= schema.len(),
        n <= vals.len(),
        values_separable(schema, vals, d),
        d.len() > 0,
        !is_digit(d[0]),
    ensures
        all_free_before(map_tokens(schema, vals, n), d),
    decreases n,
{
    if n > 0 {
        lemma_map_tokens_free(schema, vals, (n - 1) as nat, d);
        let prev = map_tokens(schema, vals, (n - 1) as nat);
        if let Some(t) = encode_field(schema[n - 1].1, vals[n - 1]) {
            let k = key_token(schema[n - 1].0);
            lemma_decimal(schema[n - 1].0 as nat);
            lemma_digits_free_before(k, d);
            let all = prev + seq![k, t];
            assert forall|i: int| 0 <= i < all.len() implies free_before(#[trigger] all[i], d) by {
                if i < prev.len() {
                    assert(all[i] == prev[i]);
                } else if i == prev.len() {
                    assert(all[i] == k);
                } else {
                    assert(all[i] == t);
                }
            }
        }
    }
}

proof fn lemma_list_tokens_free(schema: Seq<(u64, FieldKind)>, vals: Seq<FieldView>, n: nat, d: Seq<char>)
    requires
        n <= schema.len(),
        n <= vals.len(),
        values_separable(schema, vals, d),
    ensures
        all_free_before(list_tokens(schema, vals, n), d),
    decreases n,
{
    if n > 0 {
        lemma_list_tokens_free(schema, vals, (n - 1) as nat, d);
    }
}

/// Reading an object back from what was written for it gives the same field values.
pub proof fn lemma_struct_roundtrip(schema: Seq<(u64, FieldKind)>, vals: Seq<FieldView>, map_like: bool, d: Seq<char>)
    requires
        struct_roundtrips(schema, vals, map_like, d),
        d.len() > 0,
        !is_digit(d[0]),
    ensures
        struct_readable(split(join(struct_tokens(schema, vals, map_like), d), d), schema, map_like),
        struct_values(split(join(struct_tokens(schema, vals, map_like), d), d), schema, map_like) == vals,
{
    let tokens = struct_tokens(schema, vals, map_like);
    if map_like {
        lemma_map_tokens_free(schema, vals, schema.len(), d);
    } else {
        lemma_list_tokens_free(schema, vals, schema.len(), d);
        lemma_list_tokens(schema, vals, schema.len());
    }
    lemma_all_free_separable(tokens, d);
    lemma_split_join(tokens, d);
    assert forall|i: int| 0 <= i < schema.len() implies #[trigger] decode_field(
        schema[i].1,
        field_lookup(tokens, schema, i, map_like),
    ) == Some(vals[i]) by {
        if map_like {
            lemma_map_lookup_present(schema, vals, schema.len(), i);
        } else {
            assert(Some(list_tokens(schema, vals, schema.len())[i]) == encode_field(schema[i].1, vals[i]));
        }
        lemma_field_roundtrip(schema[i].1, vals[i]);
    }
    assert(struct_values(tokens, schema, map_like) =~= vals);
}


/// What a writer that holds `buf` (and has written nothing yet if `at_start`) holds after the
/// tokens have been written with the delimiter `d`.
pub open spec fn emit(buf: Seq<char>, at_start: bool, tokens: Seq<Seq<char>>, d: Seq<char>) -> Seq<char> {
    if tokens.len() == 0 {
        buf
    } else if at_start {
        buf + join(tokens, d)
    } else {
        buf + d + join(tokens, d)
    }
}

/// Joining one more token.
pub proof fn lemma_join_push(a: Seq<Seq<char>>, t: Seq<char>, d: Seq<char>)
    ensures
        join(a.push(t), d) == if a.len() == 0 {
            t
        } else {
            join(a, d) + d + t
        },
    decreases a.len(),
{
    if a.len() == 0 {
        assert(a.push(t) =~= seq![t]);
    } else if a.len() == 1 {
        assert(a.push(t).drop_first() =~= seq![t]);
        assert(join(seq![t], d) == t);
        assert(join(a.push(t), d) == a[0] + d + t);
    } else {
        lemma_join_push(a.drop_first(), t, d);
        assert(a.push(t).drop_first() =~= a.drop_first().push(t));
        assert(join(a.push(t), d) == a[0] + d + join(a.drop_first().push(t), d));
        assert(a[0] + d + (join(a.drop_first(), d) + d + t) =~= a[0] + d + join(a.drop_first(), d) + d + t);
    }
}

/// Writing one more token.
pub proof fn lemma_emit_push(buf: Seq<char>, at_start: bool, a: Seq<Seq<char>>, t: Seq<char>, d: Seq<char>)
    ensures
        emit(buf, at_start, a.push(t), d) == if at_start && a.len() == 0 {
            emit(buf, at_start, a, d) + t
        } else {
            emit(buf, at_start, a, d) + d + t
        },
{
    lemma_join_push(a, t, d);
    if a.len() == 0 {
        if at_start {
            assert(emit(buf, at_start, a.push(t), d) =~= buf + t);
        } else {
            assert(emit(buf, at_start, a.push(t), d) =~= buf + d + t);
        }
    } else if at_start {
        assert(buf + (join(a, d) + d + t) =~= buf + join(a, d) + d + t);
    } else {
        assert(buf + d + (join(a, d) + d + t) =~= buf + d + join(a, d) + d + t);
    }
}

} // verus!
