//! Reading objects from RobTop's indexed data format.

use vstd::prelude::*;
use crate::serde::de::error::Error;
use crate::serde::{
    decode_field, field_lookup, lookup, lookup_upto, pair_count, parse_bool, schema_wf,
    struct_readable, struct_values, value_of_pair, FieldKind, FieldValue, FieldView, Lookup,
    key_token,
};
use crate::split::{split, split_exec, views};
use crate::text::{
    chars_eq, chars_of, format_i128, is_float_text_exec, parse_int_exec, string_from_chars,
};

verus! {

/// Where a key's value was found: at a token index, or (for a trailing key) nowhere.
enum Located {
    Missing,
    Found(Option<usize>),
    Duplicate,
}

spec fn located_view(l: Located, tokens: Seq<Seq<char>>) -> Lookup {
    match l {
        Located::Missing => Lookup::Missing,
        Located::Found(Some(i)) => Lookup::Found(Some(tokens[i as int])),
        Located::Found(None) => Lookup::Found(None),
        Located::Duplicate => Lookup::Duplicate,
    }
}

spec fn located_in_bounds(l: Located, n: nat) -> bool {
    l matches Located::Found(Some(i)) ==> i < n
}

/// Reader for RobTop's indexed data format.
///
/// The input is cut into tokens at every occurrence of the delimiter. In the map-like variant every
/// other token is the index of the field whose value follows it; in the list-like variant the
/// fields follow each other in declaration order.
#[derive(Debug)]
pub struct IndexedDeserializer {
    tokens: Vec<Vec<char>>,
    map_like: bool,
}

impl IndexedDeserializer {
    /// The tokens of the input.
    pub closed spec fn tokens(&self) -> Seq<Seq<char>> {
        views(self.tokens@)
    }

    /// Whether the input is read as `key, value` pairs.
    pub closed spec fn is_map_like(&self) -> bool {
        self.map_like
    }

    /// Starts reading `source`, whose fields are separated by the non-empty `delimiter`.
    pub fn new(source: &str, delimiter: &str, map_like: bool) -> (res: IndexedDeserializer)
        requires
            delimiter@.len() > 0,
        ensures
            res.tokens() == split(source@, delimiter@),
            res.is_map_like() == map_like,
    {
        let s = chars_of(source);
        let d = chars_of(delimiter);
        IndexedDeserializer { tokens: split_exec(s.as_slice(), d.as_slice()), map_like }
    }

    /// Finds the value of the given key among the `key, value` pairs.
    fn locate(&self, key: &[char]) -> (res: Located)
        ensures
            located_in_bounds(res, self.tokens().len()),
            located_view(res, self.tokens()) == lookup(self.tokens(), key@),
    {
        let n = self.tokens.len();
        let pairs = n / 2 + n % 2;
        let ghost toks = self.tokens();
        assert(pairs == pair_count(n as nat));
        let mut state = Located::Missing;
        let mut p: usize = 0;
        while p < pairs
            invariant
                toks == self.tokens(),
                n == toks.len(),
                pairs == pair_count(n as nat),
                p <= pairs,
                located_in_bounds(state, n as nat),
                located_view(state, toks) == lookup_upto(toks, key@, p as nat),
            decreases pairs - p,
        {
            assert(self.tokens@[2 * p as int]@ == toks[2 * p as int]);
            if chars_eq(self.tokens[2 * p].as_slice(), key) {
                state = match state {
                    Located::Missing => Located::Found(
                        if 2 * p + 1 < n {
                            Some(2 * p + 1)
                        } else {
                            None
                        },
                    ),
                    _ => Located::Duplicate,
                };
            }
            assert(Lookup::Found(value_of_pair(toks, p as int)) == located_view(
                Located::Found(
                    if 2 * p + 1 < n {
                        Some((2 * p + 1) as usize)
                    } else {
                        None
                    },
                ),
                toks,
            ));
            p = p + 1;
        }
        state
    }

    /// Reads one field of the given kind from where its value was found.
    fn read_value(&self, kind: FieldKind, at: Located) -> (res: Option<FieldValue>)
        requires
            crate::serde::kind_wf(kind),
            located_in_bounds(at, self.tokens().len()),
        ensures
            match res {
                Some(v) => decode_field(kind, located_view(at, self.tokens())) == Some(v@),
                None => decode_field(kind, located_view(at, self.tokens())) is None,
            },
    {
        let ghost toks = self.tokens();
        match at {
            Located::Duplicate => None,
            Located::Missing => match kind {
                FieldKind::OptInt { .. } => Some(FieldValue::OptInt(None)),
                FieldKind::OptText => Some(FieldValue::OptText(None)),
                FieldKind::SkippedOptText => Some(FieldValue::OptText(None)),
                _ => None,
            },
            Located::Found(None) => match kind {
                FieldKind::OptInt { .. } => Some(FieldValue::OptInt(None)),
                FieldKind::Bool { .. } => Some(FieldValue::Bool(false)),
                FieldKind::OptText => Some(FieldValue::OptText(None)),
                FieldKind::SkippedOptText => Some(FieldValue::OptText(None)),
                _ => None,
            },
            Located::Found(Some(i)) => {
                let t = self.tokens[i].as_slice();
                assert(t@ == toks[i as int]);
                match kind {
                    FieldKind::Int { lo, hi } => match parse_int_exec(t, lo, hi) {
                        Some(v) => Some(FieldValue::Int(v)),
                        None => None,
                    },
                    FieldKind::DefaultToNone { hi } => match parse_int_exec(t, 0, hi) {
                        Some(v) => Some(
                            FieldValue::OptInt(
                                if v == 0 {
                                    None
                                } else {
                                    Some(v)
                                },
                            ),
                        ),
                        None => None,
                    },
                    FieldKind::OptInt { lo, hi } => {
                        if t.len() == 0 {
                            Some(FieldValue::OptInt(None))
                        } else {
                            match parse_int_exec(t, lo, hi) {
                                Some(v) => Some(FieldValue::OptInt(Some(v))),
                                None => None,
                            }
                        }
                    },
                    FieldKind::Bool { .. } => match parse_bool_exec(t) {
                        Some(b) => Some(FieldValue::Bool(b)),
                        None => None,
                    },
                    FieldKind::Text => Some(FieldValue::Text(string_from_chars(t))),
                    FieldKind::FloatText => {
                        if is_float_text_exec(t) {
                            Some(FieldValue::Text(string_from_chars(t)))
                        } else {
                            None
                        }
                    },
                    FieldKind::OptText | FieldKind::SkippedOptText => {
                        if t.len() == 0 {
                            Some(FieldValue::OptText(None))
                        } else {
                            Some(FieldValue::OptText(Some(string_from_chars(t))))
                        }
                    },
                }
            },
        }
    }

    /// Whether the key occurs among the `key, value` pairs.
    pub fn has_key(&self, key: &str) -> (res: bool)
        ensures
            res == !(lookup(self.tokens(), key@) is Missing),
    {
        let key_chars = chars_of(key);
        match self.locate(key_chars.as_slice()) {
            Located::Missing => false,
            _ => true,
        }
    }

    /// Reads the field of the given kind with the given key from the `key, value` pairs.
    pub fn read_field(&self, key: &str, kind: FieldKind) -> (res: Option<FieldValue>)
        requires
            crate::serde::kind_wf(kind),
        ensures
            match res {
                Some(v) => decode_field(kind, lookup(self.tokens(), key@)) == Some(v@),
                None => decode_field(kind, lookup(self.tokens(), key@)) is None,
            },
    {
        let key_chars = chars_of(key);
        let at = self.locate(key_chars.as_slice());
        self.read_value(kind, at)
    }

    /// Reads the fields of an object described by `schema`.
    pub fn read_struct(&self, schema: &Vec<(u64, FieldKind)>) -> (res: Result<Vec<FieldValue>, Error>)
        requires
            schema_wf(schema@),
        ensures
            res is Ok <==> struct_readable(self.tokens(), schema@, self.is_map_like()),
            res matches Ok(vals) ==> vals@.map_values(|v: FieldValue| v@) == struct_values(
                self.tokens(),
                schema@,
                self.is_map_like(),
            ),
            res matches Err(e) ==> e is Custom,
    {
        let ghost toks = self.tokens();
        let mut vals: Vec<FieldValue> = Vec::new();
        let mut i: usize = 0;
        while i < schema.len()
            invariant
                toks == self.tokens(),
                schema_wf(schema@),
                i <= schema@.len(),
                vals@.len() == i,
                forall|j: int|
                    0 <= j < i ==> #[trigger] decode_field(
                        schema@[j].1,
                        field_lookup(toks, schema@, j, self.is_map_like()),
                    ) == Some(vals@[j]@),
            decreases schema@.len() - i,
        {
            let (key, kind) = schema[i];
            assert(crate::serde::kind_wf(schema@[i as int].1));
            let at = if self.map_like {
                let key_chars = chars_of(format_i128(key as i128).as_str());
                assert(key_chars@ == key_token(key));
                self.locate(key_chars.as_slice())
            } else if i < self.tokens.len() {
                Located::Found(Some(i))
            } else {
                Located::Found(None)
            };
            assert(located_view(at, toks) == field_lookup(toks, schema@, i as int, self.is_map_like()));
            match self.read_value(kind, at) {
                Some(v) => {
                    vals.push(v);
                    i = i + 1;
                },
                None => {
                    let index = format_i128(key as i128);
                    return Err(Error::custom("could not read field", Some(index), None));
                },
            }
        }
        assert(vals@.map_values(|v: FieldValue| v@) =~= struct_values(toks, schema@, self.is_map_like()));
        Ok(vals)
    }
}

/// The consecutive `key, value` pairs of a token sequence (a trailing key without a value is
/// left out).
pub open spec fn token_pairs(tokens: Seq<Seq<char>>) -> Seq<(Seq<char>, Seq<char>)> {
    Seq::new(tokens.len() / 2, |i: int| (tokens[2 * i], tokens[2 * i + 1]))
}

impl IndexedDeserializer {
    /// All tokens of the input, in order.
    pub fn read_tokens(&self) -> (res: Vec<String>)
        ensures
            res@.map_values(|s: String| s@) == self.tokens(),
    {
        let mut out: Vec<String> = Vec::new();
        let mut i: usize = 0;
        while i < self.tokens.len()
            invariant
                i <= self.tokens@.len(),
                out@.len() == i,
                forall|k: int| 0 <= k < i ==> #[trigger] out@[k]@ == self.tokens@[k]@,
            decreases self.tokens@.len() - i,
        {
            out.push(string_from_chars(self.tokens[i].as_slice()));
            i = i + 1;
        }
        assert(out@.map_values(|s: String| s@) =~= self.tokens());
        out
    }

    /// All `key, value` pairs of the input, in order (a trailing key without a value is left out).
    pub fn read_pairs(&self) -> (res: Vec<(String, String)>)
        ensures
            res@.map_values(|p: (String, String)| (p.0@, p.1@)) == token_pairs(self.tokens()),
    {
        let mut out: Vec<(String, String)> = Vec::new();
        let total = self.tokens.len();
        let n = total / 2;
        let mut i: usize = 0;
        while i < n
            invariant
                total == self.tokens@.len(),
                n == total / 2,
                n == self.tokens@.len() / 2,
                i <= n,
                out@.len() == i,
                forall|k: int|
                    0 <= k < i ==> (#[trigger] out@[k]).0@ == self.tokens@[2 * k]@ && out@[k].1@
                        == self.tokens@[2 * k + 1]@,
            decreases n - i,
        {
            assert(i + i + 1 < total) by (nonlinear_arith)
                requires
                    i < n,
                    n == total / 2,
            ;
            let k: usize = i + i;
            let key = string_from_chars(self.tokens[k].as_slice());
            let value = string_from_chars(self.tokens[k + 1].as_slice());
            out.push((key, value));
            i = i + 1;
        }
        assert(out@.map_values(|p: (String, String)| (p.0@, p.1@)) =~= token_pairs(self.tokens()));
        out
    }
}

/// Reads a boolean token.
pub fn parse_bool_exec(t: &[char]) -> (res: Option<bool>)
    ensures
        res == parse_bool(t@),
{
    if t.len() == 0 || (t.len() == 1 && t[0] == '0') {
        assert(t.len() == 1 ==> t@ =~= seq!['0']);
        Some(false)
    } else if (t.len() == 1 && (t[0] == '1' || t[0] == '2')) || (t.len() == 2 && t[0] == '1' && t[1] == '0') {
        assert(t.len() == 1 && t[0] == '1' ==> t@ =~= seq!['1']);
        assert(t.len() == 1 && t[0] == '2' ==> t@ =~= seq!['2']);
        assert(t.len() == 2 ==> t@ =~= seq!['1', '0']);
        Some(true)
    } else {
        assert(t@ != seq!['0']);
        assert(t@ != seq!['1']);
        assert(t@ != seq!['2']);
        assert(t@ != seq!['1', '0']);
        None
    }
}

} // verus!
