//! Writing objects in RobTop's indexed data format.

use vstd::prelude::*;
use crate::serde::ser::error::Error;
use crate::serde::{
    bool_token, emit, encode_field, field_views, key_token, lemma_emit_push, map_tokens,
    list_tokens, struct_tokens, BoolStyle, FieldKind, FieldValue,
};
use crate::text::format_i128;

verus! {

/// Writer for RobTop's indexed data format (see
/// [`IndexedDeserializer`](crate::serde::de::indexed::IndexedDeserializer)).
#[derive(Debug)]
pub struct IndexedSerializer {
    delimiter: &'static str,
    buffer: String,
    map_like: bool,
    /// Whether nothing has been written yet, in which case no delimiter precedes the next token.
    is_start: bool,
}

impl IndexedSerializer {
    /// What has been written so far.
    pub closed spec fn output(&self) -> Seq<char> {
        self.buffer@
    }

    /// The delimiter written between two tokens.
    pub closed spec fn delimiter(&self) -> Seq<char> {
        self.delimiter@
    }

    /// Whether fields are written as `key, value` pairs.
    pub closed spec fn is_map_like(&self) -> bool {
        self.map_like
    }

    /// Whether no token has been written yet.
    pub closed spec fn at_start(&self) -> bool {
        self.is_start
    }

    /// A writer that has written nothing yet.
    pub fn new(delimiter: &'static str, map_like: bool) -> (res: IndexedSerializer)
        ensures
            res.output() == Seq::<char>::empty(),
            res.at_start(),
            res.delimiter() == delimiter@,
            res.is_map_like() == map_like,
    {
        IndexedSerializer { delimiter, buffer: String::new(), map_like, is_start: true }
    }

    /// Everything written so far.
    pub fn into_output(self) -> (res: String)
        ensures
            res@ == self.output(),
    {
        self.buffer
    }

    /// Writes a token, preceded by the delimiter unless it is the first one.
    pub fn append(&mut self, s: &str) -> (res: Result<(), Error>)
        ensures
            res is Ok,
            final(self).output() == if old(self).at_start() {
                old(self).output() + s@
            } else {
                old(self).output() + old(self).delimiter() + s@
            },
            !final(self).at_start(),
            final(self).delimiter() == old(self).delimiter(),
            final(self).is_map_like() == old(self).is_map_like(),
    {
        if self.is_start {
            self.is_start = false;
        } else {
            self.buffer.append(self.delimiter);
        }
        self.buffer.append(s);
        Ok(())
    }

    /// Writes an integer in decimal.
    pub fn append_integer(&mut self, n: i128) -> (res: Result<(), Error>)
        ensures
            res is Ok,
            final(self).output() == if old(self).at_start() {
                old(self).output() + crate::text::signed_decimal(n as int)
            } else {
                old(self).output() + old(self).delimiter() + crate::text::signed_decimal(n as int)
            },
            !final(self).at_start(),
            final(self).delimiter() == old(self).delimiter(),
            final(self).is_map_like() == old(self).is_map_like(),
    {
        let s = format_i128(n);
        self.append(s.as_str())
    }

    /// Writes a boolean as `1` or `0`.
    pub fn serialize_bool(&mut self, v: bool) -> (res: Result<(), Error>)
        ensures
            res is Ok,
            final(self).output() == if old(self).at_start() {
                old(self).output() + bool_token(BoolStyle::OneZero, v)
            } else {
                old(self).output() + old(self).delimiter() + bool_token(BoolStyle::OneZero, v)
            },
            !final(self).at_start(),
            final(self).delimiter() == old(self).delimiter(),
            final(self).is_map_like() == old(self).is_map_like(),
    {
        proof {
            reveal_strlit("1");
            reveal_strlit("0");
        }
        self.append(if v { "1" } else { "0" })
    }

    /// Writes an absent value: just the delimiter.
    pub fn serialize_none(&mut self) -> (res: Result<(), Error>)
        ensures
            res is Ok,
            final(self).output() == old(self).output() + old(self).delimiter(),
            final(self).at_start() == old(self).at_start(),
            final(self).delimiter() == old(self).delimiter(),
            final(self).is_map_like() == old(self).is_map_like(),
    {
        self.buffer.append(self.delimiter);
        Ok(())
    }

    /// Writes the fields of an object described by `schema`: in the map-like variant each value is
    /// preceded by its index, in the list-like variant the values follow each other; fields whose
    /// value is left out (see [`encode_field`]) are skipped.
    pub fn write_struct(&mut self, schema: &Vec<(u64, FieldKind)>, vals: &Vec<FieldValue>) -> (res: Result<(), Error>)
        requires
            vals@.len() == schema@.len(),
        ensures
            res is Ok,
            final(self).output() == emit(
                old(self).output(),
                old(self).at_start(),
                struct_tokens(schema@, field_views(vals@), old(self).is_map_like()),
                old(self).delimiter(),
            ),
            final(self).at_start() == (old(self).at_start() && struct_tokens(
                schema@,
                field_views(vals@),
                old(self).is_map_like(),
            ).len() == 0),
            final(self).delimiter() == old(self).delimiter(),
            final(self).is_map_like() == old(self).is_map_like(),
    {
        let ghost buf0 = self.output();
        let ghost start0 = self.at_start();
        let ghost d = self.delimiter();
        let ghost fv = field_views(vals@);
        let mut i: usize = 0;
        while i < schema.len()
            invariant
                vals@.len() == schema@.len(),
                i <= schema@.len(),
                fv == field_views(vals@),
                d == self.delimiter(),
                self.is_map_like() == old(self).is_map_like(),
                self.output() == emit(
                    buf0,
                    start0,
                    if self.is_map_like() {
                        map_tokens(schema@, fv, i as nat)
                    } else {
                        list_tokens(schema@, fv, i as nat)
                    },
                    d,
                ),
                self.at_start() == (start0 && (if self.is_map_like() {
                    map_tokens(schema@, fv, i as nat)
                } else {
                    list_tokens(schema@, fv, i as nat)
                }).len() == 0),
            decreases schema@.len() - i,
        {
            let (key, kind) = schema[i];
            assert(fv[i as int] == vals@[i as int]@);
            match encode_value(kind, &vals[i]) {
                Some(t) => {
                    if self.map_like {
                        let ghost prev = map_tokens(schema@, fv, i as nat);
                        let k = format_i128(key as i128);
                        assert(k@ == key_token(key));
                        proof {
                            lemma_emit_push(buf0, start0, prev, k@, d);
                            lemma_emit_push(buf0, start0, prev.push(k@), t@, d);
                            assert(prev + seq![k@, t@] =~= prev.push(k@).push(t@));
                        }
                        let _ = self.append(k.as_str());
                        let _ = self.append(t.as_str());
                    } else {
                        let ghost prev = list_tokens(schema@, fv, i as nat);
                        proof {
                            lemma_emit_push(buf0, start0, prev, t@, d);
                        }
                        let _ = self.append(t.as_str());
                    }
                },
                None => {},
            }
            i = i + 1;
        }
        Ok(())
    }
}

/// The token a field value is written as (`None`: the field is left out).
pub fn encode_value(kind: FieldKind, v: &FieldValue) -> (res: Option<String>)
    ensures
        match res {
            Some(s) => encode_field(kind, v@) == Some(s@),
            None => encode_field(kind, v@) is None,
        },
{
    proof {
        reveal_strlit("0");
        reveal_strlit("1");
        reveal_strlit("2");
        reveal_strlit("10");
        reveal_strlit("");
    }
    match kind {
        FieldKind::Int { .. } => match v {
            FieldValue::Int(x) => Some(format_i128(*x)),
            _ => None,
        },
        FieldKind::DefaultToNone { .. } => match v {
            FieldValue::OptInt(Some(x)) => Some(format_i128(*x)),
            FieldValue::OptInt(None) => Some("0".to_string()),
            _ => None,
        },
        FieldKind::OptInt { .. } => match v {
            FieldValue::OptInt(Some(x)) => Some(format_i128(*x)),
            FieldValue::OptInt(None) => Some(String::new()),
            _ => None,
        },
        FieldKind::Bool { style } => match v {
            FieldValue::Bool(b) => Some(
                (match style {
                    BoolStyle::OneZero => if *b { "1" } else { "0" },
                    BoolStyle::TenZero => if *b { "10" } else { "0" },
                    BoolStyle::OneEmpty => if *b { "1" } else { "" },
                    BoolStyle::TwoZero => if *b { "2" } else { "0" },
                }).to_string(),
            ),
            _ => None,
        },
        FieldKind::Text | FieldKind::FloatText => match v {
            FieldValue::Text(t) => Some(t.clone()),
            _ => None,
        },
        FieldKind::OptText => match v {
            FieldValue::OptText(Some(t)) => Some(t.clone()),
            FieldValue::OptText(None) => Some(String::new()),
            _ => None,
        },
        FieldKind::SkippedOptText => match v {
            FieldValue::OptText(Some(t)) => Some(t.clone()),
            _ => None,
        },
    }
}

} // verus!
