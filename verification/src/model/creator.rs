//! Level creators.

use vstd::prelude::*;
use crate::serde::de::error::Error as DeError;
use crate::serde::ser::error::Error as SerError;
use crate::serde::gj::{
    clone_opt_string, fields_faithful, fv_bool, fv_int, fv_opt_int, fv_opt_text, fv_text,
    lemma_keys_distinct_by_position, lemma_struct_tokens_nonempty, read_gj, value_bool,
    value_int, value_opt_int, value_opt_text, value_text, write_gj_fields,
};
use crate::serde::thunk::{thunk_text, thunk_value, ProcessError, Thunk, ThunkProcessor, ThunkView};
use crate::serde::{
    encode_field, field_ok, field_views, keys_distinct, lemma_struct_roundtrip, schema_wf,
    struct_readable, struct_tokens, struct_values, values_separable, BoolStyle, FieldKind,
    FieldValue, FieldView, InternalProxy,
};
use crate::split::{join, split};

verus! {

/// The creator of a level, as listed next to the levels of a search result.
#[derive(Debug, Clone, PartialEq)]
pub struct Creator {
    /// The creator's user id.
    pub user_id: u64,
    /// The creator's name.
    pub name: String,
    /// The creator's account id, absent for creators without an account (written as `0`).
    pub account_id: Option<u64>,
}

/// The abstract value of a [`Creator`].
#[verifier::ext_equal]
pub struct CreatorView {
    pub user_id: u64,
    pub name: Seq<char>,
    pub account_id: Option<u64>,
}

impl View for Creator {
    type V = CreatorView;

    open spec fn view(&self) -> CreatorView {
        CreatorView {
            user_id: self.user_id,
            name: self.name@,
            account_id: self.account_id,
        }
    }
}

/// The indices and kinds of the fields of a [`Creator`], in the order they are written.
pub open spec fn creator_schema() -> Seq<(u64, FieldKind)> {
    seq![
        (1u64, FieldKind::Int { lo: 0i128, hi: 18446744073709551615i128 }),
        (2u64, FieldKind::Text),
        (3u64, FieldKind::DefaultToNone { hi: 18446744073709551615i128 }),
    ]
}

/// The position of each index in [`creator_schema`].
pub open spec fn creator_key_position(k: u64) -> int {
    if k == 1 {
        0
    } else if k == 2 {
        1
    } else if k == 3 {
        2
    } else {
        -1
    }
}

/// The delimiter of a [`Creator`]'s fields.
pub open spec fn creator_delimiter() -> Seq<char> {
    seq![':']
}

impl CreatorView {
    /// The field values this object is written as (`None`: a value cannot be written).
    pub open spec fn gj_fields(self) -> Option<Seq<FieldView>> {
        Some(seq![
            FieldView::Int(self.user_id as int),
            FieldView::Text(self.name),
            FieldView::OptInt(match self.account_id { Some(x) => Some(x as int), None => None }),
        ])
    }

    /// Whether this object is the one its written form reads back as: every value with an index
    /// is the one its written value is read as, thunks are unprocessed and values without an
    /// index are absent.
    pub open spec fn is_canonical(self) -> bool {
        true
    }

}

impl Creator {
    /// The object read from the given field values.
    pub open spec fn from_fields(vals: Seq<FieldView>) -> CreatorView {
        CreatorView {
            user_id: fv_int(vals[0]) as u64,
            name: fv_text(vals[1]),
            account_id: match fv_opt_int(vals[2]) { Some(x) => Some(x as u64), None => None },
        }
    }

    /// The indices and kinds of the fields.
    fn gj_schema() -> (res: Vec<(u64, FieldKind)>)
        ensures
            res@ == creator_schema(),
    {
        let res = vec![
            (1u64, FieldKind::Int { lo: 0i128, hi: 18446744073709551615i128 }),
            (2u64, FieldKind::Text),
            (3u64, FieldKind::DefaultToNone { hi: 18446744073709551615i128 }),
        ];
        assert(res@ =~= creator_schema());
        res
    }

    /// The object holding the given field values.
    fn from_values(vals: &Vec<FieldValue>) -> (res: Creator)
        requires
            vals@.len() == 3,
        ensures
            res@ == Creator::from_fields(field_views(vals@)),
    {
        let res = Creator {
            user_id: value_int(&vals[0]) as u64,
            name: value_text(&vals[1]),
            account_id: match value_opt_int(&vals[2]) { Some(x) => Some(x as u64), None => None },
        };
        assert(res@ =~= Creator::from_fields(field_views(vals@)));
        res
    }

    /// The field values this object is written as.
    fn to_values(&self) -> (res: Result<Vec<FieldValue>, ProcessError>)
        ensures
            match res {
                Ok(vals) => self@.gj_fields() == Some(field_views(vals@)),
                Err(_) => self@.gj_fields() is None,
            },
    {
        let v0 = FieldValue::Int(self.user_id as i128);
        let v1 = FieldValue::Text(self.name.clone());
        let v2 = FieldValue::OptInt(match self.account_id { Some(x) => Some(x as i128), None => None });
        let vals = vec![v0, v1, v2];
        assert(field_views(vals@) =~= self@.gj_fields()->0);
        Ok(vals)
    }

    /// Reads a [`Creator`] from RobTop's format: the fields are separated by `:`.
    pub fn from_gj_str(input: &str) -> (res: Result<Creator, DeError>)
        ensures
            res is Ok <==> struct_readable(split(input@, creator_delimiter()), creator_schema(), false),
            res matches Ok(x) ==> x@ == Creator::from_fields(
                struct_values(split(input@, creator_delimiter()), creator_schema(), false),
            ),
            res matches Err(e) ==> e is Custom,
    {
        proof {
            reveal_strlit(":");
            assert(":"@ =~= creator_delimiter());
            lemma_creator_schema();
        }
        let schema = Creator::gj_schema();
        match read_gj(input, ":", false, &schema) {
            Ok(vals) => {
                assert(field_views(vals@).len() == vals@.len());
                Ok(Creator::from_values(&vals))
            },
            Err(e) => Err(e),
        }
    }

    /// Writes this object in RobTop's format; fails when a thunk cannot be written.
    pub fn write_gj(&self) -> (res: Result<String, SerError>)
        ensures
            res is Ok <==> self@.gj_fields() is Some,
            res matches Ok(s) ==> s@ == join(
                struct_tokens(creator_schema(), self@.gj_fields()->0, false),
                creator_delimiter(),
            ),
    {
        proof {
            reveal_strlit(":");
            assert(":"@ =~= creator_delimiter());
        }
        match self.to_values() {
            Ok(vals) => {
                assert(field_views(vals@).len() == vals@.len());
                let schema = Creator::gj_schema();
                Ok(write_gj_fields(":", false, &schema, &vals))
            },
            Err(_) => Err(SerError::Custom("a value cannot be written".to_string())),
        }
    }
}

/// The schema of a [`Creator`] is well formed and no two of its fields share an index.
proof fn lemma_creator_schema()
    ensures
        schema_wf(creator_schema()),
        keys_distinct(creator_schema()),
{
    lemma_keys_distinct_by_position(creator_schema(), |k: u64| creator_key_position(k));
}

/// Reading back what was written for a [`Creator`] gives the object again, for every canonical
/// object whose values each fit their field (see [`field_ok`]) and whose texts do not hide the
/// delimiter `:`.
pub proof fn lemma_creator_roundtrip(v: CreatorView)
    requires
        v.is_canonical(),
        v.gj_fields() is Some,
        fields_faithful(creator_schema(), v.gj_fields()->0),
        values_separable(creator_schema(), v.gj_fields()->0, creator_delimiter()),
    ensures
        struct_readable(
            split(join(struct_tokens(creator_schema(), v.gj_fields()->0, false), creator_delimiter()), creator_delimiter()),
            creator_schema(),
            false,
        ),
        Creator::from_fields(
            struct_values(
                split(join(struct_tokens(creator_schema(), v.gj_fields()->0, false), creator_delimiter()), creator_delimiter()),
                creator_schema(),
                false,
            ),
        ) == v,
{
    let f = v.gj_fields()->0;
    lemma_creator_schema();
    lemma_struct_tokens_nonempty(creator_schema(), f, false, 0);
    assert forall|i: int| 0 <= i < creator_schema().len() implies (#[trigger] encode_field(creator_schema()[i].1, f[i])) is Some by {
        assert(field_ok(creator_schema()[i].1, f[i]));
    }
    lemma_struct_roundtrip(creator_schema(), f, false, creator_delimiter());
    assert(Creator::from_fields(f) =~= v);
}
/// A level creator, in the form it is read and written in.
#[derive(Debug, Clone, PartialEq, Eq)]
pub struct RawCreator {
    /// The creator's user id.
    pub user_id: u64,
    /// The creator's name.
    pub name: String,
    /// The creator's account id, absent for creators without an account.
    pub account_id: Option<u64>,
}

impl View for RawCreator {
    type V = CreatorView;

    open spec fn view(&self) -> CreatorView {
        CreatorView { user_id: self.user_id, name: self.name@, account_id: self.account_id }
    }
}

impl RawCreator {
    /// The owned creator holding the same values.
    pub fn to_owned(self) -> (res: Creator)
        ensures
            res@ == self@,
    {
        Creator { user_id: self.user_id, name: self.name, account_id: self.account_id }
    }
}

impl Creator {
    /// The creator in the form it is read and written in.
    pub fn as_raw(&self) -> (res: RawCreator)
        ensures
            res@ == self@,
    {
        RawCreator { user_id: self.user_id, name: self.name.clone(), account_id: self.account_id }
    }

    /// The creator with all its data owned.
    pub fn into_owned(self) -> (res: Creator)
        ensures
            res@ == self@,
    {
        Creator { user_id: self.user_id, name: self.name, account_id: self.account_id }
    }
}

} // verus!
