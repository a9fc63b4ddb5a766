//! Users as found by a search.

use vstd::prelude::*;
use crate::serde::de::error::Error as DeError;
use crate::serde::ser::error::Error as SerError;
use crate::serde::gj::{
    clone_opt_string, fields_faithful, fv_bool, fv_int, fv_opt_int, fv_opt_text, fv_text,
    lemma_keys_distinct_by_position, lemma_struct_tokens_nonempty, read_gj, value_bool,
    value_int, value_opt_int, value_opt_text, value_text, write_gj_fields,
};
use crate::serde::thunk::{thunk_text, thunk_value, ProcessError, Thunk, ThunkProcessor, ThunkView};
use crate::serde::{
    encode_field, field_ok, field_views, keys_distinct, lemma_struct_roundtrip, schema_wf,
    struct_readable, struct_tokens, struct_values, values_separable, BoolStyle, FieldKind,
    FieldValue, FieldView, InternalProxy,
};
use crate::split::{join, split};
use crate::model::user::{Color, IconType};

verus! {

/// A user as listed in the results of a user search.
#[derive(Debug, Clone, PartialEq)]
pub struct SearchedUser {
    /// The user's name.
    pub name: String,
    /// The user's id.
    pub user_id: u64,
    /// The user's stars.
    pub stars: u32,
    /// The number of demons the user has beaten.
    pub demons: u16,
    /// Unknown.
    pub index_6: Option<String>,
    /// The user's creator points.
    pub creator_points: u16,
    /// The index of the user's icon.
    pub icon_index: u16,
    /// The user's primary color.
    pub primary_color: Color,
    /// The user's secondary color.
    pub secondary_color: Color,
    /// The user's secret coins.
    pub secret_coins: u8,
    /// The game mode of the user's icon.
    pub icon_type: IconType,
    /// Whether the user's icon glows.
    pub has_glow: bool,
    /// The user's account id.
    pub account_id: u64,
    /// The user's user coins.
    pub user_coins: u16,
    /// The user's moons.
    pub moons: u32,
}

/// The abstract value of a [`SearchedUser`].
#[verifier::ext_equal]
pub struct SearchedUserView {
    pub name: Seq<char>,
    pub user_id: u64,
    pub stars: u32,
    pub demons: u16,
    pub index_6: Option<Seq<char>>,
    pub creator_points: u16,
    pub icon_index: u16,
    pub primary_color: Color,
    pub secondary_color: Color,
    pub secret_coins: u8,
    pub icon_type: IconType,
    pub has_glow: bool,
    pub account_id: u64,
    pub user_coins: u16,
    pub moons: u32,
}

impl View for SearchedUser {
    type V = SearchedUserView;

    open spec fn view(&self) -> SearchedUserView {
        SearchedUserView {
            name: self.name@,
            user_id: self.user_id,
            stars: self.stars,
            demons: self.demons,
            index_6: match &self.index_6 { Some(x) => Some(x@), None => None },
            creator_points: self.creator_points,
            icon_index: self.icon_index,
            primary_color: self.primary_color,
            secondary_color: self.secondary_color,
            secret_coins: self.secret_coins,
            icon_type: self.icon_type,
            has_glow: self.has_glow,
            account_id: self.account_id,
            user_coins: self.user_coins,
            moons: self.moons,
        }
    }
}

/// The indices and kinds of the fields of a [`SearchedUser`], in the order they are written.
pub open spec fn searched_user_schema() -> Seq<(u64, FieldKind)> {
    seq![
        (1u64, FieldKind::Text),
        (2u64, FieldKind::Int { lo: 0i128, hi: 18446744073709551615i128 }),
        (3u64, FieldKind::Int { lo: 0i128, hi: 4294967295i128 }),
        (4u64, FieldKind::Int { lo: 0i128, hi: 65535i128 }),
        (6u64, FieldKind::OptText),
        (8u64, FieldKind::Int { lo: 0i128, hi: 65535i128 }),
        (9u64, FieldKind::Int { lo: 0i128, hi: 65535i128 }),
        (10u64, FieldKind::Int { lo: 0i128, hi: 255i128 }),
        (11u64, FieldKind::Int { lo: 0i128, hi: 255i128 }),
        (13u64, FieldKind::Int { lo: 0i128, hi: 255i128 }),
        (14u64, FieldKind::Int { lo: 0i128, hi: 255i128 }),
        (15u64, FieldKind::Bool { style: BoolStyle::TwoZero }),
        (16u64, FieldKind::Int { lo: 0i128, hi: 18446744073709551615i128 }),
        (17u64, FieldKind::Int { lo: 0i128, hi: 65535i128 }),
        (52u64, FieldKind::Int { lo: 0i128, hi: 4294967295i128 }),
    ]
}

/// The position of each index in [`searched_user_schema`].
pub open spec fn searched_user_key_position(k: u64) -> int {
    if k == 1 {
        0
    } else if k == 2 {
        1
    } else if k == 3 {
        2
    } else if k == 4 {
        3
    } else if k == 6 {
        4
    } else if k == 8 {
        5
    } else if k == 9 {
        6
    } else if k == 10 {
        7
    } else if k == 11 {
        8
    } else if k == 13 {
        9
    } else if k == 14 {
        10
    } else if k == 15 {
        11
    } else if k == 16 {
        12
    } else if k == 17 {
        13
    } else if k == 52 {
        14
    } else {
        -1
    }
}

/// The delimiter of a [`SearchedUser`]'s fields.
pub open spec fn searched_user_delimiter() -> Seq<char> {
    seq![':']
}

impl SearchedUserView {
    /// The field values this object is written as (`None`: a value cannot be written).
    pub open spec fn gj_fields(self) -> Option<Seq<FieldView>> {
        Some(seq![
            FieldView::Text(self.name),
            FieldView::Int(self.user_id as int),
            FieldView::Int(self.stars as int),
            FieldView::Int(self.demons as int),
            FieldView::OptText(self.index_6),
            FieldView::Int(self.creator_points as int),
            FieldView::Int(self.icon_index as int),
            FieldView::Int(self.primary_color.spec_to_proxy() as int),
            FieldView::Int(self.secondary_color.spec_to_proxy() as int),
            FieldView::Int(self.secret_coins as int),
            FieldView::Int(self.icon_type.spec_to_proxy() as int),
            FieldView::Bool(self.has_glow),
            FieldView::Int(self.account_id as int),
            FieldView::Int(self.user_coins as int),
            FieldView::Int(self.moons as int),
        ])
    }

    /// Whether this object is the one its written form reads back as: every value with an index
    /// is the one its written value is read as, thunks are unprocessed and values without an
    /// index are absent.
    pub open spec fn is_canonical(self) -> bool {
        Color::spec_from_proxy(self.primary_color.spec_to_proxy()) == self.primary_color
        && Color::spec_from_proxy(self.secondary_color.spec_to_proxy()) == self.secondary_color
        && IconType::spec_from_proxy(self.icon_type.spec_to_proxy()) == self.icon_type
    }

}

impl SearchedUser {
    /// The object read from the given field values.
    pub open spec fn from_fields(vals: Seq<FieldView>) -> SearchedUserView {
        SearchedUserView {
            name: fv_text(vals[0]),
            user_id: fv_int(vals[1]) as u64,
            stars: fv_int(vals[2]) as u32,
            demons: fv_int(vals[3]) as u16,
            index_6: fv_opt_text(vals[4]),
            creator_points: fv_int(vals[5]) as u16,
            icon_index: fv_int(vals[6]) as u16,
            primary_color: Color::spec_from_proxy(fv_int(vals[7]) as u8),
            secondary_color: Color::spec_from_proxy(fv_int(vals[8]) as u8),
            secret_coins: fv_int(vals[9]) as u8,
            icon_type: IconType::spec_from_proxy(fv_int(vals[10]) as u8),
            has_glow: fv_bool(vals[11]),
            account_id: fv_int(vals[12]) as u64,
            user_coins: fv_int(vals[13]) as u16,
            moons: fv_int(vals[14]) as u32,
        }
    }

    /// The indices and kinds of the fields.
    fn gj_schema() -> (res: Vec<(u64, FieldKind)>)
        ensures
            res@ == searched_user_schema(),
    {
        let res = vec![
            (1u64, FieldKind::Text),
            (2u64, FieldKind::Int { lo: 0i128, hi: 18446744073709551615i128 }),
            (3u64, FieldKind::Int { lo: 0i128, hi: 4294967295i128 }),
            (4u64, FieldKind::Int { lo: 0i128, hi: 65535i128 }),
            (6u64, FieldKind::OptText),
            (8u64, FieldKind::Int { lo: 0i128, hi: 65535i128 }),
            (9u64, FieldKind::Int { lo: 0i128, hi: 65535i128 }),
            (10u64, FieldKind::Int { lo: 0i128, hi: 255i128 }),
            (11u64, FieldKind::Int { lo: 0i128, hi: 255i128 }),
            (13u64, FieldKind::Int { lo: 0i128, hi: 255i128 }),
            (14u64, FieldKind::Int { lo: 0i128, hi: 255i128 }),
            (15u64, FieldKind::Bool { style: BoolStyle::TwoZero }),
            (16u64, FieldKind::Int { lo: 0i128, hi: 18446744073709551615i128 }),
            (17u64, FieldKind::Int { lo: 0i128, hi: 65535i128 }),
            (52u64, FieldKind::Int { lo: 0i128, hi: 4294967295i128 }),
        ];
        assert(res@ =~= searched_user_schema());
        res
    }

    /// The object holding the given field values.
    fn from_values(vals: &Vec<FieldValue>) -> (res: SearchedUser)
        requires
            vals@.len() == 15,
        ensures
            res@ == SearchedUser::from_fields(field_views(vals@)),
    {
        let res = SearchedUser {
            name: value_text(&vals[0]),
            user_id: value_int(&vals[1]) as u64,
            stars: value_int(&vals[2]) as u32,
            demons: value_int(&vals[3]) as u16,
            index_6: value_opt_text(&vals[4]),
            creator_points: value_int(&vals[5]) as u16,
            icon_index: value_int(&vals[6]) as u16,
            primary_color: Color::from_deserialize_proxy(value_int(&vals[7]) as u8),
            secondary_color: Color::from_deserialize_proxy(value_int(&vals[8]) as u8),
            secret_coins: value_int(&vals[9]) as u8,
            icon_type: IconType::from_deserialize_proxy(value_int(&vals[10]) as u8),
            has_glow: value_bool(&vals[11]),
            account_id: value_int(&vals[12]) as u64,
            user_coins: value_int(&vals[13]) as u16,
            moons: value_int(&vals[14]) as u32,
        };
        assert(res@ =~= SearchedUser::from_fields(field_views(vals@)));
        res
    }

    /// The field values this object is written as.
    fn to_values(&self) -> (res: Result<Vec<FieldValue>, ProcessError>)
        ensures
            match res {
                Ok(vals) => self@.gj_fields() == Some(field_views(vals@)),
                Err(_) => self@.gj_fields() is None,
            },
    {
        let v0 = FieldValue::Text(self.name.clone());
        let v1 = FieldValue::Int(self.user_id as i128);
        let v2 = FieldValue::Int(self.stars as i128);
        let v3 = FieldValue::Int(self.demons as i128);
        let v4 = FieldValue::OptText(clone_opt_string(&self.index_6));
        let v5 = FieldValue::Int(self.creator_points as i128);
        let v6 = FieldValue::Int(self.icon_index as i128);
        let v7 = FieldValue::Int(self.primary_color.to_serialize_proxy() as i128);
        let v8 = FieldValue::Int(self.secondary_color.to_serialize_proxy() as i128);
        let v9 = FieldValue::Int(self.secret_coins as i128);
        let v10 = FieldValue::Int(self.icon_type.to_serialize_proxy() as i128);
        let v11 = FieldValue::Bool(self.has_glow);
        let v12 = FieldValue::Int(self.account_id as i128);
        let v13 = FieldValue::Int(self.user_coins as i128);
        let v14 = FieldValue::Int(self.moons as i128);
        let vals = vec![v0, v1, v2, v3, v4, v5, v6, v7, v8, v9, v10, v11, v12, v13, v14];
        assert(field_views(vals@) =~= self@.gj_fields()->0);
        Ok(vals)
    }

    /// Reads a [`SearchedUser`] from RobTop's format: the fields are separated by `:`, each preceded by its index.
    pub fn from_gj_str(input: &str) -> (res: Result<SearchedUser, DeError>)
        ensures
            res is Ok <==> struct_readable(split(input@, searched_user_delimiter()), searched_user_schema(), true),
            res matches Ok(x) ==> x@ == SearchedUser::from_fields(
                struct_values(split(input@, searched_user_delimiter()), searched_user_schema(), true),
            ),
            res matches Err(e) ==> e is Custom,
    {
        proof {
            reveal_strlit(":");
            assert(":"@ =~= searched_user_delimiter());
            lemma_searched_user_schema();
        }
        let schema = SearchedUser::gj_schema();
        match read_gj(input, ":", true, &schema) {
            Ok(vals) => {
                assert(field_views(vals@).len() == vals@.len());
                Ok(SearchedUser::from_values(&vals))
            },
            Err(e) => Err(e),
        }
    }

    /// Writes this object in RobTop's format; fails when a thunk cannot be written.
    pub fn write_gj(&self) -> (res: Result<String, SerError>)
        ensures
            res is Ok <==> self@.gj_fields() is Some,
            res matches Ok(s) ==> s@ == join(
                struct_tokens(searched_user_schema(), self@.gj_fields()->0, true),
                searched_user_delimiter(),
            ),
    {
        proof {
            reveal_strlit(":");
            assert(":"@ =~= searched_user_delimiter());
        }
        match self.to_values() {
            Ok(vals) => {
                assert(field_views(vals@).len() == vals@.len());
                let schema = SearchedUser::gj_schema();
                Ok(write_gj_fields(":", true, &schema, &vals))
            },
            Err(_) => Err(SerError::Custom("a value cannot be written".to_string())),
        }
    }
}

/// The schema of a [`SearchedUser`] is well formed and no two of its fields share an index.
proof fn lemma_searched_user_schema()
    ensures
        schema_wf(searched_user_schema()),
        keys_distinct(searched_user_schema()),
{
    lemma_keys_distinct_by_position(searched_user_schema(), |k: u64| searched_user_key_position(k));
}

/// Reading back what was written for a [`SearchedUser`] gives the object again, for every canonical
/// object whose values each fit their field (see [`field_ok`]) and whose texts do not hide the
/// delimiter `:`.
pub proof fn lemma_searched_user_roundtrip(v: SearchedUserView)
    requires
        v.is_canonical(),
        v.gj_fields() is Some,
        fields_faithful(searched_user_schema(), v.gj_fields()->0),
        values_separable(searched_user_schema(), v.gj_fields()->0, searched_user_delimiter()),
    ensures
        struct_readable(
            split(join(struct_tokens(searched_user_schema(), v.gj_fields()->0, true), searched_user_delimiter()), searched_user_delimiter()),
            searched_user_schema(),
            true,
        ),
        SearchedUser::from_fields(
            struct_values(
                split(join(struct_tokens(searched_user_schema(), v.gj_fields()->0, true), searched_user_delimiter()), searched_user_delimiter()),
                searched_user_schema(),
                true,
            ),
        ) == v,
{
    let f = v.gj_fields()->0;
    lemma_searched_user_schema();
    lemma_struct_tokens_nonempty(searched_user_schema(), f, true, 0);
    lemma_struct_roundtrip(searched_user_schema(), f, true, searched_user_delimiter());
    assert(SearchedUser::from_fields(f) =~= v);
}

} // verus!
