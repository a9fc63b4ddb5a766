//! Comments on levels and profiles.

use vstd::prelude::*;
use crate::serde::de::error::Error as DeError;
use crate::serde::ser::error::Error as SerError;
use crate::serde::gj::{
    clone_opt_string, fields_faithful, fv_bool, fv_int, fv_opt_int, fv_opt_text, fv_text,
    lemma_keys_distinct_by_position, lemma_struct_tokens_nonempty, read_gj, value_bool,
    value_int, value_opt_int, value_opt_text, value_text, write_gj_fields,
};
use crate::serde::thunk::{thunk_text, thunk_value, ProcessError, Thunk, ThunkProcessor, ThunkView};
use crate::serde::{
    encode_field, field_ok, field_views, keys_distinct, lemma_struct_roundtrip, schema_wf,
    struct_readable, struct_tokens, struct_values, values_separable, BoolStyle, FieldKind,
    FieldValue, FieldView, InternalProxy,
};
use crate::split::{join, split};
use crate::model::user::{Color, IconType, ModLevel};
use crate::serde::thunk::Base64Decoder;

verus! {

/// The author of a comment, as the servers describe them next to it.
#[derive(Debug, Clone, PartialEq)]
pub struct CommentUser {
    /// The user's name.
    pub name: String,
    /// The index of the user's icon.
    pub icon_index: u16,
    /// The user's primary color.
    pub primary_color: Color,
    /// The user's secondary color.
    pub secondary_color: Color,
    /// The game mode of the user's icon.
    pub icon_type: IconType,
    /// Whether the user's icon glows.
    pub has_glow: bool,
    /// The user's account id, absent for unregistered users.
    pub account_id: Option<u64>,
}

/// The abstract value of a [`CommentUser`].
#[verifier::ext_equal]
pub struct CommentUserView {
    pub name: Seq<char>,
    pub icon_index: u16,
    pub primary_color: Color,
    pub secondary_color: Color,
    pub icon_type: IconType,
    pub has_glow: bool,
    pub account_id: Option<u64>,
}

impl View for CommentUser {
    type V = CommentUserView;

    open spec fn view(&self) -> CommentUserView {
        CommentUserView {
            name: self.name@,
            icon_index: self.icon_index,
            primary_color: self.primary_color,
            secondary_color: self.secondary_color,
            icon_type: self.icon_type,
            has_glow: self.has_glow,
            account_id: self.account_id,
        }
    }
}

/// The indices and kinds of the fields of a [`CommentUser`], in the order they are written.
pub open spec fn comment_user_schema() -> Seq<(u64, FieldKind)> {
    seq![
        (1u64, FieldKind::Text),
        (9u64, FieldKind::Int { lo: 0i128, hi: 65535i128 }),
        (10u64, FieldKind::Int { lo: 0i128, hi: 255i128 }),
        (11u64, FieldKind::Int { lo: 0i128, hi: 255i128 }),
        (14u64, FieldKind::Int { lo: 0i128, hi: 255i128 }),
        (15u64, FieldKind::Bool { style: BoolStyle::TwoZero }),
        (16u64, FieldKind::OptInt { lo: 0i128, hi: 18446744073709551615i128 }),
    ]
}

/// The position of each index in [`comment_user_schema`].
pub open spec fn comment_user_key_position(k: u64) -> int {
    if k == 1 {
        0
    } else if k == 9 {
        1
    } else if k == 10 {
        2
    } else if k == 11 {
        3
    } else if k == 14 {
        4
    } else if k == 15 {
        5
    } else if k == 16 {
        6
    } else {
        -1
    }
}

/// The delimiter of a [`CommentUser`]'s fields.
pub open spec fn comment_user_delimiter() -> Seq<char> {
    seq!['~']
}

impl CommentUserView {
    /// The field values this object is written as (`None`: a value cannot be written).
    pub open spec fn gj_fields(self) -> Option<Seq<FieldView>> {
        Some(seq![
            FieldView::Text(self.name),
            FieldView::Int(self.icon_index as int),
            FieldView::Int(self.primary_color.spec_to_proxy() as int),
            FieldView::Int(self.secondary_color.spec_to_proxy() as int),
            FieldView::Int(self.icon_type.spec_to_proxy() as int),
            FieldView::Bool(self.has_glow),
            FieldView::OptInt(match self.account_id { Some(x) => Some(x as int), None => None }),
        ])
    }

    /// Whether this object is the one its written form reads back as: every value with an index
    /// is the one its written value is read as, thunks are unprocessed and values without an
    /// index are absent.
    pub open spec fn is_canonical(self) -> bool {
        Color::spec_from_proxy(self.primary_color.spec_to_proxy()) == self.primary_color
        && Color::spec_from_proxy(self.secondary_color.spec_to_proxy()) == self.secondary_color
        && IconType::spec_from_proxy(self.icon_type.spec_to_proxy()) == self.icon_type
    }

}

impl CommentUser {
    /// The object read from the given field values.
    pub open spec fn from_fields(vals: Seq<FieldView>) -> CommentUserView {
        CommentUserView {
            name: fv_text(vals[0]),
            icon_index: fv_int(vals[1]) as u16,
            primary_color: Color::spec_from_proxy(fv_int(vals[2]) as u8),
            secondary_color: Color::spec_from_proxy(fv_int(vals[3]) as u8),
            icon_type: IconType::spec_from_proxy(fv_int(vals[4]) as u8),
            has_glow: fv_bool(vals[5]),
            account_id: match fv_opt_int(vals[6]) { Some(x) => Some(x as u64), None => None },
        }
    }

    /// The indices and kinds of the fields.
    fn gj_schema() -> (res: Vec<(u64, FieldKind)>)
        ensures
            res@ == comment_user_schema(),
    {
        let res = vec![
            (1u64, FieldKind::Text),
            (9u64, FieldKind::Int { lo: 0i128, hi: 65535i128 }),
            (10u64, FieldKind::Int { lo: 0i128, hi: 255i128 }),
            (11u64, FieldKind::Int { lo: 0i128, hi: 255i128 }),
            (14u64, FieldKind::Int { lo: 0i128, hi: 255i128 }),
            (15u64, FieldKind::Bool { style: BoolStyle::TwoZero }),
            (16u64, FieldKind::OptInt { lo: 0i128, hi: 18446744073709551615i128 }),
        ];
        assert(res@ =~= comment_user_schema());
        res
    }

    /// The object holding the given field values.
    fn from_values(vals: &Vec<FieldValue>) -> (res: CommentUser)
        requires
            vals@.len() == 7,
        ensures
            res@ == CommentUser::from_fields(field_views(vals@)),
    {
        let res = CommentUser {
            name: value_text(&vals[0]),
            icon_index: value_int(&vals[1]) as u16,
            primary_color: Color::from_deserialize_proxy(value_int(&vals[2]) as u8),
            secondary_color: Color::from_deserialize_proxy(value_int(&vals[3]) as u8),
            icon_type: IconType::from_deserialize_proxy(value_int(&vals[4]) as u8),
            has_glow: value_bool(&vals[5]),
            account_id: match value_opt_int(&vals[6]) { Some(x) => Some(x as u64), None => None },
        };
        assert(res@ =~= CommentUser::from_fields(field_views(vals@)));
        res
    }

    /// The field values this object is written as.
    fn to_values(&self) -> (res: Result<Vec<FieldValue>, ProcessError>)
        ensures
            match res {
                Ok(vals) => self@.gj_fields() == Some(field_views(vals@)),
                Err(_) => self@.gj_fields() is None,
            },
    {
        let v0 = FieldValue::Text(self.name.clone());
        let v1 = FieldValue::Int(self.icon_index as i128);
        let v2 = FieldValue::Int(self.primary_color.to_serialize_proxy() as i128);
        let v3 = FieldValue::Int(self.secondary_color.to_serialize_proxy() as i128);
        let v4 = FieldValue::Int(self.icon_type.to_serialize_proxy() as i128);
        let v5 = FieldValue::Bool(self.has_glow);
        let v6 = FieldValue::OptInt(match self.account_id { Some(x) => Some(x as i128), None => None });
        let vals = vec![v0, v1, v2, v3, v4, v5, v6];
        assert(field_views(vals@) =~= self@.gj_fields()->0);
        Ok(vals)
    }

    /// Reads a [`CommentUser`] from RobTop's format: the fields are separated by `~`, each preceded by its index.
    pub fn from_gj_str(input: &str) -> (res: Result<CommentUser, DeError>)
        ensures
            res is Ok <==> struct_readable(split(input@, comment_user_delimiter()), comment_user_schema(), true),
            res matches Ok(x) ==> x@ == CommentUser::from_fields(
                struct_values(split(input@, comment_user_delimiter()), comment_user_schema(), true),
            ),
            res matches Err(e) ==> e is Custom,
    {
        proof {
            reveal_strlit("~");
            assert("~"@ =~= comment_user_delimiter());
            lemma_comment_user_schema();
        }
        let schema = CommentUser::gj_schema();
        match read_gj(input, "~", true, &schema) {
            Ok(vals) => {
                assert(field_views(vals@).len() == vals@.len());
                Ok(CommentUser::from_values(&vals))
            },
            Err(e) => Err(e),
        }
    }

    /// Writes this object in RobTop's format; fails when a thunk cannot be written.
    pub fn write_gj(&self) -> (res: Result<String, SerError>)
        ensures
            res is Ok <==> self@.gj_fields() is Some,
            res matches Ok(s) ==> s@ == join(
                struct_tokens(comment_user_schema(), self@.gj_fields()->0, true),
                comment_user_delimiter(),
            ),
    {
        proof {
            reveal_strlit("~");
            assert("~"@ =~= comment_user_delimiter());
        }
        match self.to_values() {
            Ok(vals) => {
                assert(field_views(vals@).len() == vals@.len());
                let schema = CommentUser::gj_schema();
                Ok(write_gj_fields("~", true, &schema, &vals))
            },
            Err(_) => Err(SerError::Custom("a value cannot be written".to_string())),
        }
    }
}

/// The schema of a [`CommentUser`] is well formed and no two of its fields share an index.
proof fn lemma_comment_user_schema()
    ensures
        schema_wf(comment_user_schema()),
        keys_distinct(comment_user_schema()),
{
    lemma_keys_distinct_by_position(comment_user_schema(), |k: u64| comment_user_key_position(k));
}

/// Reading back what was written for a [`CommentUser`] gives the object again, for every canonical
/// object whose values each fit their field (see [`field_ok`]) and whose texts do not hide the
/// delimiter `~`.
pub proof fn lemma_comment_user_roundtrip(v: CommentUserView)
    requires
        v.is_canonical(),
        v.gj_fields() is Some,
        fields_faithful(comment_user_schema(), v.gj_fields()->0),
        values_separable(comment_user_schema(), v.gj_fields()->0, comment_user_delimiter()),
    ensures
        struct_readable(
            split(join(struct_tokens(comment_user_schema(), v.gj_fields()->0, true), comment_user_delimiter()), comment_user_delimiter()),
            comment_user_schema(),
            true,
        ),
        CommentUser::from_fields(
            struct_values(
                split(join(struct_tokens(comment_user_schema(), v.gj_fields()->0, true), comment_user_delimiter()), comment_user_delimiter()),
                comment_user_schema(),
                true,
            ),
        ) == v,
{
    let f = v.gj_fields()->0;
    lemma_comment_user_schema();
    lemma_struct_tokens_nonempty(comment_user_schema(), f, true, 0);
    lemma_struct_roundtrip(comment_user_schema(), f, true, comment_user_delimiter());
    assert(CommentUser::from_fields(f) =~= v);
}

/// A comment on a level.
#[derive(Debug, Clone, PartialEq)]
pub struct LevelComment {
    /// The author, described separately by the servers (absent after reading the comment itself).
    pub user: Option<CommentUser>,
    /// The (base64 encoded) text of the comment.
    pub content: Option<Thunk<Base64Decoder>>,
    /// The author's user id.
    pub user_id: u64,
    /// The number of likes minus the number of dislikes.
    pub likes: i32,
    /// The comment's id.
    pub comment_id: u64,
    /// Whether the comment was flagged as spam.
    pub is_flagged_spam: bool,
    /// How long ago the comment was posted, as the servers phrase it.
    pub time_since_post: String,
    /// The percentage of the level the author had completed, if shown.
    pub progress: Option<u8>,
    /// The author's moderator status.
    pub mod_level: ModLevel,
    /// The color the comment is shown in, as `r,g,b`, if any.
    pub special_color: Option<Thunk<Color>>,
}

/// The abstract value of a [`LevelComment`].
#[verifier::ext_equal]
pub struct LevelCommentView {
    pub user: Option<CommentUserView>,
    pub content: Option<ThunkView<Seq<char>>>,
    pub user_id: u64,
    pub likes: i32,
    pub comment_id: u64,
    pub is_flagged_spam: bool,
    pub time_since_post: Seq<char>,
    pub progress: Option<u8>,
    pub mod_level: ModLevel,
    pub special_color: Option<ThunkView<Color>>,
}

impl View for LevelComment {
    type V = LevelCommentView;

    open spec fn view(&self) -> LevelCommentView {
        LevelCommentView {
            user: match &self.user { Some(u) => Some(u@), None => None },
            content: match &self.content { Some(t) => Some(t@), None => None },
            user_id: self.user_id,
            likes: self.likes,
            comment_id: self.comment_id,
            is_flagged_spam: self.is_flagged_spam,
            time_since_post: self.time_since_post@,
            progress: self.progress,
            mod_level: self.mod_level,
            special_color: match &self.special_color { Some(t) => Some(t@), None => None },
        }
    }
}

/// The indices and kinds of the fields of a [`LevelComment`], in the order they are written.
pub open spec fn level_comment_schema() -> Seq<(u64, FieldKind)> {
    seq![
        (2u64, FieldKind::OptText),
        (3u64, FieldKind::Int { lo: 0i128, hi: 18446744073709551615i128 }),
        (4u64, FieldKind::Int { lo: -2147483648i128, hi: 2147483647i128 }),
        (6u64, FieldKind::Int { lo: 0i128, hi: 18446744073709551615i128 }),
        (7u64, FieldKind::Bool { style: BoolStyle::OneZero }),
        (9u64, FieldKind::Text),
        (10u64, FieldKind::OptInt { lo: 0i128, hi: 255i128 }),
        (11u64, FieldKind::Int { lo: 0i128, hi: 255i128 }),
        (12u64, FieldKind::OptText),
    ]
}

/// The position of each index in [`level_comment_schema`].
pub open spec fn level_comment_key_position(k: u64) -> int {
    if k == 2 {
        0
    } else if k == 3 {
        1
    } else if k == 4 {
        2
    } else if k == 6 {
        3
    } else if k == 7 {
        4
    } else if k == 9 {
        5
    } else if k == 10 {
        6
    } else if k == 11 {
        7
    } else if k == 12 {
        8
    } else {
        -1
    }
}

/// The delimiter of a [`LevelComment`]'s fields.
pub open spec fn level_comment_delimiter() -> Seq<char> {
    seq!['~']
}

impl LevelCommentView {
    /// The field values this object is written as (`None`: a value cannot be written).
    pub open spec fn gj_fields(self) -> Option<Seq<FieldView>> {
        if (match self.content { Some(t) => thunk_text::<Base64Decoder>(t) is Some, None => true }) && (match self.special_color { Some(t) => thunk_text::<Color>(t) is Some, None => true }) {
            Some(seq![
                FieldView::OptText(match self.content { Some(t) => Some(thunk_text::<Base64Decoder>(t)->0), None => None }),
                FieldView::Int(self.user_id as int),
                FieldView::Int(self.likes as int),
                FieldView::Int(self.comment_id as int),
                FieldView::Bool(self.is_flagged_spam),
                FieldView::Text(self.time_since_post),
                FieldView::OptInt(match self.progress { Some(x) => Some(x as int), None => None }),
                FieldView::Int(self.mod_level.spec_to_proxy() as int),
                FieldView::OptText(match self.special_color { Some(t) => Some(thunk_text::<Color>(t)->0), None => None }),
            ])
        } else {
            None
        }
    }

    /// Whether this object is the one its written form reads back as: every value with an index
    /// is the one its written value is read as, thunks are unprocessed and values without an
    /// index are absent.
    pub open spec fn is_canonical(self) -> bool {
        self.user is None
        && (match self.content { Some(ThunkView::Processed(_)) => false, _ => true })
        && ModLevel::spec_from_proxy(self.mod_level.spec_to_proxy()) == self.mod_level
        && (match self.special_color { Some(ThunkView::Processed(_)) => false, _ => true })
    }

    /// Whether this object is the one its written form reads back as, up to its thunks, which
    /// read back unprocessed.
    pub open spec fn is_canonical_but_thunks(self) -> bool {
        self.user is None
        && ModLevel::spec_from_proxy(self.mod_level.spec_to_proxy()) == self.mod_level
    }

    /// Whether every processed thunk reads back as its value from the text it is written as.
    pub open spec fn thunks_roundtrip(self) -> bool {
        (match self.content {
            Some(ThunkView::Processed(v)) => Base64Decoder::decoded(Base64Decoder::encoded(v)->0) == Some(v),
            _ => true,
        })
        && (match self.special_color {
            Some(ThunkView::Processed(v)) => Color::decoded(Color::encoded(v)->0) == Some(v),
            _ => true,
        })
    }

    /// Whether the two objects hold the same values, thunks compared by the values they stand for.
    pub open spec fn same_values(self, other: LevelCommentView) -> bool {
        self.user == other.user
        && (match (self.content, other.content) {
            (Some(a), Some(b)) => thunk_value::<Base64Decoder>(a) == thunk_value::<Base64Decoder>(b),
            (None, None) => true,
            _ => false,
        })
        && self.user_id == other.user_id
        && self.likes == other.likes
        && self.comment_id == other.comment_id
        && self.is_flagged_spam == other.is_flagged_spam
        && self.time_since_post == other.time_since_post
        && self.progress == other.progress
        && self.mod_level == other.mod_level
        && (match (self.special_color, other.special_color) {
            (Some(a), Some(b)) => thunk_value::<Color>(a) == thunk_value::<Color>(b),
            (None, None) => true,
            _ => false,
        })
    }

}

impl LevelComment {
    /// The object read from the given field values.
    pub open spec fn from_fields(vals: Seq<FieldView>) -> LevelCommentView {
        LevelCommentView {
            user: None,
            content: match fv_opt_text(vals[0]) { Some(s) => Some(ThunkView::Unprocessed(s)), None => None },
            user_id: fv_int(vals[1]) as u64,
            likes: fv_int(vals[2]) as i32,
            comment_id: fv_int(vals[3]) as u64,
            is_flagged_spam: fv_bool(vals[4]),
            time_since_post: fv_text(vals[5]),
            progress: match fv_opt_int(vals[6]) { Some(x) => Some(x as u8), None => None },
            mod_level: ModLevel::spec_from_proxy(fv_int(vals[7]) as u8),
            special_color: match fv_opt_text(vals[8]) { Some(s) => Some(ThunkView::Unprocessed(s)), None => None },
        }
    }

    /// The indices and kinds of the fields.
    fn gj_schema() -> (res: Vec<(u64, FieldKind)>)
        ensures
            res@ == level_comment_schema(),
    {
        let res = vec![
            (2u64, FieldKind::OptText),
            (3u64, FieldKind::Int { lo: 0i128, hi: 18446744073709551615i128 }),
            (4u64, FieldKind::Int { lo: -2147483648i128, hi: 2147483647i128 }),
            (6u64, FieldKind::Int { lo: 0i128, hi: 18446744073709551615i128 }),
            (7u64, FieldKind::Bool { style: BoolStyle::OneZero }),
            (9u64, FieldKind::Text),
            (10u64, FieldKind::OptInt { lo: 0i128, hi: 255i128 }),
            (11u64, FieldKind::Int { lo: 0i128, hi: 255i128 }),
            (12u64, FieldKind::OptText),
        ];
        assert(res@ =~= level_comment_schema());
        res
    }

    /// The object holding the given field values.
    fn from_values(vals: &Vec<FieldValue>) -> (res: LevelComment)
        requires
            vals@.len() == 9,
        ensures
            res@ == LevelComment::from_fields(field_views(vals@)),
    {
        let res = LevelComment {
            user: None,
            content: match value_opt_text(&vals[0]) { Some(s) => Some(Thunk::Unprocessed(s)), None => None },
            user_id: value_int(&vals[1]) as u64,
            likes: value_int(&vals[2]) as i32,
            comment_id: value_int(&vals[3]) as u64,
            is_flagged_spam: value_bool(&vals[4]),
            time_since_post: value_text(&vals[5]),
            progress: match value_opt_int(&vals[6]) { Some(x) => Some(x as u8), None => None },
            mod_level: ModLevel::from_deserialize_proxy(value_int(&vals[7]) as u8),
            special_color: match value_opt_text(&vals[8]) { Some(s) => Some(Thunk::Unprocessed(s)), None => None },
        };
        assert(res@ =~= LevelComment::from_fields(field_views(vals@)));
        res
    }

    /// The field values this object is written as.
    fn to_values(&self) -> (res: Result<Vec<FieldValue>, ProcessError>)
        ensures
            match res {
                Ok(vals) => self@.gj_fields() == Some(field_views(vals@)),
                Err(_) => self@.gj_fields() is None,
            },
    {
        let v0 = match &self.content {
            Some(t) => match t.as_unprocessed() {
                Ok(text) => FieldValue::OptText(Some(text)),
                Err(e) => {
                    return Err(e);
                },
            },
            None => FieldValue::OptText(None),
        };
        let v1 = FieldValue::Int(self.user_id as i128);
        let v2 = FieldValue::Int(self.likes as i128);
        let v3 = FieldValue::Int(self.comment_id as i128);
        let v4 = FieldValue::Bool(self.is_flagged_spam);
        let v5 = FieldValue::Text(self.time_since_post.clone());
        let v6 = FieldValue::OptInt(match self.progress { Some(x) => Some(x as i128), None => None });
        let v7 = FieldValue::Int(self.mod_level.to_serialize_proxy() as i128);
        let v8 = match &self.special_color {
            Some(t) => match t.as_unprocessed() {
                Ok(text) => FieldValue::OptText(Some(text)),
                Err(e) => {
                    return Err(e);
                },
            },
            None => FieldValue::OptText(None),
        };
        let vals = vec![v0, v1, v2, v3, v4, v5, v6, v7, v8];
        assert(field_views(vals@) =~= self@.gj_fields()->0);
        Ok(vals)
    }

    /// Reads a [`LevelComment`] from RobTop's format: the fields are separated by `~`, each preceded by its index.
    pub fn from_gj_str(input: &str) -> (res: Result<LevelComment, DeError>)
        ensures
            res is Ok <==> struct_readable(split(input@, level_comment_delimiter()), level_comment_schema(), true),
            res matches Ok(x) ==> x@ == LevelComment::from_fields(
                struct_values(split(input@, level_comment_delimiter()), level_comment_schema(), true),
            ),
            res matches Err(e) ==> e is Custom,
    {
        proof {
            reveal_strlit("~");
            assert("~"@ =~= level_comment_delimiter());
            lemma_level_comment_schema();
        }
        let schema = LevelComment::gj_schema();
        match read_gj(input, "~", true, &schema) {
            Ok(vals) => {
                assert(field_views(vals@).len() == vals@.len());
                Ok(LevelComment::from_values(&vals))
            },
            Err(e) => Err(e),
        }
    }

    /// Writes this object in RobTop's format; fails when a thunk cannot be written.
    pub fn write_gj(&self) -> (res: Result<String, SerError>)
        ensures
            res is Ok <==> self@.gj_fields() is Some,
            res matches Ok(s) ==> s@ == join(
                struct_tokens(level_comment_schema(), self@.gj_fields()->0, true),
                level_comment_delimiter(),
            ),
    {
        proof {
            reveal_strlit("~");
            assert("~"@ =~= level_comment_delimiter());
        }
        match self.to_values() {
            Ok(vals) => {
                assert(field_views(vals@).len() == vals@.len());
                let schema = LevelComment::gj_schema();
                Ok(write_gj_fields("~", true, &schema, &vals))
            },
            Err(_) => Err(SerError::Custom("a value cannot be written".to_string())),
        }
    }
}

/// The schema of a [`LevelComment`] is well formed and no two of its fields share an index.
proof fn lemma_level_comment_schema()
    ensures
        schema_wf(level_comment_schema()),
        keys_distinct(level_comment_schema()),
{
    lemma_keys_distinct_by_position(level_comment_schema(), |k: u64| level_comment_key_position(k));
}

/// Reading back what was written for a [`LevelComment`] gives the object again, for every canonical
/// object whose values each fit their field (see [`field_ok`]) and whose texts do not hide the
/// delimiter `~`.
pub proof fn lemma_level_comment_roundtrip(v: LevelCommentView)
    requires
        v.is_canonical(),
        v.gj_fields() is Some,
        fields_faithful(level_comment_schema(), v.gj_fields()->0),
        values_separable(level_comment_schema(), v.gj_fields()->0, level_comment_delimiter()),
    ensures
        struct_readable(
            split(join(struct_tokens(level_comment_schema(), v.gj_fields()->0, true), level_comment_delimiter()), level_comment_delimiter()),
            level_comment_schema(),
            true,
        ),
        LevelComment::from_fields(
            struct_values(
                split(join(struct_tokens(level_comment_schema(), v.gj_fields()->0, true), level_comment_delimiter()), level_comment_delimiter()),
                level_comment_schema(),
                true,
            ),
        ) == v,
{
    let f = v.gj_fields()->0;
    lemma_level_comment_schema();
    lemma_struct_tokens_nonempty(level_comment_schema(), f, true, 0);
    lemma_struct_roundtrip(level_comment_schema(), f, true, level_comment_delimiter());
    assert(LevelComment::from_fields(f) =~= v);
}

/// Reading back what was written for a [`LevelComment`] whose thunks may be processed gives an object
/// holding the same values, its thunks unprocessed but standing for the same values, provided
/// each processed thunk reads back from the text it is written as (see the laws of the thunk
/// processors) and the conditions of [`lemma_level_comment_roundtrip`] hold otherwise.
pub proof fn lemma_level_comment_save_load(v: LevelCommentView)
    requires
        v.is_canonical_but_thunks(),
        v.thunks_roundtrip(),
        v.gj_fields() is Some,
        fields_faithful(level_comment_schema(), v.gj_fields()->0),
        values_separable(level_comment_schema(), v.gj_fields()->0, level_comment_delimiter()),
    ensures
        struct_readable(
            split(join(struct_tokens(level_comment_schema(), v.gj_fields()->0, true), level_comment_delimiter()), level_comment_delimiter()),
            level_comment_schema(),
            true,
        ),
        LevelComment::from_fields(
            struct_values(
                split(join(struct_tokens(level_comment_schema(), v.gj_fields()->0, true), level_comment_delimiter()), level_comment_delimiter()),
                level_comment_schema(),
                true,
            ),
        ).same_values(v),
{
    let f = v.gj_fields()->0;
    lemma_level_comment_schema();
    lemma_struct_tokens_nonempty(level_comment_schema(), f, true, 0);
    lemma_struct_roundtrip(level_comment_schema(), f, true, level_comment_delimiter());
}

/// A comment on a user's profile.
#[derive(Debug, Clone, PartialEq)]
pub struct ProfileComment {
    /// The (base64 encoded) text of the comment.
    pub content: Option<Thunk<Base64Decoder>>,
    /// The number of likes minus the number of dislikes.
    pub likes: i32,
    /// The comment's id.
    pub comment_id: u64,
    /// How long ago the comment was posted, as the servers phrase it.
    pub time_since_post: String,
}

/// The abstract value of a [`ProfileComment`].
#[verifier::ext_equal]
pub struct ProfileCommentView {
    pub content: Option<ThunkView<Seq<char>>>,
    pub likes: i32,
    pub comment_id: u64,
    pub time_since_post: Seq<char>,
}

impl View for ProfileComment {
    type V = ProfileCommentView;

    open spec fn view(&self) -> ProfileCommentView {
        ProfileCommentView {
            content: match &self.content { Some(t) => Some(t@), None => None },
            likes: self.likes,
            comment_id: self.comment_id,
            time_since_post: self.time_since_post@,
        }
    }
}

/// The indices and kinds of the fields of a [`ProfileComment`], in the order they are written.
pub open spec fn profile_comment_schema() -> Seq<(u64, FieldKind)> {
    seq![
        (2u64, FieldKind::OptText),
        (4u64, FieldKind::Int { lo: -2147483648i128, hi: 2147483647i128 }),
        (6u64, FieldKind::Int { lo: 0i128, hi: 18446744073709551615i128 }),
        (9u64, FieldKind::Text),
    ]
}

/// The position of each index in [`profile_comment_schema`].
pub open spec fn profile_comment_key_position(k: u64) -> int {
    if k == 2 {
        0
    } else if k == 4 {
        1
    } else if k == 6 {
        2
    } else if k == 9 {
        3
    } else {
        -1
    }
}

/// The delimiter of a [`ProfileComment`]'s fields.
pub open spec fn profile_comment_delimiter() -> Seq<char> {
    seq!['~']
}

impl ProfileCommentView {
    /// The field values this object is written as (`None`: a value cannot be written).
    pub open spec fn gj_fields(self) -> Option<Seq<FieldView>> {
        if (match self.content { Some(t) => thunk_text::<Base64Decoder>(t) is Some, None => true }) {
            Some(seq![
                FieldView::OptText(match self.content { Some(t) => Some(thunk_text::<Base64Decoder>(t)->0), None => None }),
                FieldView::Int(self.likes as int),
                FieldView::Int(self.comment_id as int),
                FieldView::Text(self.time_since_post),
            ])
        } else {
            None
        }
    }

    /// Whether this object is the one its written form reads back as: every value with an index
    /// is the one its written value is read as, thunks are unprocessed and values without an
    /// index are absent.
    pub open spec fn is_canonical(self) -> bool {
        (match self.content { Some(ThunkView::Processed(_)) => false, _ => true })
    }

    /// Whether this object is the one its written form reads back as, up to its thunks, which
    /// read back unprocessed.
    pub open spec fn is_canonical_but_thunks(self) -> bool {
        true
    }

    /// Whether every processed thunk reads back as its value from the text it is written as.
    pub open spec fn thunks_roundtrip(self) -> bool {
        (match self.content {
            Some(ThunkView::Processed(v)) => Base64Decoder::decoded(Base64Decoder::encoded(v)->0) == Some(v),
            _ => true,
        })
    }

    /// Whether the two objects hold the same values, thunks compared by the values they stand for.
    pub open spec fn same_values(self, other: ProfileCommentView) -> bool {
        (match (self.content, other.content) {
            (Some(a), Some(b)) => thunk_value::<Base64Decoder>(a) == thunk_value::<Base64Decoder>(b),
            (None, None) => true,
            _ => false,
        })
        && self.likes == other.likes
        && self.comment_id == other.comment_id
        && self.time_since_post == other.time_since_post
    }

}

impl ProfileComment {
    /// The object read from the given field values.
    pub open spec fn from_fields(vals: Seq<FieldView>) -> ProfileCommentView {
        ProfileCommentView {
            content: match fv_opt_text(vals[0]) { Some(s) => Some(ThunkView::Unprocessed(s)), None => None },
            likes: fv_int(vals[1]) as i32,
            comment_id: fv_int(vals[2]) as u64,
            time_since_post: fv_text(vals[3]),
        }
    }

    /// The indices and kinds of the fields.
    fn gj_schema() -> (res: Vec<(u64, FieldKind)>)
        ensures
            res@ == profile_comment_schema(),
    {
        let res = vec![
            (2u64, FieldKind::OptText),
            (4u64, FieldKind::Int { lo: -2147483648i128, hi: 2147483647i128 }),
            (6u64, FieldKind::Int { lo: 0i128, hi: 18446744073709551615i128 }),
            (9u64, FieldKind::Text),
        ];
        assert(res@ =~= profile_comment_schema());
        res
    }

    /// The object holding the given field values.
    fn from_values(vals: &Vec<FieldValue>) -> (res: ProfileComment)
        requires
            vals@.len() == 4,
        ensures
            res@ == ProfileComment::from_fields(field_views(vals@)),
    {
        let res = ProfileComment {
            content: match value_opt_text(&vals[0]) { Some(s) => Some(Thunk::Unprocessed(s)), None => None },
            likes: value_int(&vals[1]) as i32,
            comment_id: value_int(&vals[2]) as u64,
            time_since_post: value_text(&vals[3]),
        };
        assert(res@ =~= ProfileComment::from_fields(field_views(vals@)));
        res
    }

    /// The field values this object is written as.
    fn to_values(&self) -> (res: Result<Vec<FieldValue>, ProcessError>)
        ensures
            match res {
                Ok(vals) => self@.gj_fields() == Some(field_views(vals@)),
                Err(_) => self@.gj_fields() is None,
            },
    {
        let v0 = match &self.content {
            Some(t) => match t.as_unprocessed() {
                Ok(text) => FieldValue::OptText(Some(text)),
                Err(e) => {
                    return Err(e);
                },
            },
            None => FieldValue::OptText(None),
        };
        let v1 = FieldValue::Int(self.likes as i128);
        let v2 = FieldValue::Int(self.comment_id as i128);
        let v3 = FieldValue::Text(self.time_since_post.clone());
        let vals = vec![v0, v1, v2, v3];
        assert(field_views(vals@) =~= self@.gj_fields()->0);
        Ok(vals)
    }

    /// Reads a [`ProfileComment`] from RobTop's format: the fields are separated by `~`, each preceded by its index.
    pub fn from_gj_str(input: &str) -> (res: Result<ProfileComment, DeError>)
        ensures
            res is Ok <==> struct_readable(split(input@, profile_comment_delimiter()), profile_comment_schema(), true),
            res matches Ok(x) ==> x@ == ProfileComment::from_fields(
                struct_values(split(input@, profile_comment_delimiter()), profile_comment_schema(), true),
            ),
            res matches Err(e) ==> e is Custom,
    {
        proof {
            reveal_strlit("~");
            assert("~"@ =~= profile_comment_delimiter());
            lemma_profile_comment_schema();
        }
        let schema = ProfileComment::gj_schema();
        match read_gj(input, "~", true, &schema) {
            Ok(vals) => {
                assert(field_views(vals@).len() == vals@.len());
                Ok(ProfileComment::from_values(&vals))
            },
            Err(e) => Err(e),
        }
    }

    /// Writes this object in RobTop's format; fails when a thunk cannot be written.
    pub fn write_gj(&self) -> (res: Result<String, SerError>)
        ensures
            res is Ok <==> self@.gj_fields() is Some,
            res matches Ok(s) ==> s@ == join(
                struct_tokens(profile_comment_schema(), self@.gj_fields()->0, true),
                profile_comment_delimiter(),
            ),
    {
        proof {
            reveal_strlit("~");
            assert("~"@ =~= profile_comment_delimiter());
        }
        match self.to_values() {
            Ok(vals) => {
                assert(field_views(vals@).len() == vals@.len());
                let schema = ProfileComment::gj_schema();
                Ok(write_gj_fields("~", true, &schema, &vals))
            },
            Err(_) => Err(SerError::Custom("a value cannot be written".to_string())),
        }
    }
}

/// The schema of a [`ProfileComment`] is well formed and no two of its fields share an index.
proof fn lemma_profile_comment_schema()
    ensures
        schema_wf(profile_comment_schema()),
        keys_distinct(profile_comment_schema()),
{
    lemma_keys_distinct_by_position(profile_comment_schema(), |k: u64| profile_comment_key_position(k));
}

/// Reading back what was written for a [`ProfileComment`] gives the object again, for every canonical
/// object whose values each fit their field (see [`field_ok`]) and whose texts do not hide the
/// delimiter `~`.
pub proof fn lemma_profile_comment_roundtrip(v: ProfileCommentView)
    requires
        v.is_canonical(),
        v.gj_fields() is Some,
        fields_faithful(profile_comment_schema(), v.gj_fields()->0),
        values_separable(profile_comment_schema(), v.gj_fields()->0, profile_comment_delimiter()),
    ensures
        struct_readable(
            split(join(struct_tokens(profile_comment_schema(), v.gj_fields()->0, true), profile_comment_delimiter()), profile_comment_delimiter()),
            profile_comment_schema(),
            true,
        ),
        ProfileComment::from_fields(
            struct_values(
                split(join(struct_tokens(profile_comment_schema(), v.gj_fields()->0, true), profile_comment_delimiter()), profile_comment_delimiter()),
                profile_comment_schema(),
                true,
            ),
        ) == v,
{
    let f = v.gj_fields()->0;
    lemma_profile_comment_schema();
    lemma_struct_tokens_nonempty(profile_comment_schema(), f, true, 0);
    lemma_struct_roundtrip(profile_comment_schema(), f, true, profile_comment_delimiter());
    assert(ProfileComment::from_fields(f) =~= v);
}

/// Reading back what was written for a [`ProfileComment`] whose thunks may be processed gives an object
/// holding the same values, its thunks unprocessed but standing for the same values, provided
/// each processed thunk reads back from the text it is written as (see the laws of the thunk
/// processors) and the conditions of [`lemma_profile_comment_roundtrip`] hold otherwise.
pub proof fn lemma_profile_comment_save_load(v: ProfileCommentView)
    requires
        v.is_canonical_but_thunks(),
        v.thunks_roundtrip(),
        v.gj_fields() is Some,
        fields_faithful(profile_comment_schema(), v.gj_fields()->0),
        values_separable(profile_comment_schema(), v.gj_fields()->0, profile_comment_delimiter()),
    ensures
        struct_readable(
            split(join(struct_tokens(profile_comment_schema(), v.gj_fields()->0, true), profile_comment_delimiter()), profile_comment_delimiter()),
            profile_comment_schema(),
            true,
        ),
        ProfileComment::from_fields(
            struct_values(
                split(join(struct_tokens(profile_comment_schema(), v.gj_fields()->0, true), profile_comment_delimiter()), profile_comment_delimiter()),
                profile_comment_schema(),
                true,
            ),
        ).same_values(v),
{
    let f = v.gj_fields()->0;
    lemma_profile_comment_schema();
    lemma_struct_tokens_nonempty(profile_comment_schema(), f, true, 0);
    lemma_struct_roundtrip(profile_comment_schema(), f, true, profile_comment_delimiter());
}

} // verus!
