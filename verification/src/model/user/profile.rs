//! User profiles.

use vstd::prelude::*;
use crate::serde::de::error::Error as DeError;
use crate::serde::ser::error::Error as SerError;
use crate::serde::gj::{
    clone_opt_string, fields_faithful, fv_bool, fv_int, fv_opt_int, fv_opt_text, fv_text,
    lemma_keys_distinct_by_position, lemma_struct_tokens_nonempty, read_gj, value_bool,
    value_int, value_opt_int, value_opt_text, value_text, write_gj_fields,
};
use crate::serde::thunk::{thunk_text, thunk_value, ProcessError, Thunk, ThunkProcessor, ThunkView};
use crate::serde::{
    encode_field, field_ok, field_views, keys_distinct, lemma_struct_roundtrip, schema_wf,
    struct_readable, struct_tokens, struct_values, values_separable, BoolStyle, FieldKind,
    FieldValue, FieldView, InternalProxy,
};
use crate::split::{join, split};
use crate::model::user::{Color, ModLevel};

verus! {

/// A user's profile.
#[derive(Debug, Clone, PartialEq)]
pub struct Profile {
    /// The user's name.
    pub name: String,
    /// The user's id.
    pub user_id: u64,
    /// The user's stars.
    pub stars: u32,
    /// The number of demons the user has beaten.
    pub demons: u16,
    /// The user's creator points.
    pub creator_points: u16,
    /// The user's primary color.
    pub primary_color: Color,
    /// The user's secondary color.
    pub secondary_color: Color,
    /// The user's secret coins.
    pub secret_coins: u8,
    /// The user's account id.
    pub account_id: u64,
    /// The user's user coins.
    pub user_coins: u16,
    /// Unknown.
    pub index_18: String,
    /// Unknown.
    pub index_19: String,
    /// The user's YouTube channel, if linked.
    pub youtube_url: Option<Youtube>,
    /// The index of the user's cube.
    pub cube_index: u16,
    /// The index of the user's ship.
    pub ship_index: u8,
    /// The index of the user's ball.
    pub ball_index: u8,
    /// The index of the user's UFO.
    pub ufo_index: u8,
    /// The index of the user's wave.
    pub wave_index: u8,
    /// The index of the user's robot.
    pub robot_index: u8,
    /// Whether the user's icons glow.
    pub has_glow: bool,
    /// Unknown.
    pub index_29: String,
    /// The user's global rank, if ranked.
    pub global_rank: Option<u32>,
    /// Unknown.
    pub index_31: String,
    /// Unknown; not always present.
    pub index_38: Option<String>,
    /// Unknown; not always present.
    pub index_39: Option<String>,
    /// Unknown; not always present.
    pub index_40: Option<String>,
    /// The index of the user's spider.
    pub spider_index: u8,
    /// The user's Twitter account, if linked.
    pub twitter_url: Option<Twitter>,
    /// The user's Twitch channel, if linked.
    pub twitch_url: Option<Twitch>,
    /// The user's diamonds.
    pub diamonds: u16,
    /// The index of the user's death effect.
    pub death_effect_index: u8,
    /// The user's moderator status.
    pub mod_level: ModLevel,
    /// Unknown.
    pub index_50: String,
    /// Unknown.
    pub index_51: String,
    /// The user's moons.
    pub moons: u32,
    /// The index of the user's swing.
    pub swing_index: u8,
    /// The index of the user's jetpack.
    pub jetpack_index: u8,
}

/// The abstract value of a [`Profile`].
#[verifier::ext_equal]
pub struct ProfileView {
    pub name: Seq<char>,
    pub user_id: u64,
    pub stars: u32,
    pub demons: u16,
    pub creator_points: u16,
    pub primary_color: Color,
    pub secondary_color: Color,
    pub secret_coins: u8,
    pub account_id: u64,
    pub user_coins: u16,
    pub index_18: Seq<char>,
    pub index_19: Seq<char>,
    pub youtube_url: Option<Seq<char>>,
    pub cube_index: u16,
    pub ship_index: u8,
    pub ball_index: u8,
    pub ufo_index: u8,
    pub wave_index: u8,
    pub robot_index: u8,
    pub has_glow: bool,
    pub index_29: Seq<char>,
    pub global_rank: Option<u32>,
    pub index_31: Seq<char>,
    pub index_38: Option<Seq<char>>,
    pub index_39: Option<Seq<char>>,
    pub index_40: Option<Seq<char>>,
    pub spider_index: u8,
    pub twitter_url: Option<Seq<char>>,
    pub twitch_url: Option<Seq<char>>,
    pub diamonds: u16,
    pub death_effect_index: u8,
    pub mod_level: ModLevel,
    pub index_50: Seq<char>,
    pub index_51: Seq<char>,
    pub moons: u32,
    pub swing_index: u8,
    pub jetpack_index: u8,
}

impl View for Profile {
    type V = ProfileView;

    open spec fn view(&self) -> ProfileView {
        ProfileView {
            name: self.name@,
            user_id: self.user_id,
            stars: self.stars,
            demons: self.demons,
            creator_points: self.creator_points,
            primary_color: self.primary_color,
            secondary_color: self.secondary_color,
            secret_coins: self.secret_coins,
            account_id: self.account_id,
            user_coins: self.user_coins,
            index_18: self.index_18@,
            index_19: self.index_19@,
            youtube_url: match &self.youtube_url { Some(n) => Some(n.0@), None => None },
            cube_index: self.cube_index,
            ship_index: self.ship_index,
            ball_index: self.ball_index,
            ufo_index: self.ufo_index,
            wave_index: self.wave_index,
            robot_index: self.robot_index,
            has_glow: self.has_glow,
            index_29: self.index_29@,
            global_rank: self.global_rank,
            index_31: self.index_31@,
            index_38: match &self.index_38 { Some(x) => Some(x@), None => None },
            index_39: match &self.index_39 { Some(x) => Some(x@), None => None },
            index_40: match &self.index_40 { Some(x) => Some(x@), None => None },
            spider_index: self.spider_index,
            twitter_url: match &self.twitter_url { Some(n) => Some(n.0@), None => None },
            twitch_url: match &self.twitch_url { Some(n) => Some(n.0@), None => None },
            diamonds: self.diamonds,
            death_effect_index: self.death_effect_index,
            mod_level: self.mod_level,
            index_50: self.index_50@,
            index_51: self.index_51@,
            moons: self.moons,
            swing_index: self.swing_index,
            jetpack_index: self.jetpack_index,
        }
    }
}

/// The indices and kinds of the fields of a [`Profile`], in the order they are written.
pub open spec fn profile_schema() -> Seq<(u64, FieldKind)> {
    seq![
        (1u64, FieldKind::Text),
        (2u64, FieldKind::Int { lo: 0i128, hi: 18446744073709551615i128 }),
        (3u64, FieldKind::Int { lo: 0i128, hi: 4294967295i128 }),
        (4u64, FieldKind::Int { lo: 0i128, hi: 65535i128 }),
        (8u64, FieldKind::Int { lo: 0i128, hi: 65535i128 }),
        (10u64, FieldKind::Int { lo: 0i128, hi: 255i128 }),
        (11u64, FieldKind::Int { lo: 0i128, hi: 255i128 }),
        (13u64, FieldKind::Int { lo: 0i128, hi: 255i128 }),
        (16u64, FieldKind::Int { lo: 0i128, hi: 18446744073709551615i128 }),
        (17u64, FieldKind::Int { lo: 0i128, hi: 65535i128 }),
        (18u64, FieldKind::Text),
        (19u64, FieldKind::Text),
        (20u64, FieldKind::OptText),
        (21u64, FieldKind::Int { lo: 0i128, hi: 65535i128 }),
        (22u64, FieldKind::Int { lo: 0i128, hi: 255i128 }),
        (23u64, FieldKind::Int { lo: 0i128, hi: 255i128 }),
        (24u64, FieldKind::Int { lo: 0i128, hi: 255i128 }),
        (25u64, FieldKind::Int { lo: 0i128, hi: 255i128 }),
        (26u64, FieldKind::Int { lo: 0i128, hi: 255i128 }),
        (28u64, FieldKind::Bool { style: BoolStyle::OneZero }),
        (29u64, FieldKind::Text),
        (30u64, FieldKind::OptInt { lo: 0i128, hi: 4294967295i128 }),
        (31u64, FieldKind::Text),
        (38u64, FieldKind::SkippedOptText),
        (39u64, FieldKind::SkippedOptText),
        (40u64, FieldKind::SkippedOptText),
        (43u64, FieldKind::Int { lo: 0i128, hi: 255i128 }),
        (44u64, FieldKind::OptText),
        (45u64, FieldKind::OptText),
        (46u64, FieldKind::Int { lo: 0i128, hi: 65535i128 }),
        (48u64, FieldKind::Int { lo: 0i128, hi: 255i128 }),
        (49u64, FieldKind::Int { lo: 0i128, hi: 255i128 }),
        (50u64, FieldKind::Text),
        (51u64, FieldKind::Text),
        (52u64, FieldKind::Int { lo: 0i128, hi: 4294967295i128 }),
        (53u64, FieldKind::Int { lo: 0i128, hi: 255i128 }),
        (54u64, FieldKind::Int { lo: 0i128, hi: 255i128 }),
    ]
}

/// The position of each index in [`profile_schema`].
pub open spec fn profile_key_position(k: u64) -> int {
    if k == 1 {
        0
    } else if k == 2 {
        1
    } else if k == 3 {
        2
    } else if k == 4 {
        3
    } else if k == 8 {
        4
    } else if k == 10 {
        5
    } else if k == 11 {
        6
    } else if k == 13 {
        7
    } else if k == 16 {
        8
    } else if k == 17 {
        9
    } else if k == 18 {
        10
    } else if k == 19 {
        11
    } else if k == 20 {
        12
    } else if k == 21 {
        13
    } else if k == 22 {
        14
    } else if k == 23 {
        15
    } else if k == 24 {
        16
    } else if k == 25 {
        17
    } else if k == 26 {
        18
    } else if k == 28 {
        19
    } else if k == 29 {
        20
    } else if k == 30 {
        21
    } else if k == 31 {
        22
    } else if k == 38 {
        23
    } else if k == 39 {
        24
    } else if k == 40 {
        25
    } else if k == 43 {
        26
    } else if k == 44 {
        27
    } else if k == 45 {
        28
    } else if k == 46 {
        29
    } else if k == 48 {
        30
    } else if k == 49 {
        31
    } else if k == 50 {
        32
    } else if k == 51 {
        33
    } else if k == 52 {
        34
    } else if k == 53 {
        35
    } else if k == 54 {
        36
    } else {
        -1
    }
}

/// The delimiter of a [`Profile`]'s fields.
pub open spec fn profile_delimiter() -> Seq<char> {
    seq![':']
}

impl ProfileView {
    /// The field values this object is written as (`None`: a value cannot be written).
    pub open spec fn gj_fields(self) -> Option<Seq<FieldView>> {
        Some(seq![
            FieldView::Text(self.name),
            FieldView::Int(self.user_id as int),
            FieldView::Int(self.stars as int),
            FieldView::Int(self.demons as int),
            FieldView::Int(self.creator_points as int),
            FieldView::Int(self.primary_color.spec_to_proxy() as int),
            FieldView::Int(self.secondary_color.spec_to_proxy() as int),
            FieldView::Int(self.secret_coins as int),
            FieldView::Int(self.account_id as int),
            FieldView::Int(self.user_coins as int),
            FieldView::Text(self.index_18),
            FieldView::Text(self.index_19),
            FieldView::OptText(self.youtube_url),
            FieldView::Int(self.cube_index as int),
            FieldView::Int(self.ship_index as int),
            FieldView::Int(self.ball_index as int),
            FieldView::Int(self.ufo_index as int),
            FieldView::Int(self.wave_index as int),
            FieldView::Int(self.robot_index as int),
            FieldView::Bool(self.has_glow),
            FieldView::Text(self.index_29),
            FieldView::OptInt(match self.global_rank { Some(x) => Some(x as int), None => None }),
            FieldView::Text(self.index_31),
            FieldView::OptText(self.index_38),
            FieldView::OptText(self.index_39),
            FieldView::OptText(self.index_40),
            FieldView::Int(self.spider_index as int),
            FieldView::OptText(self.twitter_url),
            FieldView::OptText(self.twitch_url),
            FieldView::Int(self.diamonds as int),
            FieldView::Int(self.death_effect_index as int),
            FieldView::Int(self.mod_level.spec_to_proxy() as int),
            FieldView::Text(self.index_50),
            FieldView::Text(self.index_51),
            FieldView::Int(self.moons as int),
            FieldView::Int(self.swing_index as int),
            FieldView::Int(self.jetpack_index as int),
        ])
    }

    /// Whether this object is the one its written form reads back as: every value with an index
    /// is the one its written value is read as, thunks are unprocessed and values without an
    /// index are absent.
    pub open spec fn is_canonical(self) -> bool {
        Color::spec_from_proxy(self.primary_color.spec_to_proxy()) == self.primary_color
        && Color::spec_from_proxy(self.secondary_color.spec_to_proxy()) == self.secondary_color
        && ModLevel::spec_from_proxy(self.mod_level.spec_to_proxy()) == self.mod_level
    }

}

impl Profile {
    /// The object read from the given field values.
    pub open spec fn from_fields(vals: Seq<FieldView>) -> ProfileView {
        ProfileView {
            name: fv_text(vals[0]),
            user_id: fv_int(vals[1]) as u64,
            stars: fv_int(vals[2]) as u32,
            demons: fv_int(vals[3]) as u16,
            creator_points: fv_int(vals[4]) as u16,
            primary_color: Color::spec_from_proxy(fv_int(vals[5]) as u8),
            secondary_color: Color::spec_from_proxy(fv_int(vals[6]) as u8),
            secret_coins: fv_int(vals[7]) as u8,
            account_id: fv_int(vals[8]) as u64,
            user_coins: fv_int(vals[9]) as u16,
            index_18: fv_text(vals[10]),
            index_19: fv_text(vals[11]),
            youtube_url: fv_opt_text(vals[12]),
            cube_index: fv_int(vals[13]) as u16,
            ship_index: fv_int(vals[14]) as u8,
            ball_index: fv_int(vals[15]) as u8,
            ufo_index: fv_int(vals[16]) as u8,
            wave_index: fv_int(vals[17]) as u8,
            robot_index: fv_int(vals[18]) as u8,
            has_glow: fv_bool(vals[19]),
            index_29: fv_text(vals[20]),
            global_rank: match fv_opt_int(vals[21]) { Some(x) => Some(x as u32), None => None },
            index_31: fv_text(vals[22]),
            index_38: fv_opt_text(vals[23]),
            index_39: fv_opt_text(vals[24]),
            index_40: fv_opt_text(vals[25]),
            spider_index: fv_int(vals[26]) as u8,
            twitter_url: fv_opt_text(vals[27]),
            twitch_url: fv_opt_text(vals[28]),
            diamonds: fv_int(vals[29]) as u16,
            death_effect_index: fv_int(vals[30]) as u8,
            mod_level: ModLevel::spec_from_proxy(fv_int(vals[31]) as u8),
            index_50: fv_text(vals[32]),
            index_51: fv_text(vals[33]),
            moons: fv_int(vals[34]) as u32,
            swing_index: fv_int(vals[35]) as u8,
            jetpack_index: fv_int(vals[36]) as u8,
        }
    }

    /// The indices and kinds of the fields.
    fn gj_schema() -> (res: Vec<(u64, FieldKind)>)
        ensures
            res@ == profile_schema(),
    {
        let res = vec![
            (1u64, FieldKind::Text),
            (2u64, FieldKind::Int { lo: 0i128, hi: 18446744073709551615i128 }),
            (3u64, FieldKind::Int { lo: 0i128, hi: 4294967295i128 }),
            (4u64, FieldKind::Int { lo: 0i128, hi: 65535i128 }),
            (8u64, FieldKind::Int { lo: 0i128, hi: 65535i128 }),
            (10u64, FieldKind::Int { lo: 0i128, hi: 255i128 }),
            (11u64, FieldKind::Int { lo: 0i128, hi: 255i128 }),
            (13u64, FieldKind::Int { lo: 0i128, hi: 255i128 }),
            (16u64, FieldKind::Int { lo: 0i128, hi: 18446744073709551615i128 }),
            (17u64, FieldKind::Int { lo: 0i128, hi: 65535i128 }),
            (18u64, FieldKind::Text),
            (19u64, FieldKind::Text),
            (20u64, FieldKind::OptText),
            (21u64, FieldKind::Int { lo: 0i128, hi: 65535i128 }),
            (22u64, FieldKind::Int { lo: 0i128, hi: 255i128 }),
            (23u64, FieldKind::Int { lo: 0i128, hi: 255i128 }),
            (24u64, FieldKind::Int { lo: 0i128, hi: 255i128 }),
            (25u64, FieldKind::Int { lo: 0i128, hi: 255i128 }),
            (26u64, FieldKind::Int { lo: 0i128, hi: 255i128 }),
            (28u64, FieldKind::Bool { style: BoolStyle::OneZero }),
            (29u64, FieldKind::Text),
            (30u64, FieldKind::OptInt { lo: 0i128, hi: 4294967295i128 }),
            (31u64, FieldKind::Text),
            (38u64, FieldKind::SkippedOptText),
            (39u64, FieldKind::SkippedOptText),
            (40u64, FieldKind::SkippedOptText),
            (43u64, FieldKind::Int { lo: 0i128, hi: 255i128 }),
            (44u64, FieldKind::OptText),
            (45u64, FieldKind::OptText),
            (46u64, FieldKind::Int { lo: 0i128, hi: 65535i128 }),
            (48u64, FieldKind::Int { lo: 0i128, hi: 255i128 }),
            (49u64, FieldKind::Int { lo: 0i128, hi: 255i128 }),
            (50u64, FieldKind::Text),
            (51u64, FieldKind::Text),
            (52u64, FieldKind::Int { lo: 0i128, hi: 4294967295i128 }),
            (53u64, FieldKind::Int { lo: 0i128, hi: 255i128 }),
            (54u64, FieldKind::Int { lo: 0i128, hi: 255i128 }),
        ];
        assert(res@ =~= profile_schema());
        res
    }

    /// The object holding the given field values.
    fn from_values(vals: &Vec<FieldValue>) -> (res: Profile)
        requires
            vals@.len() == 37,
        ensures
            res@ == Profile::from_fields(field_views(vals@)),
    {
        let res = Profile {
            name: value_text(&vals[0]),
            user_id: value_int(&vals[1]) as u64,
            stars: value_int(&vals[2]) as u32,
            demons: value_int(&vals[3]) as u16,
            creator_points: value_int(&vals[4]) as u16,
            primary_color: Color::from_deserialize_proxy(value_int(&vals[5]) as u8),
            secondary_color: Color::from_deserialize_proxy(value_int(&vals[6]) as u8),
            secret_coins: value_int(&vals[7]) as u8,
            account_id: value_int(&vals[8]) as u64,
            user_coins: value_int(&vals[9]) as u16,
            index_18: value_text(&vals[10]),
            index_19: value_text(&vals[11]),
            youtube_url: match value_opt_text(&vals[12]) { Some(s) => Some(Youtube(s)), None => None },
            cube_index: value_int(&vals[13]) as u16,
            ship_index: value_int(&vals[14]) as u8,
            ball_index: value_int(&vals[15]) as u8,
            ufo_index: value_int(&vals[16]) as u8,
            wave_index: value_int(&vals[17]) as u8,
            robot_index: value_int(&vals[18]) as u8,
            has_glow: value_bool(&vals[19]),
            index_29: value_text(&vals[20]),
            global_rank: match value_opt_int(&vals[21]) { Some(x) => Some(x as u32), None => None },
            index_31: value_text(&vals[22]),
            index_38: value_opt_text(&vals[23]),
            index_39: value_opt_text(&vals[24]),
            index_40: value_opt_text(&vals[25]),
            spider_index: value_int(&vals[26]) as u8,
            twitter_url: match value_opt_text(&vals[27]) { Some(s) => Some(Twitter(s)), None => None },
            twitch_url: match value_opt_text(&vals[28]) { Some(s) => Some(Twitch(s)), None => None },
            diamonds: value_int(&vals[29]) as u16,
            death_effect_index: value_int(&vals[30]) as u8,
            mod_level: ModLevel::from_deserialize_proxy(value_int(&vals[31]) as u8),
            index_50: value_text(&vals[32]),
            index_51: value_text(&vals[33]),
            moons: value_int(&vals[34]) as u32,
            swing_index: value_int(&vals[35]) as u8,
            jetpack_index: value_int(&vals[36]) as u8,
        };
        assert(res@ =~= Profile::from_fields(field_views(vals@)));
        res
    }

    /// The field values this object is written as.
    fn to_values(&self) -> (res: Result<Vec<FieldValue>, ProcessError>)
        ensures
            match res {
                Ok(vals) => self@.gj_fields() == Some(field_views(vals@)),
                Err(_) => self@.gj_fields() is None,
            },
    {
        let v0 = FieldValue::Text(self.name.clone());
        let v1 = FieldValue::Int(self.user_id as i128);
        let v2 = FieldValue::Int(self.stars as i128);
        let v3 = FieldValue::Int(self.demons as i128);
        let v4 = FieldValue::Int(self.creator_points as i128);
        let v5 = FieldValue::Int(self.primary_color.to_serialize_proxy() as i128);
        let v6 = FieldValue::Int(self.secondary_color.to_serialize_proxy() as i128);
        let v7 = FieldValue::Int(self.secret_coins as i128);
        let v8 = FieldValue::Int(self.account_id as i128);
        let v9 = FieldValue::Int(self.user_coins as i128);
        let v10 = FieldValue::Text(self.index_18.clone());
        let v11 = FieldValue::Text(self.index_19.clone());
        let v12 = FieldValue::OptText(match &self.youtube_url { Some(n) => Some(n.0.clone()), None => None });
        let v13 = FieldValue::Int(self.cube_index as i128);
        let v14 = FieldValue::Int(self.ship_index as i128);
        let v15 = FieldValue::Int(self.ball_index as i128);
        let v16 = FieldValue::Int(self.ufo_index as i128);
        let v17 = FieldValue::Int(self.wave_index as i128);
        let v18 = FieldValue::Int(self.robot_index as i128);
        let v19 = FieldValue::Bool(self.has_glow);
        let v20 = FieldValue::Text(self.index_29.clone());
        let v21 = FieldValue::OptInt(match self.global_rank { Some(x) => Some(x as i128), None => None });
        let v22 = FieldValue::Text(self.index_31.clone());
        let v23 = FieldValue::OptText(clone_opt_string(&self.index_38));
        let v24 = FieldValue::OptText(clone_opt_string(&self.index_39));
        let v25 = FieldValue::OptText(clone_opt_string(&self.index_40));
        let v26 = FieldValue::Int(self.spider_index as i128);
        let v27 = FieldValue::OptText(match &self.twitter_url { Some(n) => Some(n.0.clone()), None => None });
        let v28 = FieldValue::OptText(match &self.twitch_url { Some(n) => Some(n.0.clone()), None => None });
        let v29 = FieldValue::Int(self.diamonds as i128);
        let v30 = FieldValue::Int(self.death_effect_index as i128);
        let v31 = FieldValue::Int(self.mod_level.to_serialize_proxy() as i128);
        let v32 = FieldValue::Text(self.index_50.clone());
        let v33 = FieldValue::Text(self.index_51.clone());
        let v34 = FieldValue::Int(self.moons as i128);
        let v35 = FieldValue::Int(self.swing_index as i128);
        let v36 = FieldValue::Int(self.jetpack_index as i128);
        let vals = vec![v0, v1, v2, v3, v4, v5, v6, v7, v8, v9, v10, v11, v12, v13, v14, v15, v16, v17, v18, v19, v20, v21, v22, v23, v24, v25, v26, v27, v28, v29, v30, v31, v32, v33, v34, v35, v36];
        assert(field_views(vals@) =~= self@.gj_fields()->0);
        Ok(vals)
    }

    /// Reads a [`Profile`] from RobTop's format: the fields are separated by `:`, each preceded by its index.
    pub fn from_gj_str(input: &str) -> (res: Result<Profile, DeError>)
        ensures
            res is Ok <==> struct_readable(split(input@, profile_delimiter()), profile_schema(), true),
            res matches Ok(x) ==> x@ == Profile::from_fields(
                struct_values(split(input@, profile_delimiter()), profile_schema(), true),
            ),
            res matches Err(e) ==> e is Custom,
    {
        proof {
            reveal_strlit(":");
            assert(":"@ =~= profile_delimiter());
            lemma_profile_schema();
        }
        let schema = Profile::gj_schema();
        match read_gj(input, ":", true, &schema) {
            Ok(vals) => {
                assert(field_views(vals@).len() == vals@.len());
                Ok(Profile::from_values(&vals))
            },
            Err(e) => Err(e),
        }
    }

    /// Writes this object in RobTop's format; fails when a thunk cannot be written.
    pub fn write_gj(&self) -> (res: Result<String, SerError>)
        ensures
            res is Ok <==> self@.gj_fields() is Some,
            res matches Ok(s) ==> s@ == join(
                struct_tokens(profile_schema(), self@.gj_fields()->0, true),
                profile_delimiter(),
            ),
    {
        proof {
            reveal_strlit(":");
            assert(":"@ =~= profile_delimiter());
        }
        match self.to_values() {
            Ok(vals) => {
                assert(field_views(vals@).len() == vals@.len());
                let schema = Profile::gj_schema();
                Ok(write_gj_fields(":", true, &schema, &vals))
            },
            Err(_) => Err(SerError::Custom("a value cannot be written".to_string())),
        }
    }
}

/// The schema of a [`Profile`] is well formed and no two of its fields share an index.
proof fn lemma_profile_schema()
    ensures
        schema_wf(profile_schema()),
        keys_distinct(profile_schema()),
{
    lemma_keys_distinct_by_position(profile_schema(), |k: u64| profile_key_position(k));
}

/// Reading back what was written for a [`Profile`] gives the object again, for every canonical
/// object whose values each fit their field (see [`field_ok`]) and whose texts do not hide the
/// delimiter `:`.
#[verifier::rlimit(100)]
#[verifier::spinoff_prover]
pub proof fn lemma_profile_roundtrip(v: ProfileView)
    requires
        v.is_canonical(),
        v.gj_fields() is Some,
        fields_faithful(profile_schema(), v.gj_fields()->0),
        values_separable(profile_schema(), v.gj_fields()->0, profile_delimiter()),
    ensures
        struct_readable(
            split(join(struct_tokens(profile_schema(), v.gj_fields()->0, true), profile_delimiter()), profile_delimiter()),
            profile_schema(),
            true,
        ),
        Profile::from_fields(
            struct_values(
                split(join(struct_tokens(profile_schema(), v.gj_fields()->0, true), profile_delimiter()), profile_delimiter()),
                profile_schema(),
                true,
            ),
        ) == v,
{
    let f = v.gj_fields()->0;
    lemma_profile_schema();
    lemma_struct_tokens_nonempty(profile_schema(), f, true, 0);
    lemma_struct_roundtrip(profile_schema(), f, true, profile_delimiter());
    assert(Profile::from_fields(f) =~= v);
}
/// A YouTube channel id.
#[derive(Debug, Clone, PartialEq, Eq)]
pub struct Youtube(pub String);

/// A Twitch user name.
#[derive(Debug, Clone, PartialEq, Eq)]
pub struct Twitch(pub String);

/// A Twitter handle.
#[derive(Debug, Clone, PartialEq, Eq)]
pub struct Twitter(pub String);

impl Youtube {
    /// The link to the channel.
    pub fn to_url(&self) -> (res: String)
        ensures
            res@ == "https://www.youtube.com/channel/"@ + self.0@,
    {
        let mut s = "https://www.youtube.com/channel/".to_string();
        s.append(self.0.as_str());
        s
    }
}

impl Twitch {
    /// The link to the channel.
    pub fn to_url(&self) -> (res: String)
        ensures
            res@ == "https://www.twitch.tv/"@ + self.0@,
    {
        let mut s = "https://www.twitch.tv/".to_string();
        s.append(self.0.as_str());
        s
    }
}

impl Twitter {
    /// The link to the account.
    pub fn to_url(&self) -> (res: String)
        ensures
            res@ == "https://www.twitter.com/"@ + self.0@,
    {
        let mut s = "https://www.twitter.com/".to_string();
        s.append(self.0.as_str());
        s
    }
}


} // verus!
