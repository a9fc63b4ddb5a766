//! Levels: the ones listed in search results, and the ones downloaded in full.

use vstd::prelude::*;
use crate::serde::de::error::Error as DeError;
use crate::serde::ser::error::Error as SerError;
use crate::serde::gj::{
    clone_opt_string, fields_faithful, fv_bool, fv_int, fv_opt_int, fv_opt_text, fv_text,
    lemma_keys_distinct_by_position, lemma_struct_tokens_nonempty, read_gj, value_bool,
    value_int, value_opt_int, value_opt_text, value_text, write_gj_fields,
};
use crate::serde::thunk::{thunk_text, thunk_value, ProcessError, Thunk, ThunkProcessor, ThunkView};
use crate::serde::{
    encode_field, field_ok, field_views, keys_distinct, lemma_struct_roundtrip, schema_wf,
    struct_readable, struct_tokens, struct_values, values_separable, BoolStyle, FieldKind,
    FieldValue, FieldView, InternalProxy,
};
use crate::split::{join, split};
use crate::model::level::objects::{Objects, ObjectsView};
use crate::model::level::password::Password;
use crate::model::level::{
    demon_index, demon_rating_of, demon_rating_value, rating_of, rating_value, DemonRating,
    Featured, LevelLength, LevelRating,
};
use crate::model::song::{main_song_artist, main_song_known_id, main_song_name, MainSong};
use crate::model::GameVersion;
use crate::serde::thunk::{thunk_reads_back, Base64Decoder};

verus! {

/// A level as the servers describe it. Listed levels (as in search results) carry no data; levels
/// downloaded in full carry a [`LevelData`].
#[derive(Debug, PartialEq, Clone)]
pub struct Level<Data, Song, User> {
    /// The level's id.
    pub level_id: u64,
    /// The level's name.
    pub name: String,
    /// The level's (base64 encoded) description, if any.
    pub description: Option<Thunk<Base64Decoder>>,
    /// The level's version.
    pub version: u32,
    /// The creator's user id.
    pub creator: User,
    /// The level's difficulty.
    pub difficulty: LevelRating,
    /// How often the level was downloaded.
    pub downloads: u32,
    /// The main song the level uses, if it uses no custom song.
    pub main_song: Option<MainSong>,
    /// The game version the level was last updated in.
    pub gd_version: GameVersion,
    /// The number of likes minus the number of dislikes.
    pub likes: i32,
    /// The level's length.
    pub length: LevelLength,
    /// The stars the level is rated.
    pub stars: u8,
    /// Whether the level is featured.
    pub featured: Featured,
    /// The level this one is a copy of, if any.
    pub copy_of: Option<u64>,
    /// Whether the level is a two player level.
    pub two_player: bool,
    /// The custom song the level uses, if any.
    pub custom_song: Song,
    /// The number of coins in the level.
    pub coin_amount: u8,
    /// Whether the coins are verified.
    pub coins_verified: bool,
    /// The stars the creator requested, if any.
    pub stars_requested: Option<u8>,
    /// Whether the level is rated epic.
    pub is_epic: bool,
    /// The number of objects, if known.
    pub object_amount: Option<u32>,
    /// Unknown.
    pub index_46: Option<String>,
    /// Unknown.
    pub index_47: Option<String>,
    /// The level's data, for a level downloaded in full.
    pub level_data: Data,
}

/// The abstract value of a [`Level`].
#[verifier::ext_equal]
pub struct LevelView<D, S, U> {
    pub level_id: u64,
    pub name: Seq<char>,
    pub description: Option<ThunkView<Seq<char>>>,
    pub version: u32,
    pub creator: U,
    pub difficulty: LevelRating,
    pub downloads: u32,
    pub main_song: Option<MainSongView>,
    pub gd_version: GameVersion,
    pub likes: i32,
    pub length: LevelLength,
    pub stars: u8,
    pub featured: Featured,
    pub copy_of: Option<u64>,
    pub two_player: bool,
    pub custom_song: S,
    pub coin_amount: u8,
    pub coins_verified: bool,
    pub stars_requested: Option<u8>,
    pub is_epic: bool,
    pub object_amount: Option<u32>,
    pub index_46: Option<Seq<char>>,
    pub index_47: Option<Seq<char>>,
    pub level_data: D,
}

impl View for Level<(), Option<u64>, u64> {
    type V = LevelView<(), Option<u64>, u64>;

    open spec fn view(&self) -> LevelView<(), Option<u64>, u64> {
        LevelView {
            level_id: self.level_id,
            name: self.name@,
            description: match &self.description { Some(t) => Some(t@), None => None },
            version: self.version,
            creator: self.creator,
            difficulty: self.difficulty,
            downloads: self.downloads,
            main_song: match self.main_song { Some(s) => Some(s@), None => None },
            gd_version: self.gd_version,
            likes: self.likes,
            length: self.length,
            stars: self.stars,
            featured: self.featured,
            copy_of: self.copy_of,
            two_player: self.two_player,
            custom_song: self.custom_song,
            coin_amount: self.coin_amount,
            coins_verified: self.coins_verified,
            stars_requested: self.stars_requested,
            is_epic: self.is_epic,
            object_amount: self.object_amount,
            index_46: match &self.index_46 { Some(x) => Some(x@), None => None },
            index_47: match &self.index_47 { Some(x) => Some(x@), None => None },
            level_data: (),
        }
    }
}

impl View for Level<LevelData, Option<u64>, u64> {
    type V = LevelView<LevelDataView, Option<u64>, u64>;

    open spec fn view(&self) -> LevelView<LevelDataView, Option<u64>, u64> {
        LevelView {
            level_id: self.level_id,
            name: self.name@,
            description: match &self.description { Some(t) => Some(t@), None => None },
            version: self.version,
            creator: self.creator,
            difficulty: self.difficulty,
            downloads: self.downloads,
            main_song: match self.main_song { Some(s) => Some(s@), None => None },
            gd_version: self.gd_version,
            likes: self.likes,
            length: self.length,
            stars: self.stars,
            featured: self.featured,
            copy_of: self.copy_of,
            two_player: self.two_player,
            custom_song: self.custom_song,
            coin_amount: self.coin_amount,
            coins_verified: self.coins_verified,
            stars_requested: self.stars_requested,
            is_epic: self.is_epic,
            object_amount: self.object_amount,
            index_46: match &self.index_46 { Some(x) => Some(x@), None => None },
            index_47: match &self.index_47 { Some(x) => Some(x@), None => None },
            level_data: self.level_data@,
        }
    }
}

/// The indices and kinds of the fields a level is written with, in the order they are written.
pub open spec fn level_schema() -> Seq<(u64, FieldKind)> {
    seq![
        (1u64, FieldKind::Int { lo: 0i128, hi: 18446744073709551615i128 }),
        (2u64, FieldKind::Text),
        (3u64, FieldKind::OptText),
        (5u64, FieldKind::Int { lo: 0i128, hi: 4294967295i128 }),
        (6u64, FieldKind::Int { lo: 0i128, hi: 18446744073709551615i128 }),
        (25u64, FieldKind::Bool { style: BoolStyle::OneEmpty }),
        (8u64, FieldKind::Bool { style: BoolStyle::TenZero }),
        (9u64, FieldKind::Int { lo: -2147483648i128, hi: 2147483647i128 }),
        (17u64, FieldKind::Bool { style: BoolStyle::OneEmpty }),
        (10u64, FieldKind::Int { lo: 0i128, hi: 4294967295i128 }),
        (12u64, FieldKind::Int { lo: 0i128, hi: 255i128 }),
        (13u64, FieldKind::Int { lo: 0i128, hi: 255i128 }),
        (14u64, FieldKind::Int { lo: -2147483648i128, hi: 2147483647i128 }),
        (15u64, FieldKind::Int { lo: -2147483648i128, hi: 2147483647i128 }),
        (18u64, FieldKind::Int { lo: 0i128, hi: 255i128 }),
        (19u64, FieldKind::Int { lo: -2147483648i128, hi: 2147483647i128 }),
        (30u64, FieldKind::DefaultToNone { hi: 18446744073709551615i128 }),
        (31u64, FieldKind::Bool { style: BoolStyle::OneZero }),
        (35u64, FieldKind::DefaultToNone { hi: 18446744073709551615i128 }),
        (37u64, FieldKind::Int { lo: 0i128, hi: 255i128 }),
        (38u64, FieldKind::Bool { style: BoolStyle::OneZero }),
        (39u64, FieldKind::DefaultToNone { hi: 255i128 }),
        (42u64, FieldKind::Bool { style: BoolStyle::OneZero }),
        (43u64, FieldKind::Int { lo: 0i128, hi: 255i128 }),
        (45u64, FieldKind::DefaultToNone { hi: 4294967295i128 }),
        (46u64, FieldKind::OptText),
        (47u64, FieldKind::OptText),
        (4u64, FieldKind::SkippedOptText),
        (27u64, FieldKind::SkippedOptText),
        (28u64, FieldKind::SkippedOptText),
        (29u64, FieldKind::SkippedOptText),
        (36u64, FieldKind::SkippedOptText),
        (40u64, FieldKind::SkippedOptText),
        (52u64, FieldKind::SkippedOptText),
        (53u64, FieldKind::SkippedOptText),
        (57u64, FieldKind::SkippedOptText),
    ]
}

/// The position of each index in [`level_schema`].
pub open spec fn level_key_position(k: u64) -> int {
    if k == 1 {
        0
    } else if k == 2 {
        1
    } else if k == 3 {
        2
    } else if k == 5 {
        3
    } else if k == 6 {
        4
    } else if k == 25 {
        5
    } else if k == 8 {
        6
    } else if k == 9 {
        7
    } else if k == 17 {
        8
    } else if k == 10 {
        9
    } else if k == 12 {
        10
    } else if k == 13 {
        11
    } else if k == 14 {
        12
    } else if k == 15 {
        13
    } else if k == 18 {
        14
    } else if k == 19 {
        15
    } else if k == 30 {
        16
    } else if k == 31 {
        17
    } else if k == 35 {
        18
    } else if k == 37 {
        19
    } else if k == 38 {
        20
    } else if k == 39 {
        21
    } else if k == 42 {
        22
    } else if k == 43 {
        23
    } else if k == 45 {
        24
    } else if k == 46 {
        25
    } else if k == 47 {
        26
    } else if k == 4 {
        27
    } else if k == 27 {
        28
    } else if k == 28 {
        29
    } else if k == 29 {
        30
    } else if k == 36 {
        31
    } else if k == 40 {
        32
    } else if k == 52 {
        33
    } else if k == 53 {
        34
    } else if k == 57 {
        35
    } else {
        -1
    }
}

/// The delimiter of a level's fields.
pub open spec fn level_delimiter() -> Seq<char> {
    seq![':']
}

/// The schema of a level is well formed and no two of its fields share an index.
proof fn lemma_level_schema()
    ensures
        schema_wf(level_schema()),
        keys_distinct(level_schema()),
{
    lemma_keys_distinct_by_position(level_schema(), |k: u64| level_key_position(k));
}

/// The rating read from the flags for "has a rating", "is auto" and "is a demon" and the rating
/// value.
pub open spec fn difficulty_of(has_rating: bool, is_auto: bool, is_demon: bool, value: i32) -> LevelRating {
    if !has_rating {
        LevelRating::NotAvailable
    } else if is_auto {
        LevelRating::Auto
    } else if is_demon {
        LevelRating::Demon(demon_rating_of(value))
    } else {
        rating_of(value)
    }
}

/// The rating read back from what a rating is written as.
pub open spec fn difficulty_is_canonical(rating: LevelRating) -> bool {
    match rating {
        LevelRating::Auto => true,
        LevelRating::NotAvailable => true,
        LevelRating::Demon(d) => demon_rating_of(demon_rating_value(d)) == d,
        _ => rating_of(rating_value(rating)) == rating,
    }
}

/// The abstract value of a [`MainSong`].
pub struct MainSongView {
    pub main_song_id: u8,
    pub name: Seq<char>,
    pub artist: Seq<char>,
}

impl View for MainSong {
    type V = MainSongView;

    open spec fn view(&self) -> MainSongView {
        MainSongView { main_song_id: self.main_song_id, name: self.name@, artist: self.artist@ }
    }
}

/// The main song read from a main song id.
pub open spec fn main_song_view(id: u8) -> MainSongView {
    MainSongView {
        main_song_id: main_song_known_id(id),
        name: main_song_name(id),
        artist: main_song_artist(id),
    }
}

/// The data of a level downloaded in full.
#[derive(Debug, PartialEq, Clone)]
pub struct LevelData {
    /// The (compressed, base64 encoded) objects of the level.
    pub level_data: Thunk<Objects>,
    /// The password the level can be copied with.
    pub password: Thunk<Password>,
    /// How long ago the level was uploaded, as the servers phrase it.
    pub time_since_upload: String,
    /// How long ago the level was last updated, as the servers phrase it.
    pub time_since_update: String,
    /// Unknown.
    pub index_36: String,
    /// Unknown.
    pub index_40: String,
    /// Unknown.
    pub index_52: String,
    /// Unknown.
    pub index_53: String,
    /// Unknown.
    pub index_57: String,
}

/// The abstract value of a [`LevelData`].
#[verifier::ext_equal]
pub struct LevelDataView {
    pub level_data: ThunkView<ObjectsView>,
    pub password: ThunkView<Password>,
    pub time_since_upload: Seq<char>,
    pub time_since_update: Seq<char>,
    pub index_36: Seq<char>,
    pub index_40: Seq<char>,
    pub index_52: Seq<char>,
    pub index_53: Seq<char>,
    pub index_57: Seq<char>,
}

impl View for LevelData {
    type V = LevelDataView;

    open spec fn view(&self) -> LevelDataView {
        LevelDataView {
            level_data: self.level_data@,
            password: self.password@,
            time_since_upload: self.time_since_upload@,
            time_since_update: self.time_since_update@,
            index_36: self.index_36@,
            index_40: self.index_40@,
            index_52: self.index_52@,
            index_53: self.index_53@,
            index_57: self.index_57@,
        }
    }
}

impl<D> LevelView<D, Option<u64>, u64> {
    /// Whether the values that are not written as they are (the rating, the song, the thunks and
    /// the values read through a conversion) are the ones their written form reads back as.
    pub open spec fn is_canonical_listing(self) -> bool {
        &&& self.is_canonical_but_description()
        &&& match self.description {
            Some(ThunkView::Processed(_)) => false,
            _ => true,
        }
    }

    /// Whether the values that are not written as they are, but for the description, are the
    /// ones their written form reads back as.
    pub open spec fn is_canonical_but_description(self) -> bool {
        &&& difficulty_is_canonical(self.difficulty)
        &&& match self.custom_song {
            Some(_) => self.main_song is None,
            None => self.main_song matches Some(s) && s == main_song_view(s.main_song_id),
        }
        &&& GameVersion::spec_from_proxy(self.gd_version.spec_to_proxy()) == self.gd_version
        &&& LevelLength::spec_from_proxy(self.length.spec_to_proxy()) == self.length
        &&& Featured::spec_from_proxy(self.featured.spec_to_proxy()) == self.featured
    }

    /// Whether a processed description reads back as itself from the text it is written as.
    pub open spec fn description_roundtrips(self) -> bool {
        match self.description {
            Some(ThunkView::Processed(v)) => Base64Decoder::decoded(Base64Decoder::encoded(v)->0) == Some(v),
            _ => true,
        }
    }

    /// Whether the two levels hold the same values (but for their data), the descriptions
    /// compared by the values they stand for.
    pub open spec fn same_listing(self, other: LevelView<D, Option<u64>, u64>) -> bool {
        &&& (match (self.description, other.description) {
            (Some(a), Some(b)) => thunk_value::<Base64Decoder>(a) == thunk_value::<Base64Decoder>(b),
            (None, None) => true,
            _ => false,
        })
        &&& self.level_id == other.level_id
        &&& self.name == other.name
        &&& self.version == other.version
        &&& self.creator == other.creator
        &&& self.difficulty == other.difficulty
        &&& self.downloads == other.downloads
        &&& self.main_song == other.main_song
        &&& self.gd_version == other.gd_version
        &&& self.likes == other.likes
        &&& self.length == other.length
        &&& self.stars == other.stars
        &&& self.featured == other.featured
        &&& self.copy_of == other.copy_of
        &&& self.two_player == other.two_player
        &&& self.custom_song == other.custom_song
        &&& self.coin_amount == other.coin_amount
        &&& self.coins_verified == other.coins_verified
        &&& self.stars_requested == other.stars_requested
        &&& self.is_epic == other.is_epic
        &&& self.object_amount == other.object_amount
        &&& self.index_46 == other.index_46
        &&& self.index_47 == other.index_47
    }

    /// Whether the description can be written.
    pub open spec fn description_writable(self) -> bool {
        match self.description {
            Some(t) => thunk_text::<Base64Decoder>(t) is Some,
            None => true,
        }
    }
}

impl LevelView<(), Option<u64>, u64> {
    /// The field values a listed level is written as (`None`: a value cannot be written).
    pub open spec fn gj_fields(self) -> Option<Seq<FieldView>> {
        let v = self;
        if self.description_writable() {
            Some(seq![
                FieldView::Int(v.level_id as int),
                FieldView::Text(v.name),
                FieldView::OptText(match v.description { Some(t) => Some(thunk_text::<Base64Decoder>(t)->0), None => None }),
                FieldView::Int(v.version as int),
                FieldView::Int(v.creator as int),
                FieldView::Bool(v.difficulty is Auto),
                FieldView::Bool(!(v.difficulty is NotAvailable)),
                FieldView::Int(rating_value(v.difficulty) as int),
                FieldView::Bool(v.difficulty is Demon),
                FieldView::Int(v.downloads as int),
                FieldView::Int(match v.main_song { Some(s) => s.main_song_id as int, None => 0 }),
                FieldView::Int(v.gd_version.spec_to_proxy() as int),
                FieldView::Int(v.likes as int),
                FieldView::Int(v.length.spec_to_proxy() as int),
                FieldView::Int(v.stars as int),
                FieldView::Int(v.featured.spec_to_proxy() as int),
                FieldView::OptInt(match v.copy_of { Some(x) => Some(x as int), None => None }),
                FieldView::Bool(v.two_player),
                FieldView::OptInt(match v.custom_song { Some(x) => Some(x as int), None => None }),
                FieldView::Int(v.coin_amount as int),
                FieldView::Bool(v.coins_verified),
                FieldView::OptInt(match v.stars_requested { Some(x) => Some(x as int), None => None }),
                FieldView::Bool(v.is_epic),
                FieldView::Int(demon_index(v.difficulty) as int),
                FieldView::OptInt(match v.object_amount { Some(x) => Some(x as int), None => None }),
                FieldView::OptText(v.index_46),
                FieldView::OptText(v.index_47),
                FieldView::OptText(None),
                FieldView::OptText(None),
                FieldView::OptText(None),
                FieldView::OptText(None),
                FieldView::OptText(None),
                FieldView::OptText(None),
                FieldView::OptText(None),
                FieldView::OptText(None),
                FieldView::OptText(None),
            ])
        } else {
            None
        }
    }
}

impl LevelView<LevelDataView, Option<u64>, u64> {
    /// The field values a level downloaded in full is written as (`None`: a value cannot be
    /// written).
    pub open spec fn gj_fields(self) -> Option<Seq<FieldView>> {
        let v = self;
        let d = self.level_data;
        if self.description_writable() && thunk_text::<Objects>(d.level_data) is Some && thunk_text::<
            Password,
        >(d.password) is Some {
            Some(seq![
                FieldView::Int(v.level_id as int),
                FieldView::Text(v.name),
                FieldView::OptText(match v.description { Some(t) => Some(thunk_text::<Base64Decoder>(t)->0), None => None }),
                FieldView::Int(v.version as int),
                FieldView::Int(v.creator as int),
                FieldView::Bool(v.difficulty is Auto),
                FieldView::Bool(!(v.difficulty is NotAvailable)),
                FieldView::Int(rating_value(v.difficulty) as int),
                FieldView::Bool(v.difficulty is Demon),
                FieldView::Int(v.downloads as int),
                FieldView::Int(match v.main_song { Some(s) => s.main_song_id as int, None => 0 }),
                FieldView::Int(v.gd_version.spec_to_proxy() as int),
                FieldView::Int(v.likes as int),
                FieldView::Int(v.length.spec_to_proxy() as int),
                FieldView::Int(v.stars as int),
                FieldView::Int(v.featured.spec_to_proxy() as int),
                FieldView::OptInt(match v.copy_of { Some(x) => Some(x as int), None => None }),
                FieldView::Bool(v.two_player),
                FieldView::OptInt(match v.custom_song { Some(x) => Some(x as int), None => None }),
                FieldView::Int(v.coin_amount as int),
                FieldView::Bool(v.coins_verified),
                FieldView::OptInt(match v.stars_requested { Some(x) => Some(x as int), None => None }),
                FieldView::Bool(v.is_epic),
                FieldView::Int(demon_index(v.difficulty) as int),
                FieldView::OptInt(match v.object_amount { Some(x) => Some(x as int), None => None }),
                FieldView::OptText(v.index_46),
                FieldView::OptText(v.index_47),
                FieldView::OptText(Some(thunk_text::<Objects>(d.level_data)->0)),
                FieldView::OptText(Some(thunk_text::<Password>(d.password)->0)),
                FieldView::OptText(Some(d.time_since_upload)),
                FieldView::OptText(Some(d.time_since_update)),
                FieldView::OptText(Some(d.index_36)),
                FieldView::OptText(Some(d.index_40)),
                FieldView::OptText(Some(d.index_52)),
                FieldView::OptText(Some(d.index_53)),
                FieldView::OptText(Some(d.index_57)),
            ])
        } else {
            None
        }
    }

    /// Whether this level is the one its written form reads back as.
    pub open spec fn is_canonical(self) -> bool {
        &&& self.is_canonical_listing()
        &&& self.level_data.level_data is Unprocessed
        &&& self.level_data.password is Unprocessed
    }

    /// Whether the processed thunks of this level read back as their values from the texts they
    /// are written as.
    pub open spec fn thunks_roundtrip(self) -> bool {
        &&& self.description_roundtrips()
        &&& match self.level_data.level_data {
            ThunkView::Processed(v) => Objects::decoded(Objects::encoded(v)->0) == Some(v),
            _ => true,
        }
        &&& match self.level_data.password {
            ThunkView::Processed(v) => Password::decoded(Password::encoded(v)->0) == Some(v),
            _ => true,
        }
    }

    /// Whether the two levels hold the same values, thunks compared by the values they stand for.
    pub open spec fn same_level(self, other: LevelView<LevelDataView, Option<u64>, u64>) -> bool {
        &&& self.same_listing(other)
        &&& thunk_value::<Objects>(self.level_data.level_data) == thunk_value::<Objects>(
            other.level_data.level_data,
        )
        &&& thunk_value::<Password>(self.level_data.password) == thunk_value::<Password>(
            other.level_data.password,
        )
        &&& self.level_data.time_since_upload == other.level_data.time_since_upload
        &&& self.level_data.time_since_update == other.level_data.time_since_update
        &&& self.level_data.index_36 == other.level_data.index_36
        &&& self.level_data.index_40 == other.level_data.index_40
        &&& self.level_data.index_52 == other.level_data.index_52
        &&& self.level_data.index_53 == other.level_data.index_53
        &&& self.level_data.index_57 == other.level_data.index_57
    }
}

/// The listed level read from the given field values.
pub open spec fn listed_level_from_fields(vals: Seq<FieldView>) -> LevelView<(), Option<u64>, u64> {
    LevelView {
        level_id: fv_int(vals[0]) as u64,
        name: fv_text(vals[1]),
        description: match fv_opt_text(vals[2]) { Some(s) => Some(ThunkView::Unprocessed(s)), None => None },
        version: fv_int(vals[3]) as u32,
        creator: fv_int(vals[4]) as u64,
        difficulty: difficulty_of(fv_bool(vals[6]), fv_bool(vals[5]), fv_bool(vals[8]), fv_int(vals[7]) as i32),
        downloads: fv_int(vals[9]) as u32,
        main_song: if fv_opt_int(vals[18]) is Some { None } else { Some(main_song_view(fv_int(vals[10]) as u8)) },
        gd_version: GameVersion::spec_from_proxy(fv_int(vals[11]) as u8),
        likes: fv_int(vals[12]) as i32,
        length: LevelLength::spec_from_proxy(fv_int(vals[13]) as i32),
        stars: fv_int(vals[14]) as u8,
        featured: Featured::spec_from_proxy(fv_int(vals[15]) as i32),
        copy_of: match fv_opt_int(vals[16]) { Some(x) => Some(x as u64), None => None },
        two_player: fv_bool(vals[17]),
        custom_song: match fv_opt_int(vals[18]) { Some(x) => Some(x as u64), None => None },
        coin_amount: fv_int(vals[19]) as u8,
        coins_verified: fv_bool(vals[20]),
        stars_requested: match fv_opt_int(vals[21]) { Some(x) => Some(x as u8), None => None },
        is_epic: fv_bool(vals[22]),
        object_amount: match fv_opt_int(vals[24]) { Some(x) => Some(x as u32), None => None },
        index_46: fv_opt_text(vals[25]),
        index_47: fv_opt_text(vals[26]),
        level_data: (),
    }
}

/// Whether the field values hold the level data a level downloaded in full needs.
pub open spec fn has_level_data(vals: Seq<FieldView>) -> bool {
    &&& fv_opt_text(vals[27]) is Some
    &&& fv_opt_text(vals[28]) is Some
    &&& fv_opt_text(vals[29]) is Some
    &&& fv_opt_text(vals[30]) is Some
}

/// A text read from an optional field, empty when absent.
pub open spec fn text_or_empty(v: FieldView) -> Seq<char> {
    match fv_opt_text(v) {
        Some(t) => t,
        None => Seq::empty(),
    }
}

/// The level downloaded in full read from the given field values (meaningful when
/// [`has_level_data`] holds).
pub open spec fn full_level_from_fields(vals: Seq<FieldView>) -> LevelView<LevelDataView, Option<u64>, u64> {
    LevelView {
        level_id: fv_int(vals[0]) as u64,
        name: fv_text(vals[1]),
        description: match fv_opt_text(vals[2]) { Some(s) => Some(ThunkView::Unprocessed(s)), None => None },
        version: fv_int(vals[3]) as u32,
        creator: fv_int(vals[4]) as u64,
        difficulty: difficulty_of(fv_bool(vals[6]), fv_bool(vals[5]), fv_bool(vals[8]), fv_int(vals[7]) as i32),
        downloads: fv_int(vals[9]) as u32,
        main_song: if fv_opt_int(vals[18]) is Some { None } else { Some(main_song_view(fv_int(vals[10]) as u8)) },
        gd_version: GameVersion::spec_from_proxy(fv_int(vals[11]) as u8),
        likes: fv_int(vals[12]) as i32,
        length: LevelLength::spec_from_proxy(fv_int(vals[13]) as i32),
        stars: fv_int(vals[14]) as u8,
        featured: Featured::spec_from_proxy(fv_int(vals[15]) as i32),
        copy_of: match fv_opt_int(vals[16]) { Some(x) => Some(x as u64), None => None },
        two_player: fv_bool(vals[17]),
        custom_song: match fv_opt_int(vals[18]) { Some(x) => Some(x as u64), None => None },
        coin_amount: fv_int(vals[19]) as u8,
        coins_verified: fv_bool(vals[20]),
        stars_requested: match fv_opt_int(vals[21]) { Some(x) => Some(x as u8), None => None },
        is_epic: fv_bool(vals[22]),
        object_amount: match fv_opt_int(vals[24]) { Some(x) => Some(x as u32), None => None },
        index_46: fv_opt_text(vals[25]),
        index_47: fv_opt_text(vals[26]),
        level_data: LevelDataView {
        level_data: ThunkView::Unprocessed(fv_opt_text(vals[27])->0),
        password: ThunkView::Unprocessed(fv_opt_text(vals[28])->0),
        time_since_upload: fv_opt_text(vals[29])->0,
        time_since_update: fv_opt_text(vals[30])->0,
        index_36: text_or_empty(vals[31]),
        index_40: text_or_empty(vals[32]),
        index_52: text_or_empty(vals[33]),
        index_53: text_or_empty(vals[34]),
        index_57: text_or_empty(vals[35]),
    },
    }
}

impl<Data, Song, User> Level<Data, Song, User> {
    /// Whether the level is a platformer level.
    pub fn is_platformer(&self) -> (res: bool)
        ensures
            res == (self.length is Platformer),
    {
        match self.length {
            LevelLength::Platformer => true,
            _ => false,
        }
    }
}

/// The indices and kinds of the fields a level is written with.
fn level_gj_schema() -> (res: Vec<(u64, FieldKind)>)
    ensures
        res@ == level_schema(),
{
    let res = vec![
        (1u64, FieldKind::Int { lo: 0i128, hi: 18446744073709551615i128 }),
        (2u64, FieldKind::Text),
        (3u64, FieldKind::OptText),
        (5u64, FieldKind::Int { lo: 0i128, hi: 4294967295i128 }),
        (6u64, FieldKind::Int { lo: 0i128, hi: 18446744073709551615i128 }),
        (25u64, FieldKind::Bool { style: BoolStyle::OneEmpty }),
        (8u64, FieldKind::Bool { style: BoolStyle::TenZero }),
        (9u64, FieldKind::Int { lo: -2147483648i128, hi: 2147483647i128 }),
        (17u64, FieldKind::Bool { style: BoolStyle::OneEmpty }),
        (10u64, FieldKind::Int { lo: 0i128, hi: 4294967295i128 }),
        (12u64, FieldKind::Int { lo: 0i128, hi: 255i128 }),
        (13u64, FieldKind::Int { lo: 0i128, hi: 255i128 }),
        (14u64, FieldKind::Int { lo: -2147483648i128, hi: 2147483647i128 }),
        (15u64, FieldKind::Int { lo: -2147483648i128, hi: 2147483647i128 }),
        (18u64, FieldKind::Int { lo: 0i128, hi: 255i128 }),
        (19u64, FieldKind::Int { lo: -2147483648i128, hi: 2147483647i128 }),
        (30u64, FieldKind::DefaultToNone { hi: 18446744073709551615i128 }),
        (31u64, FieldKind::Bool { style: BoolStyle::OneZero }),
        (35u64, FieldKind::DefaultToNone { hi: 18446744073709551615i128 }),
        (37u64, FieldKind::Int { lo: 0i128, hi: 255i128 }),
        (38u64, FieldKind::Bool { style: BoolStyle::OneZero }),
        (39u64, FieldKind::DefaultToNone { hi: 255i128 }),
        (42u64, FieldKind::Bool { style: BoolStyle::OneZero }),
        (43u64, FieldKind::Int { lo: 0i128, hi: 255i128 }),
        (45u64, FieldKind::DefaultToNone { hi: 4294967295i128 }),
        (46u64, FieldKind::OptText),
        (47u64, FieldKind::OptText),
        (4u64, FieldKind::SkippedOptText),
        (27u64, FieldKind::SkippedOptText),
        (28u64, FieldKind::SkippedOptText),
        (29u64, FieldKind::SkippedOptText),
        (36u64, FieldKind::SkippedOptText),
        (40u64, FieldKind::SkippedOptText),
        (52u64, FieldKind::SkippedOptText),
        (53u64, FieldKind::SkippedOptText),
        (57u64, FieldKind::SkippedOptText),
    ];
    assert(res@ =~= level_schema());
    res
}

/// The text of an optional field, empty when absent.
fn text_or_empty_exec(v: &FieldValue) -> (res: String)
    ensures
        res@ == text_or_empty(v@),
{
    match value_opt_text(v) {
        Some(t) => t,
        None => String::new(),
    }
}

impl Level<(), Option<u64>, u64> {
    /// The listed level holding the given field values.
    fn from_values(vals: &Vec<FieldValue>) -> (res: Level<(), Option<u64>, u64>)
        requires
            vals@.len() == 36,
        ensures
            res@ == listed_level_from_fields(field_views(vals@)),
    {
        let difficulty = if !value_bool(&vals[6]) {
            LevelRating::NotAvailable
        } else if value_bool(&vals[5]) {
            LevelRating::Auto
        } else if value_bool(&vals[8]) {
            LevelRating::Demon(DemonRating::from_response_value(value_int(&vals[7]) as i32))
        } else {
            LevelRating::from_response_value(value_int(&vals[7]) as i32)
        };
        let custom_song = match value_opt_int(&vals[18]) {
            Some(x) => Some(x as u64),
            None => None,
        };
        let main_song = match custom_song {
            Some(_) => None,
            None => Some(MainSong::from_id(value_int(&vals[10]) as u8)),
        };
        let res = Level {
            level_id: value_int(&vals[0]) as u64,
            name: value_text(&vals[1]),
            description: match value_opt_text(&vals[2]) { Some(s) => Some(Thunk::Unprocessed(s)), None => None },
            version: value_int(&vals[3]) as u32,
            creator: value_int(&vals[4]) as u64,
            difficulty: difficulty,
            downloads: value_int(&vals[9]) as u32,
            main_song: main_song,
            gd_version: GameVersion::from_deserialize_proxy(value_int(&vals[11]) as u8),
            likes: value_int(&vals[12]) as i32,
            length: LevelLength::from_deserialize_proxy(value_int(&vals[13]) as i32),
            stars: value_int(&vals[14]) as u8,
            featured: Featured::from_deserialize_proxy(value_int(&vals[15]) as i32),
            copy_of: match value_opt_int(&vals[16]) { Some(x) => Some(x as u64), None => None },
            two_player: value_bool(&vals[17]),
            custom_song: custom_song,
            coin_amount: value_int(&vals[19]) as u8,
            coins_verified: value_bool(&vals[20]),
            stars_requested: match value_opt_int(&vals[21]) { Some(x) => Some(x as u8), None => None },
            is_epic: value_bool(&vals[22]),
            object_amount: match value_opt_int(&vals[24]) { Some(x) => Some(x as u32), None => None },
            index_46: value_opt_text(&vals[25]),
            index_47: value_opt_text(&vals[26]),
            level_data: (),
        };
        assert(res@ =~= listed_level_from_fields(field_views(vals@)));
        res
    }

    /// The field values this level is written as.
    #[verifier::rlimit(50)]
    fn to_values(&self) -> (res: Result<Vec<FieldValue>, SerError>)
        ensures
            match res {
                Ok(vals) => self@.gj_fields() == Some(field_views(vals@)),
                Err(_) => self@.gj_fields() is None,
            },
            res is Ok ==> self@.description_roundtrips(),
    {
        let is_auto = match self.difficulty {
            LevelRating::Auto => true,
            _ => false,
        };
        let has_rating = match self.difficulty {
            LevelRating::NotAvailable => false,
            _ => true,
        };
        let rating: i32 = match self.difficulty {
            LevelRating::Auto => 0,
            _ => self.difficulty.into_response_value(),
        };
        let description = match &self.description {
            Some(t) => match t.as_unprocessed() {
                Ok(text) => FieldValue::OptText(Some(text)),
                Err(_) => {
                    return Err(SerError::Custom("the description cannot be written".to_string()));
                },
            },
            None => FieldValue::OptText(None),
        };
        let vals = vec![
            FieldValue::Int(self.level_id as i128),
            FieldValue::Text(self.name.clone()),
            description,
            FieldValue::Int(self.version as i128),
            FieldValue::Int(self.creator as i128),
            FieldValue::Bool(is_auto),
            FieldValue::Bool(has_rating),
            FieldValue::Int(rating as i128),
            FieldValue::Bool(self.difficulty.is_demon()),
            FieldValue::Int(self.downloads as i128),
            FieldValue::Int(match self.main_song { Some(s) => s.main_song_id as i128, None => 0 }),
            FieldValue::Int(self.gd_version.to_serialize_proxy() as i128),
            FieldValue::Int(self.likes as i128),
            FieldValue::Int(self.length.to_serialize_proxy() as i128),
            FieldValue::Int(self.stars as i128),
            FieldValue::Int(self.featured.to_serialize_proxy() as i128),
            FieldValue::OptInt(match self.copy_of { Some(x) => Some(x as i128), None => None }),
            FieldValue::Bool(self.two_player),
            FieldValue::OptInt(match self.custom_song { Some(x) => Some(x as i128), None => None }),
            FieldValue::Int(self.coin_amount as i128),
            FieldValue::Bool(self.coins_verified),
            FieldValue::OptInt(match self.stars_requested { Some(x) => Some(x as i128), None => None }),
            FieldValue::Bool(self.is_epic),
            FieldValue::Int(self.difficulty.demon_index() as i128),
            FieldValue::OptInt(match self.object_amount { Some(x) => Some(x as i128), None => None }),
            FieldValue::OptText(clone_opt_string(&self.index_46)),
            FieldValue::OptText(clone_opt_string(&self.index_47)),
            FieldValue::OptText(None),
            FieldValue::OptText(None),
            FieldValue::OptText(None),
            FieldValue::OptText(None),
            FieldValue::OptText(None),
            FieldValue::OptText(None),
            FieldValue::OptText(None),
            FieldValue::OptText(None),
            FieldValue::OptText(None),
        ];
        assert(field_views(vals@) =~= self@.gj_fields()->0);
        Ok(vals)
    }

    /// Reads a listed level from RobTop's format (fields separated by `:`, each preceded by its
    /// index); the fields holding a full level's data are ignored.
    pub fn from_gj_str(input: &str) -> (res: Result<Level<(), Option<u64>, u64>, DeError>)
        ensures
            res is Ok <==> struct_readable(split(input@, level_delimiter()), level_schema(), true),
            res matches Ok(l) ==> l@ == listed_level_from_fields(
                struct_values(split(input@, level_delimiter()), level_schema(), true),
            ),
            res matches Err(e) ==> e is Custom,
    {
        proof {
            reveal_strlit(":");
            assert(":"@ =~= level_delimiter());
            lemma_level_schema();
        }
        let schema = level_gj_schema();
        match read_gj(input, ":", true, &schema) {
            Ok(vals) => {
                assert(field_views(vals@).len() == vals@.len());
                Ok(Level::<(), Option<u64>, u64>::from_values(&vals))
            },
            Err(e) => Err(e),
        }
    }

    /// Writes this level in RobTop's format. An auto rated level is written with its flags for
    /// "has a rating" and "is auto" set and `0` as its rating value, which a reader ignores.
    ///
    /// Reading the text back gives a level holding the same values, for every level whose rating,
    /// song and converted values are canonical, whose values each fit their field and whose texts
    /// do not hide the delimiter `:`.
    pub fn write_gj(&self) -> (res: Result<String, SerError>)
        ensures
            res is Ok <==> self@.gj_fields() is Some,
            res matches Ok(s) ==> s@ == join(
                struct_tokens(level_schema(), self@.gj_fields()->0, true),
                level_delimiter(),
            ),
            res matches Ok(s) ==> (self@.is_canonical_but_description() && fields_faithful(
                level_schema(),
                self@.gj_fields()->0,
            ) && values_separable(level_schema(), self@.gj_fields()->0, level_delimiter()) ==> {
                &&& struct_readable(split(s@, level_delimiter()), level_schema(), true)
                &&& listed_level_from_fields(
                    struct_values(split(s@, level_delimiter()), level_schema(), true),
                ).same_listing(self@)
            }),
    {
        proof {
            reveal_strlit(":");
            assert(":"@ =~= level_delimiter());
        }
        match self.to_values() {
            Ok(vals) => {
                assert(field_views(vals@).len() == vals@.len());
                let schema = level_gj_schema();
                let out = write_gj_fields(":", true, &schema, &vals);
                proof {
                    if self@.is_canonical_but_description() && fields_faithful(
                        level_schema(),
                        self@.gj_fields()->0,
                    ) && values_separable(level_schema(), self@.gj_fields()->0, level_delimiter()) {
                        lemma_listed_level_save_load(self@);
                    }
                }
                Ok(out)
            },
            Err(e) => Err(e),
        }
    }
}

impl Level<LevelData, Option<u64>, u64> {
    /// The level holding the given field values (`None`: the level data is missing).
    fn from_values(vals: &Vec<FieldValue>) -> (res: Option<Level<LevelData, Option<u64>, u64>>)
        requires
            vals@.len() == 36,
        ensures
            res is Some <==> has_level_data(field_views(vals@)),
            res matches Some(l) ==> l@ == full_level_from_fields(field_views(vals@)),
    {
        let difficulty = if !value_bool(&vals[6]) {
            LevelRating::NotAvailable
        } else if value_bool(&vals[5]) {
            LevelRating::Auto
        } else if value_bool(&vals[8]) {
            LevelRating::Demon(DemonRating::from_response_value(value_int(&vals[7]) as i32))
        } else {
            LevelRating::from_response_value(value_int(&vals[7]) as i32)
        };
        let custom_song = match value_opt_int(&vals[18]) {
            Some(x) => Some(x as u64),
            None => None,
        };
        let main_song = match custom_song {
            Some(_) => None,
            None => Some(MainSong::from_id(value_int(&vals[10]) as u8)),
        };
        let level_data = match (value_opt_text(&vals[27]), value_opt_text(&vals[28]), value_opt_text(&vals[29]), value_opt_text(&vals[30])) {
            (Some(data), Some(password), Some(upload), Some(update)) => LevelData {
                level_data: Thunk::Unprocessed(data),
                password: Thunk::Unprocessed(password),
                time_since_upload: upload,
                time_since_update: update,
                index_36: text_or_empty_exec(&vals[31]),
                index_40: text_or_empty_exec(&vals[32]),
                index_52: text_or_empty_exec(&vals[33]),
                index_53: text_or_empty_exec(&vals[34]),
                index_57: text_or_empty_exec(&vals[35]),
            },
            _ => {
                return None;
            },
        };
        let res = Level {
            level_id: value_int(&vals[0]) as u64,
            name: value_text(&vals[1]),
            description: match value_opt_text(&vals[2]) { Some(s) => Some(Thunk::Unprocessed(s)), None => None },
            version: value_int(&vals[3]) as u32,
            creator: value_int(&vals[4]) as u64,
            difficulty: difficulty,
            downloads: value_int(&vals[9]) as u32,
            main_song: main_song,
            gd_version: GameVersion::from_deserialize_proxy(value_int(&vals[11]) as u8),
            likes: value_int(&vals[12]) as i32,
            length: LevelLength::from_deserialize_proxy(value_int(&vals[13]) as i32),
            stars: value_int(&vals[14]) as u8,
            featured: Featured::from_deserialize_proxy(value_int(&vals[15]) as i32),
            copy_of: match value_opt_int(&vals[16]) { Some(x) => Some(x as u64), None => None },
            two_player: value_bool(&vals[17]),
            custom_song: custom_song,
            coin_amount: value_int(&vals[19]) as u8,
            coins_verified: value_bool(&vals[20]),
            stars_requested: match value_opt_int(&vals[21]) { Some(x) => Some(x as u8), None => None },
            is_epic: value_bool(&vals[22]),
            object_amount: match value_opt_int(&vals[24]) { Some(x) => Some(x as u32), None => None },
            index_46: value_opt_text(&vals[25]),
            index_47: value_opt_text(&vals[26]),
            level_data: level_data,
        };
        assert(res@ =~= full_level_from_fields(field_views(vals@)));
        Some(res)
    }

    /// The field values this level is written as.
    #[verifier::rlimit(50)]
    fn to_values(&self) -> (res: Result<Vec<FieldValue>, SerError>)
        ensures
            match res {
                Ok(vals) => self@.gj_fields() == Some(field_views(vals@)),
                Err(_) => self@.gj_fields() is None,
            },
            res is Ok && thunk_reads_back::<Objects>(self@.level_data.level_data)
                ==> self@.thunks_roundtrip(),
    {
        let is_auto = match self.difficulty {
            LevelRating::Auto => true,
            _ => false,
        };
        let has_rating = match self.difficulty {
            LevelRating::NotAvailable => false,
            _ => true,
        };
        let rating: i32 = match self.difficulty {
            LevelRating::Auto => 0,
            _ => self.difficulty.into_response_value(),
        };
        let description = match &self.description {
            Some(t) => match t.as_unprocessed() {
                Ok(text) => FieldValue::OptText(Some(text)),
                Err(_) => {
                    return Err(SerError::Custom("the description cannot be written".to_string()));
                },
            },
            None => FieldValue::OptText(None),
        };
        let level_data = match self.level_data.level_data.as_unprocessed() {
            Ok(text) => FieldValue::OptText(Some(text)),
            Err(_) => {
                return Err(SerError::Custom("the level data cannot be written".to_string()));
            },
        };
        let password = match self.level_data.password.as_unprocessed() {
            Ok(text) => FieldValue::OptText(Some(text)),
            Err(_) => {
                return Err(SerError::Custom("the password cannot be written".to_string()));
            },
        };
        let vals = vec![
            FieldValue::Int(self.level_id as i128),
            FieldValue::Text(self.name.clone()),
            description,
            FieldValue::Int(self.version as i128),
            FieldValue::Int(self.creator as i128),
            FieldValue::Bool(is_auto),
            FieldValue::Bool(has_rating),
            FieldValue::Int(rating as i128),
            FieldValue::Bool(self.difficulty.is_demon()),
            FieldValue::Int(self.downloads as i128),
            FieldValue::Int(match self.main_song { Some(s) => s.main_song_id as i128, None => 0 }),
            FieldValue::Int(self.gd_version.to_serialize_proxy() as i128),
            FieldValue::Int(self.likes as i128),
            FieldValue::Int(self.length.to_serialize_proxy() as i128),
            FieldValue::Int(self.stars as i128),
            FieldValue::Int(self.featured.to_serialize_proxy() as i128),
            FieldValue::OptInt(match self.copy_of { Some(x) => Some(x as i128), None => None }),
            FieldValue::Bool(self.two_player),
            FieldValue::OptInt(match self.custom_song { Some(x) => Some(x as i128), None => None }),
            FieldValue::Int(self.coin_amount as i128),
            FieldValue::Bool(self.coins_verified),
            FieldValue::OptInt(match self.stars_requested { Some(x) => Some(x as i128), None => None }),
            FieldValue::Bool(self.is_epic),
            FieldValue::Int(self.difficulty.demon_index() as i128),
            FieldValue::OptInt(match self.object_amount { Some(x) => Some(x as i128), None => None }),
            FieldValue::OptText(clone_opt_string(&self.index_46)),
            FieldValue::OptText(clone_opt_string(&self.index_47)),
            level_data,
            password,
            FieldValue::OptText(Some(self.level_data.time_since_upload.clone())),
            FieldValue::OptText(Some(self.level_data.time_since_update.clone())),
            FieldValue::OptText(Some(self.level_data.index_36.clone())),
            FieldValue::OptText(Some(self.level_data.index_40.clone())),
            FieldValue::OptText(Some(self.level_data.index_52.clone())),
            FieldValue::OptText(Some(self.level_data.index_53.clone())),
            FieldValue::OptText(Some(self.level_data.index_57.clone())),
        ];
        assert(field_views(vals@) =~= self@.gj_fields()->0);
        Ok(vals)
    }

    /// Reads a level downloaded in full from RobTop's format; fails when the fields holding the
    /// level data, the password or the upload and update times are missing.
    pub fn from_gj_str(input: &str) -> (res: Result<Level<LevelData, Option<u64>, u64>, DeError>)
        ensures
            res is Ok <==> struct_readable(split(input@, level_delimiter()), level_schema(), true)
                && has_level_data(struct_values(split(input@, level_delimiter()), level_schema(), true)),
            res matches Ok(l) ==> l@ == full_level_from_fields(
                struct_values(split(input@, level_delimiter()), level_schema(), true),
            ),
            res matches Err(e) ==> e is Custom,
    {
        proof {
            reveal_strlit(":");
            assert(":"@ =~= level_delimiter());
            lemma_level_schema();
        }
        let schema = level_gj_schema();
        match read_gj(input, ":", true, &schema) {
            Ok(vals) => {
                assert(field_views(vals@).len() == vals@.len());
                match Level::<LevelData, Option<u64>, u64>::from_values(&vals) {
                    Some(l) => Ok(l),
                    None => Err(DeError::custom("Missing indices for level data!", None, None)),
                }
            },
            Err(e) => Err(e),
        }
    }

    /// Writes this level in RobTop's format. An auto rated level is written with its flags for
    /// "has a rating" and "is auto" set and `0` as its rating value, which a reader ignores.
    ///
    /// Reading the text back gives a level holding the same values, for every level whose rating,
    /// song and converted values are canonical, whose values each fit their field, whose texts do
    /// not hide the delimiter `:` and whose processed level data has no section holding `;`.
    pub fn write_gj(&self) -> (res: Result<String, SerError>)
        ensures
            res is Ok <==> self@.gj_fields() is Some,
            res matches Ok(s) ==> s@ == join(
                struct_tokens(level_schema(), self@.gj_fields()->0, true),
                level_delimiter(),
            ),
            res matches Ok(s) ==> (self@.is_canonical_but_description() && thunk_reads_back::<Objects>(
                self@.level_data.level_data,
            ) && fields_faithful(level_schema(), self@.gj_fields()->0) && values_separable(
                level_schema(),
                self@.gj_fields()->0,
                level_delimiter(),
            ) ==> {
                &&& struct_readable(split(s@, level_delimiter()), level_schema(), true)
                &&& has_level_data(struct_values(split(s@, level_delimiter()), level_schema(), true))
                &&& full_level_from_fields(
                    struct_values(split(s@, level_delimiter()), level_schema(), true),
                ).same_level(self@)
            }),
    {
        proof {
            reveal_strlit(":");
            assert(":"@ =~= level_delimiter());
        }
        match self.to_values() {
            Ok(vals) => {
                assert(field_views(vals@).len() == vals@.len());
                let schema = level_gj_schema();
                let out = write_gj_fields(":", true, &schema, &vals);
                proof {
                    if self@.is_canonical_but_description() && thunk_reads_back::<Objects>(
                        self@.level_data.level_data,
                    ) && fields_faithful(level_schema(), self@.gj_fields()->0) && values_separable(
                        level_schema(),
                        self@.gj_fields()->0,
                        level_delimiter(),
                    ) {
                        lemma_full_level_save_load(self@);
                    }
                }
                Ok(out)
            },
            Err(e) => Err(e),
        }
    }
}

/// Reading back what was written for a listed level gives the level again, for every level whose
/// rating, song and converted values are canonical, whose values each fit their field and whose
/// texts do not hide the delimiter `:`.
#[verifier::rlimit(100)]
#[verifier::spinoff_prover]
pub proof fn lemma_listed_level_roundtrip(v: LevelView<(), Option<u64>, u64>)
    requires
        v.is_canonical_listing(),
        v.gj_fields() is Some,
        fields_faithful(level_schema(), v.gj_fields()->0),
        values_separable(level_schema(), v.gj_fields()->0, level_delimiter()),
    ensures
        struct_readable(split(join(struct_tokens(level_schema(), v.gj_fields()->0, true), level_delimiter()), level_delimiter()), level_schema(), true),
        listed_level_from_fields(struct_values(split(join(struct_tokens(level_schema(), v.gj_fields()->0, true), level_delimiter()), level_delimiter()), level_schema(), true)) == v,
{
    let f = v.gj_fields()->0;
    lemma_level_schema();
    lemma_struct_tokens_nonempty(level_schema(), f, true, 0);
    lemma_struct_roundtrip(level_schema(), f, true, level_delimiter());
    assert(listed_level_from_fields(f) =~= v);
}

/// Reading back what was written for a level downloaded in full gives the level again, under the
/// conditions of [`lemma_listed_level_roundtrip`], with the level data and password unprocessed.
#[verifier::rlimit(100)]
#[verifier::spinoff_prover]
pub proof fn lemma_full_level_roundtrip(v: LevelView<LevelDataView, Option<u64>, u64>)
    requires
        v.is_canonical(),
        v.gj_fields() is Some,
        fields_faithful(level_schema(), v.gj_fields()->0),
        values_separable(level_schema(), v.gj_fields()->0, level_delimiter()),
    ensures
        struct_readable(split(join(struct_tokens(level_schema(), v.gj_fields()->0, true), level_delimiter()), level_delimiter()), level_schema(), true),
        has_level_data(struct_values(split(join(struct_tokens(level_schema(), v.gj_fields()->0, true), level_delimiter()), level_delimiter()), level_schema(), true)),
        full_level_from_fields(struct_values(split(join(struct_tokens(level_schema(), v.gj_fields()->0, true), level_delimiter()), level_delimiter()), level_schema(), true)) == v,
{
    let f = v.gj_fields()->0;
    lemma_level_schema();
    lemma_struct_tokens_nonempty(level_schema(), f, true, 0);
    lemma_struct_roundtrip(level_schema(), f, true, level_delimiter());
    assert(full_level_from_fields(f).level_data =~= v.level_data);
    assert(full_level_from_fields(f) =~= v);
}

/// Reading back what was written for a listed level whose description may be processed gives a
/// level holding the same values, provided a processed description reads back from the text it
/// is written as and the conditions of [`lemma_listed_level_roundtrip`] hold otherwise.
#[verifier::rlimit(100)]
#[verifier::spinoff_prover]
pub proof fn lemma_listed_level_save_load(v: LevelView<(), Option<u64>, u64>)
    requires
        v.is_canonical_but_description(),
        v.description_roundtrips(),
        v.gj_fields() is Some,
        fields_faithful(level_schema(), v.gj_fields()->0),
        values_separable(level_schema(), v.gj_fields()->0, level_delimiter()),
    ensures
        struct_readable(split(join(struct_tokens(level_schema(), v.gj_fields()->0, true), level_delimiter()), level_delimiter()), level_schema(), true),
        listed_level_from_fields(struct_values(split(join(struct_tokens(level_schema(), v.gj_fields()->0, true), level_delimiter()), level_delimiter()), level_schema(), true)).same_listing(v),
{
    let f = v.gj_fields()->0;
    lemma_level_schema();
    lemma_struct_tokens_nonempty(level_schema(), f, true, 0);
    lemma_struct_roundtrip(level_schema(), f, true, level_delimiter());
}

/// Reading back what was written for a level downloaded in full whose thunks may be processed
/// gives a level holding the same values, provided each processed thunk reads back from the text
/// it is written as and the conditions of [`lemma_full_level_roundtrip`] hold otherwise.
#[verifier::rlimit(100)]
#[verifier::spinoff_prover]
pub proof fn lemma_full_level_save_load(v: LevelView<LevelDataView, Option<u64>, u64>)
    requires
        v.is_canonical_but_description(),
        v.thunks_roundtrip(),
        v.gj_fields() is Some,
        fields_faithful(level_schema(), v.gj_fields()->0),
        values_separable(level_schema(), v.gj_fields()->0, level_delimiter()),
    ensures
        struct_readable(split(join(struct_tokens(level_schema(), v.gj_fields()->0, true), level_delimiter()), level_delimiter()), level_schema(), true),
        has_level_data(struct_values(split(join(struct_tokens(level_schema(), v.gj_fields()->0, true), level_delimiter()), level_delimiter()), level_schema(), true)),
        full_level_from_fields(struct_values(split(join(struct_tokens(level_schema(), v.gj_fields()->0, true), level_delimiter()), level_delimiter()), level_schema(), true)).same_level(v),
{
    let f = v.gj_fields()->0;
    lemma_level_schema();
    lemma_struct_tokens_nonempty(level_schema(), f, true, 0);
    lemma_struct_roundtrip(level_schema(), f, true, level_delimiter());
}

} // verus!
