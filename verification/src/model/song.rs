//! Songs.

use vstd::prelude::*;
use crate::serde::de::error::Error as DeError;
use crate::serde::ser::error::Error as SerError;
use crate::serde::gj::{
    clone_opt_string, fields_faithful, fv_bool, fv_int, fv_opt_int, fv_opt_text, fv_text,
    lemma_keys_distinct_by_position, lemma_struct_tokens_nonempty, read_gj, value_bool,
    value_int, value_opt_int, value_opt_text, value_text, write_gj_fields,
};
use crate::serde::thunk::{thunk_text, thunk_value, ProcessError, Thunk, ThunkProcessor, ThunkView};
use crate::serde::{
    encode_field, field_ok, field_views, keys_distinct, lemma_struct_roundtrip, schema_wf,
    struct_readable, struct_tokens, struct_values, values_separable, BoolStyle, FieldKind,
    FieldValue, FieldView, InternalProxy,
};
use crate::split::{join, split};
use crate::serde::thunk::PercentDecoded;

verus! {

/// A song from Newgrounds, as the servers describe it.
#[derive(Debug, Clone, PartialEq)]
pub struct RawNewgroundsSong {
    /// The song's id on Newgrounds.
    pub song_id: u64,
    /// The song's name.
    pub name: String,
    /// Unknown; present for every song.
    pub index_3: u64,
    /// The song's artist.
    pub artist: String,
    /// The size of the song file in megabytes, as the decimal number the servers send.
    pub filesize: String,
    /// Unknown.
    pub index_6: Option<String>,
    /// Unknown; holds a YouTube channel id for some songs.
    pub index_7: Option<String>,
    /// Unknown.
    pub index_8: String,
    /// The (percent encoded) link to the song file.
    pub link: Thunk<PercentDecoded>,
}

/// The abstract value of a [`RawNewgroundsSong`].
#[verifier::ext_equal]
pub struct RawNewgroundsSongView {
    pub song_id: u64,
    pub name: Seq<char>,
    pub index_3: u64,
    pub artist: Seq<char>,
    pub filesize: Seq<char>,
    pub index_6: Option<Seq<char>>,
    pub index_7: Option<Seq<char>>,
    pub index_8: Seq<char>,
    pub link: ThunkView<Seq<char>>,
}

impl View for RawNewgroundsSong {
    type V = RawNewgroundsSongView;

    open spec fn view(&self) -> RawNewgroundsSongView {
        RawNewgroundsSongView {
            song_id: self.song_id,
            name: self.name@,
            index_3: self.index_3,
            artist: self.artist@,
            filesize: self.filesize@,
            index_6: match &self.index_6 { Some(x) => Some(x@), None => None },
            index_7: match &self.index_7 { Some(x) => Some(x@), None => None },
            index_8: self.index_8@,
            link: self.link@,
        }
    }
}

/// The indices and kinds of the fields of a [`RawNewgroundsSong`], in the order they are written.
pub open spec fn raw_newgrounds_song_schema() -> Seq<(u64, FieldKind)> {
    seq![
        (1u64, FieldKind::Int { lo: 0i128, hi: 18446744073709551615i128 }),
        (2u64, FieldKind::Text),
        (3u64, FieldKind::Int { lo: 0i128, hi: 18446744073709551615i128 }),
        (4u64, FieldKind::Text),
        (5u64, FieldKind::FloatText),
        (6u64, FieldKind::OptText),
        (7u64, FieldKind::OptText),
        (8u64, FieldKind::Text),
        (10u64, FieldKind::Text),
    ]
}

/// The position of each index in [`raw_newgrounds_song_schema`].
pub open spec fn raw_newgrounds_song_key_position(k: u64) -> int {
    if k == 1 {
        0
    } else if k == 2 {
        1
    } else if k == 3 {
        2
    } else if k == 4 {
        3
    } else if k == 5 {
        4
    } else if k == 6 {
        5
    } else if k == 7 {
        6
    } else if k == 8 {
        7
    } else if k == 10 {
        8
    } else {
        -1
    }
}

/// The delimiter of a [`RawNewgroundsSong`]'s fields.
pub open spec fn raw_newgrounds_song_delimiter() -> Seq<char> {
    seq!['~', '|', '~']
}

impl RawNewgroundsSongView {
    /// The field values this object is written as (`None`: a value cannot be written).
    pub open spec fn gj_fields(self) -> Option<Seq<FieldView>> {
        if thunk_text::<PercentDecoded>(self.link) is Some {
            Some(seq![
                FieldView::Int(self.song_id as int),
                FieldView::Text(self.name),
                FieldView::Int(self.index_3 as int),
                FieldView::Text(self.artist),
                FieldView::Text(self.filesize),
                FieldView::OptText(self.index_6),
                FieldView::OptText(self.index_7),
                FieldView::Text(self.index_8),
                FieldView::Text(thunk_text::<PercentDecoded>(self.link)->0),
            ])
        } else {
            None
        }
    }

    /// Whether this object is the one its written form reads back as: every value with an index
    /// is the one its written value is read as, thunks are unprocessed and values without an
    /// index are absent.
    pub open spec fn is_canonical(self) -> bool {
        self.link is Unprocessed
    }

    /// Whether this object is the one its written form reads back as, up to its thunks, which
    /// read back unprocessed.
    pub open spec fn is_canonical_but_thunks(self) -> bool {
        true
    }

    /// Whether every processed thunk reads back as its value from the text it is written as.
    pub open spec fn thunks_roundtrip(self) -> bool {
        (match self.link {
            ThunkView::Processed(v) => PercentDecoded::decoded(PercentDecoded::encoded(v)->0) == Some(v),
            _ => true,
        })
    }

    /// Whether the two objects hold the same values, thunks compared by the values they stand for.
    pub open spec fn same_values(self, other: RawNewgroundsSongView) -> bool {
        self.song_id == other.song_id
        && self.name == other.name
        && self.index_3 == other.index_3
        && self.artist == other.artist
        && self.filesize == other.filesize
        && self.index_6 == other.index_6
        && self.index_7 == other.index_7
        && self.index_8 == other.index_8
        && thunk_value::<PercentDecoded>(self.link) == thunk_value::<PercentDecoded>(other.link)
    }

}

impl RawNewgroundsSong {
    /// The object read from the given field values.
    pub open spec fn from_fields(vals: Seq<FieldView>) -> RawNewgroundsSongView {
        RawNewgroundsSongView {
            song_id: fv_int(vals[0]) as u64,
            name: fv_text(vals[1]),
            index_3: fv_int(vals[2]) as u64,
            artist: fv_text(vals[3]),
            filesize: fv_text(vals[4]),
            index_6: fv_opt_text(vals[5]),
            index_7: fv_opt_text(vals[6]),
            index_8: fv_text(vals[7]),
            link: ThunkView::Unprocessed(fv_text(vals[8])),
        }
    }

    /// The indices and kinds of the fields.
    fn gj_schema() -> (res: Vec<(u64, FieldKind)>)
        ensures
            res@ == raw_newgrounds_song_schema(),
    {
        let res = vec![
            (1u64, FieldKind::Int { lo: 0i128, hi: 18446744073709551615i128 }),
            (2u64, FieldKind::Text),
            (3u64, FieldKind::Int { lo: 0i128, hi: 18446744073709551615i128 }),
            (4u64, FieldKind::Text),
            (5u64, FieldKind::FloatText),
            (6u64, FieldKind::OptText),
            (7u64, FieldKind::OptText),
            (8u64, FieldKind::Text),
            (10u64, FieldKind::Text),
        ];
        assert(res@ =~= raw_newgrounds_song_schema());
        res
    }

    /// The object holding the given field values.
    fn from_values(vals: &Vec<FieldValue>) -> (res: RawNewgroundsSong)
        requires
            vals@.len() == 9,
        ensures
            res@ == RawNewgroundsSong::from_fields(field_views(vals@)),
    {
        let res = RawNewgroundsSong {
            song_id: value_int(&vals[0]) as u64,
            name: value_text(&vals[1]),
            index_3: value_int(&vals[2]) as u64,
            artist: value_text(&vals[3]),
            filesize: value_text(&vals[4]),
            index_6: value_opt_text(&vals[5]),
            index_7: value_opt_text(&vals[6]),
            index_8: value_text(&vals[7]),
            link: Thunk::Unprocessed(value_text(&vals[8])),
        };
        assert(res@ =~= RawNewgroundsSong::from_fields(field_views(vals@)));
        res
    }

    /// The field values this object is written as.
    fn to_values(&self) -> (res: Result<Vec<FieldValue>, ProcessError>)
        ensures
            match res {
                Ok(vals) => self@.gj_fields() == Some(field_views(vals@)),
                Err(_) => self@.gj_fields() is None,
            },
    {
        let v0 = FieldValue::Int(self.song_id as i128);
        let v1 = FieldValue::Text(self.name.clone());
        let v2 = FieldValue::Int(self.index_3 as i128);
        let v3 = FieldValue::Text(self.artist.clone());
        let v4 = FieldValue::Text(self.filesize.clone());
        let v5 = FieldValue::OptText(clone_opt_string(&self.index_6));
        let v6 = FieldValue::OptText(clone_opt_string(&self.index_7));
        let v7 = FieldValue::Text(self.index_8.clone());
        let v8 = match self.link.as_unprocessed() {
            Ok(text) => FieldValue::Text(text),
            Err(e) => {
                return Err(e);
            },
        };
        let vals = vec![v0, v1, v2, v3, v4, v5, v6, v7, v8];
        assert(field_views(vals@) =~= self@.gj_fields()->0);
        Ok(vals)
    }

    /// Reads a [`RawNewgroundsSong`] from RobTop's format: the fields are separated by `~|~`, each preceded by its index.
    pub fn from_gj_str(input: &str) -> (res: Result<RawNewgroundsSong, DeError>)
        ensures
            res is Ok <==> struct_readable(split(input@, raw_newgrounds_song_delimiter()), raw_newgrounds_song_schema(), true),
            res matches Ok(x) ==> x@ == RawNewgroundsSong::from_fields(
                struct_values(split(input@, raw_newgrounds_song_delimiter()), raw_newgrounds_song_schema(), true),
            ),
            res matches Err(e) ==> e is Custom,
    {
        proof {
            reveal_strlit("~|~");
            assert("~|~"@ =~= raw_newgrounds_song_delimiter());
            lemma_raw_newgrounds_song_schema();
        }
        let schema = RawNewgroundsSong::gj_schema();
        match read_gj(input, "~|~", true, &schema) {
            Ok(vals) => {
                assert(field_views(vals@).len() == vals@.len());
                Ok(RawNewgroundsSong::from_values(&vals))
            },
            Err(e) => Err(e),
        }
    }

    /// Writes this object in RobTop's format; fails when a thunk cannot be written.
    pub fn write_gj(&self) -> (res: Result<String, SerError>)
        ensures
            res is Ok <==> self@.gj_fields() is Some,
            res matches Ok(s) ==> s@ == join(
                struct_tokens(raw_newgrounds_song_schema(), self@.gj_fields()->0, true),
                raw_newgrounds_song_delimiter(),
            ),
    {
        proof {
            reveal_strlit("~|~");
            assert("~|~"@ =~= raw_newgrounds_song_delimiter());
        }
        match self.to_values() {
            Ok(vals) => {
                assert(field_views(vals@).len() == vals@.len());
                let schema = RawNewgroundsSong::gj_schema();
                Ok(write_gj_fields("~|~", true, &schema, &vals))
            },
            Err(_) => Err(SerError::Custom("a value cannot be written".to_string())),
        }
    }
}

/// The schema of a [`RawNewgroundsSong`] is well formed and no two of its fields share an index.
proof fn lemma_raw_newgrounds_song_schema()
    ensures
        schema_wf(raw_newgrounds_song_schema()),
        keys_distinct(raw_newgrounds_song_schema()),
{
    lemma_keys_distinct_by_position(raw_newgrounds_song_schema(), |k: u64| raw_newgrounds_song_key_position(k));
}

/// Reading back what was written for a [`RawNewgroundsSong`] gives the object again, for every canonical
/// object whose values each fit their field (see [`field_ok`]) and whose texts do not hide the
/// delimiter `~|~`.
pub proof fn lemma_raw_newgrounds_song_roundtrip(v: RawNewgroundsSongView)
    requires
        v.is_canonical(),
        v.gj_fields() is Some,
        fields_faithful(raw_newgrounds_song_schema(), v.gj_fields()->0),
        values_separable(raw_newgrounds_song_schema(), v.gj_fields()->0, raw_newgrounds_song_delimiter()),
    ensures
        struct_readable(
            split(join(struct_tokens(raw_newgrounds_song_schema(), v.gj_fields()->0, true), raw_newgrounds_song_delimiter()), raw_newgrounds_song_delimiter()),
            raw_newgrounds_song_schema(),
            true,
        ),
        RawNewgroundsSong::from_fields(
            struct_values(
                split(join(struct_tokens(raw_newgrounds_song_schema(), v.gj_fields()->0, true), raw_newgrounds_song_delimiter()), raw_newgrounds_song_delimiter()),
                raw_newgrounds_song_schema(),
                true,
            ),
        ) == v,
{
    let f = v.gj_fields()->0;
    lemma_raw_newgrounds_song_schema();
    lemma_struct_tokens_nonempty(raw_newgrounds_song_schema(), f, true, 0);
    lemma_struct_roundtrip(raw_newgrounds_song_schema(), f, true, raw_newgrounds_song_delimiter());
    assert(RawNewgroundsSong::from_fields(f) =~= v);
}

/// Reading back what was written for a [`RawNewgroundsSong`] whose thunks may be processed gives an object
/// holding the same values, its thunks unprocessed but standing for the same values, provided
/// each processed thunk reads back from the text it is written as (see the laws of the thunk
/// processors) and the conditions of [`lemma_raw_newgrounds_song_roundtrip`] hold otherwise.
pub proof fn lemma_raw_newgrounds_song_save_load(v: RawNewgroundsSongView)
    requires
        v.is_canonical_but_thunks(),
        v.thunks_roundtrip(),
        v.gj_fields() is Some,
        fields_faithful(raw_newgrounds_song_schema(), v.gj_fields()->0),
        values_separable(raw_newgrounds_song_schema(), v.gj_fields()->0, raw_newgrounds_song_delimiter()),
    ensures
        struct_readable(
            split(join(struct_tokens(raw_newgrounds_song_schema(), v.gj_fields()->0, true), raw_newgrounds_song_delimiter()), raw_newgrounds_song_delimiter()),
            raw_newgrounds_song_schema(),
            true,
        ),
        RawNewgroundsSong::from_fields(
            struct_values(
                split(join(struct_tokens(raw_newgrounds_song_schema(), v.gj_fields()->0, true), raw_newgrounds_song_delimiter()), raw_newgrounds_song_delimiter()),
                raw_newgrounds_song_schema(),
                true,
            ),
        ).same_values(v),
{
    let f = v.gj_fields()->0;
    lemma_raw_newgrounds_song_schema();
    lemma_struct_tokens_nonempty(raw_newgrounds_song_schema(), f, true, 0);
    lemma_struct_roundtrip(raw_newgrounds_song_schema(), f, true, raw_newgrounds_song_delimiter());
}
/// A song of the main game.
#[derive(Debug, Eq, PartialEq, Clone, Copy)]
pub struct MainSong {
    /// The song's id; `0xFF` for songs this library does not know.
    pub main_song_id: u8,
    /// The song's name.
    pub name: &'static str,
    /// The song's artist.
    pub artist: &'static str,
}

/// The number of main songs this library knows.
pub const MAIN_SONG_COUNT: u8 = 21;

/// The name of the main song with the given id.
pub open spec fn main_song_name(id: u8) -> Seq<char> {
    match id {
        0 => "Stereo Madness"@,
        1 => "Back on Track"@,
        2 => "Polargeist"@,
        3 => "Dry Out"@,
        4 => "Base after Base"@,
        5 => "Can't Let Go"@,
        6 => "Jumper"@,
        7 => "Time Machine"@,
        8 => "Cycles"@,
        9 => "xStep"@,
        10 => "Clutterfunk"@,
        11 => "Theory of Everything"@,
        12 => "Electroman ADventures"@,
        13 => "Clubstep"@,
        14 => "Electrodynamix"@,
        15 => "Hexagon Force"@,
        16 => "Blast Processing"@,
        17 => "Theory of Everything 2"@,
        18 => "Geometrical Dominator"@,
        19 => "Deadlocked"@,
        20 => "Fingerdash"@,
        _ => "The model.song was added after the release of GDCF you're using"@,
    }
}

/// The artist of the main song with the given id.
pub open spec fn main_song_artist(id: u8) -> Seq<char> {
    match id {
        0 => "ForeverBound"@,
        1 => "DJVI"@,
        2 => "Step"@,
        3 => "DJVI"@,
        4 => "DJVI"@,
        5 => "DJVI"@,
        6 => "Waterflame"@,
        7 => "Waterflame"@,
        8 => "DJVI"@,
        9 => "DJVI"@,
        10 => "Waterflame"@,
        11 => "DJ-Nate"@,
        12 => "Waterflame"@,
        13 => "DJ-Nate"@,
        14 => "DJ-Nate"@,
        15 => "Waterflame"@,
        16 => "Waterflame"@,
        17 => "DJ-Nate"@,
        18 => "Waterflame"@,
        19 => "F-777"@,
        20 => "MDK"@,
        _ => "Please either update to the newest version, or bug stadust about adding the new songs"@,
    }
}

/// The id a main song id is read as: itself for the songs this library knows, `0xFF` otherwise.
pub open spec fn main_song_known_id(id: u8) -> u8 {
    if id < 21 {
        id
    } else {
        0xFF
    }
}

/// The main songs by their ids, each with its name and artist; every id from `0` to `20` is read
/// as itself.
#[verifier::rlimit(50)]
pub proof fn lemma_main_songs(id: u8)
    ensures
        main_song_name(0) == "Stereo Madness"@ && main_song_artist(0) == "ForeverBound"@,
        main_song_name(1) == "Back on Track"@ && main_song_artist(1) == "DJVI"@,
        main_song_name(2) == "Polargeist"@ && main_song_artist(2) == "Step"@,
        main_song_name(3) == "Dry Out"@ && main_song_artist(3) == "DJVI"@,
        main_song_name(4) == "Base after Base"@ && main_song_artist(4) == "DJVI"@,
        main_song_name(5) == "Can't Let Go"@ && main_song_artist(5) == "DJVI"@,
        main_song_name(6) == "Jumper"@ && main_song_artist(6) == "Waterflame"@,
        main_song_name(7) == "Time Machine"@ && main_song_artist(7) == "Waterflame"@,
        main_song_name(8) == "Cycles"@ && main_song_artist(8) == "DJVI"@,
        main_song_name(9) == "xStep"@ && main_song_artist(9) == "DJVI"@,
        main_song_name(10) == "Clutterfunk"@ && main_song_artist(10) == "Waterflame"@,
        main_song_name(11) == "Theory of Everything"@ && main_song_artist(11) == "DJ-Nate"@,
        main_song_name(12) == "Electroman ADventures"@ && main_song_artist(12) == "Waterflame"@,
        main_song_name(13) == "Clubstep"@ && main_song_artist(13) == "DJ-Nate"@,
        main_song_name(14) == "Electrodynamix"@ && main_song_artist(14) == "DJ-Nate"@,
        main_song_name(15) == "Hexagon Force"@ && main_song_artist(15) == "Waterflame"@,
        main_song_name(16) == "Blast Processing"@ && main_song_artist(16) == "Waterflame"@,
        main_song_name(17) == "Theory of Everything 2"@ && main_song_artist(17) == "DJ-Nate"@,
        main_song_name(18) == "Geometrical Dominator"@ && main_song_artist(18) == "Waterflame"@,
        main_song_name(19) == "Deadlocked"@ && main_song_artist(19) == "F-777"@,
        main_song_name(20) == "Fingerdash"@ && main_song_artist(20) == "MDK"@,
        id < 21 ==> main_song_known_id(id) == id,
        id >= 21 ==> main_song_known_id(id) == 0xFF,
{
}

impl MainSong {
    /// The main song with the given id; for ids this library does not know, the song with id
    /// `0xFF`.
    pub fn from_id(song_id: u8) -> (res: MainSong)
        ensures
            res.main_song_id == main_song_known_id(song_id),
            res.name@ == main_song_name(song_id),
            res.artist@ == main_song_artist(song_id),
    {
        match song_id {
            0 => MainSong { main_song_id: 0, name: "Stereo Madness", artist: "ForeverBound" },
            1 => MainSong { main_song_id: 1, name: "Back on Track", artist: "DJVI" },
            2 => MainSong { main_song_id: 2, name: "Polargeist", artist: "Step" },
            3 => MainSong { main_song_id: 3, name: "Dry Out", artist: "DJVI" },
            4 => MainSong { main_song_id: 4, name: "Base after Base", artist: "DJVI" },
            5 => MainSong { main_song_id: 5, name: "Can't Let Go", artist: "DJVI" },
            6 => MainSong { main_song_id: 6, name: "Jumper", artist: "Waterflame" },
            7 => MainSong { main_song_id: 7, name: "Time Machine", artist: "Waterflame" },
            8 => MainSong { main_song_id: 8, name: "Cycles", artist: "DJVI" },
            9 => MainSong { main_song_id: 9, name: "xStep", artist: "DJVI" },
            10 => MainSong { main_song_id: 10, name: "Clutterfunk", artist: "Waterflame" },
            11 => MainSong { main_song_id: 11, name: "Theory of Everything", artist: "DJ-Nate" },
            12 => MainSong { main_song_id: 12, name: "Electroman ADventures", artist: "Waterflame" },
            13 => MainSong { main_song_id: 13, name: "Clubstep", artist: "DJ-Nate" },
            14 => MainSong { main_song_id: 14, name: "Electrodynamix", artist: "DJ-Nate" },
            15 => MainSong { main_song_id: 15, name: "Hexagon Force", artist: "Waterflame" },
            16 => MainSong { main_song_id: 16, name: "Blast Processing", artist: "Waterflame" },
            17 => MainSong { main_song_id: 17, name: "Theory of Everything 2", artist: "DJ-Nate" },
            18 => MainSong { main_song_id: 18, name: "Geometrical Dominator", artist: "Waterflame" },
            19 => MainSong { main_song_id: 19, name: "Deadlocked", artist: "F-777" },
            20 => MainSong { main_song_id: 20, name: "Fingerdash", artist: "MDK" },
            _ => MainSong {
                main_song_id: 0xFF,
                name: "The model.song was added after the release of GDCF you're using",
                artist: "Please either update to the newest version, or bug stadust about adding the new songs",
            },
        }
    }
}

/// An owned Newgrounds song, with its link decoded.
#[derive(Debug, PartialEq, Clone)]
pub struct NewgroundsSong {
    /// The song's id on Newgrounds.
    pub song_id: u64,
    /// The song's name.
    pub name: String,
    /// Unknown; present for every song.
    pub index_3: u64,
    /// The song's artist.
    pub artist: String,
    /// The size of the song file in megabytes, as the decimal number the servers send.
    pub filesize: String,
    /// Unknown.
    pub index_6: Option<String>,
    /// Unknown; holds a YouTube channel id for some songs.
    pub index_7: Option<String>,
    /// Unknown.
    pub index_8: String,
    /// The link to the song file.
    pub link: String,
}

/// The abstract value of a [`NewgroundsSong`].
#[verifier::ext_equal]
pub struct NewgroundsSongView {
    pub song_id: u64,
    pub name: Seq<char>,
    pub index_3: u64,
    pub artist: Seq<char>,
    pub filesize: Seq<char>,
    pub index_6: Option<Seq<char>>,
    pub index_7: Option<Seq<char>>,
    pub index_8: Seq<char>,
    pub link: Seq<char>,
}

impl View for NewgroundsSong {
    type V = NewgroundsSongView;

    open spec fn view(&self) -> NewgroundsSongView {
        NewgroundsSongView {
            song_id: self.song_id,
            name: self.name@,
            index_3: self.index_3,
            artist: self.artist@,
            filesize: self.filesize@,
            index_6: match &self.index_6 {
                Some(x) => Some(x@),
                None => None,
            },
            index_7: match &self.index_7 {
                Some(x) => Some(x@),
                None => None,
            },
            index_8: self.index_8@,
            link: self.link@,
        }
    }
}

impl RawNewgroundsSongView {
    /// Whether the owned song holds the same values as this one, with the link decoded to `link`.
    pub open spec fn same_song(self, song: NewgroundsSongView, link: Seq<char>) -> bool {
        &&& song.song_id == self.song_id
        &&& song.name == self.name
        &&& song.index_3 == self.index_3
        &&& song.artist == self.artist
        &&& song.filesize == self.filesize
        &&& song.index_6 == self.index_6
        &&& song.index_7 == self.index_7
        &&& song.index_8 == self.index_8
        &&& song.link == link
    }
}

impl RawNewgroundsSong {
    /// The owned song, with the link percent decoded; fails when the decoded link is not UTF-8.
    pub fn to_owned(self) -> (res: Result<NewgroundsSong, ProcessError>)
        ensures
            match res {
                Ok(song) => thunk_value::<PercentDecoded>(self@.link) == Some(song@.link)
                    && self@.same_song(song@, song@.link),
                Err(_) => thunk_value::<PercentDecoded>(self@.link) is None,
            },
    {
        let ghost raw = self@;
        match self.link.into_processed() {
            Ok(link) => Ok(NewgroundsSong {
                song_id: self.song_id,
                name: self.name,
                index_3: self.index_3,
                artist: self.artist,
                filesize: self.filesize,
                index_6: self.index_6,
                index_7: self.index_7,
                index_8: self.index_8,
                link: link.0,
            }),
            Err(e) => Err(e),
        }
    }
}

impl NewgroundsSong {
    /// The song in the form it is written in, its link to be percent encoded when written.
    pub fn as_raw(&self) -> (res: RawNewgroundsSong)
        ensures
            res@.link == ThunkView::<Seq<char>>::Processed(self@.link),
            res@.same_song(self@, self@.link),
    {
        RawNewgroundsSong {
            song_id: self.song_id,
            name: self.name.clone(),
            index_3: self.index_3,
            artist: self.artist.clone(),
            filesize: self.filesize.clone(),
            index_6: clone_opt_string(&self.index_6),
            index_7: clone_opt_string(&self.index_7),
            index_8: self.index_8.clone(),
            link: Thunk::Processed(PercentDecoded(self.link.clone())),
        }
    }
}

/// Reads a Newgrounds song from RobTop's format (fields separated by `~|~`, each preceded by its
/// index).
pub fn from_str(input: &str) -> (res: Result<RawNewgroundsSong, DeError>)
    ensures
        res is Ok <==> struct_readable(
            split(input@, raw_newgrounds_song_delimiter()),
            raw_newgrounds_song_schema(),
            true,
        ),
        res matches Ok(x) ==> x@ == RawNewgroundsSong::from_fields(
            struct_values(
                split(input@, raw_newgrounds_song_delimiter()),
                raw_newgrounds_song_schema(),
                true,
            ),
        ),
{
    RawNewgroundsSong::from_gj_str(input)
}

} // verus!
