//! Requests for single levels and for lists of levels.

use vstd::prelude::*;
use vstd::std_specs::convert::FromSpecImpl;
use crate::model::level::{DemonRating, LevelLength, LevelRating};
use crate::model::song::MainSong;
use crate::request::{
    bool_pair, gd_21, gd_21_spec, int_pair, push_bool_pair, push_int_pair, push_list_pair, push_str_pair,
    BaseRequest,
};
use crate::serde::emit;
use crate::serde::ser::error::Error;
use crate::serde::ser::request::{list_text, pair_tokens, pairs_view, RequestSerializer};

verus! {

/// A request for a single level.
#[derive(Debug, Clone, Copy)]
pub struct LevelRequest<'a> {
    /// The base of the request.
    pub base: BaseRequest<'a>,
    /// The id of the level.
    pub level_id: u64,
    /// Whether the level's download count should be increased.
    pub inc: bool,
    /// Unknown.
    pub extra: bool,
}

impl<'a> LevelRequest<'a> {
    /// The pairs this request is written as.
    pub open spec fn form(self) -> Seq<(Seq<char>, Seq<char>)> {
        self.base.form() + seq![
            int_pair("levelID"@, self.level_id as int),
            bool_pair("inc"@, self.inc),
            bool_pair("extra"@, self.extra),
        ]
    }

    /// A request for the level with the given id.
    pub fn new(level_id: u64) -> (res: LevelRequest<'static>)
        ensures
            res.base == gd_21_spec(),
            res.level_id == level_id,
            !res.inc,
            !res.extra,
    {
        LevelRequest { base: gd_21(), level_id, inc: false, extra: false }
    }

    /// Writes this request.
    pub fn serialize(&self, serializer: &mut RequestSerializer) -> (res: Result<(), Error>)
        ensures
            res is Ok,
            final(serializer).output() == emit(
                old(serializer).output(),
                old(serializer).at_start(),
                pair_tokens(self.form()),
                seq!['&'],
            ),
    {
        let mut pairs: Vec<(String, String)> = Vec::new();
        self.base.push_pairs(&mut pairs);
        push_int_pair(&mut pairs, "levelID", self.level_id as i128);
        push_bool_pair(&mut pairs, "inc", self.inc);
        push_bool_pair(&mut pairs, "extra", self.extra);
        assert(pairs_view(pairs@) =~= self.form());
        serializer.serialize_pairs(&pairs)
    }
}

impl Default for LevelRequest<'static> {
    fn default() -> (res: LevelRequest<'static>)
        ensures
            res.base.secret@ == "Wmfd2893gb7"@,
            res.base.game_version == (crate::model::GameVersion::Version { minor: 1, major: 2 }),
            res.base.binary_version == (crate::model::GameVersion::Version { minor: 3, major: 3 }),
            res.level_id == 0,
            !res.inc,
            !res.extra,
    {
        LevelRequest { base: gd_21(), level_id: 0, inc: false, extra: false }
    }
}

/// Which levels a search is limited to or excludes by whether they were completed.
#[derive(Debug, Clone)]
pub struct CompletionFilter {
    ids: Option<Vec<u64>>,
    only_search_given: bool,
    exclude_given: bool,
}

/// The abstract value of a [`CompletionFilter`].
pub struct CompletionFilterView {
    pub ids: Option<Seq<u64>>,
    pub only_search_given: bool,
    pub exclude_given: bool,
}

impl View for CompletionFilter {
    type V = CompletionFilterView;

    closed spec fn view(&self) -> CompletionFilterView {
        CompletionFilterView {
            ids: match &self.ids {
                Some(v) => Some(v@),
                None => None,
            },
            only_search_given: self.only_search_given,
            exclude_given: self.exclude_given,
        }
    }
}

/// The level ids as the integers they are written as.
pub open spec fn ids_as_ints(ids: Seq<u64>) -> Seq<i128> {
    ids.map_values(|id: u64| id as i128)
}

impl CompletionFilterView {
    /// The pairs this filter is written as.
    pub open spec fn form(self) -> Seq<(Seq<char>, Seq<char>)> {
        (match self.ids {
            Some(ids) => seq![("completedLevels"@, list_text(ids_as_ints(ids), true))],
            None => seq![],
        }) + seq![
            bool_pair("onlyCompleted"@, self.only_search_given),
            bool_pair("uncompleted"@, self.exclude_given),
        ]
    }
}

impl CompletionFilter {
    /// Limits a search to the given levels.
    pub fn limit_search(ids: Vec<u64>) -> (res: CompletionFilter)
        ensures
            res@.ids == Some(ids@),
            res@.only_search_given,
            !res@.exclude_given,
    {
        CompletionFilter { ids: Some(ids), only_search_given: true, exclude_given: false }
    }

    /// Excludes the given levels from a search.
    pub fn exclude(ids: Vec<u64>) -> (res: CompletionFilter)
        ensures
            res@.ids == Some(ids@),
            !res@.only_search_given,
            res@.exclude_given,
    {
        CompletionFilter { ids: Some(ids), only_search_given: false, exclude_given: true }
    }

    /// Appends the pairs this filter is written as.
    pub fn push_pairs(&self, pairs: &mut Vec<(String, String)>)
        ensures
            pairs_view(final(pairs)@) == pairs_view(old(pairs)@) + self@.form(),
    {
        if let Some(ids) = &self.ids {
            let mut items: Vec<i128> = Vec::new();
            let mut i: usize = 0;
            while i < ids.len()
                invariant
                    i <= ids@.len(),
                    items@ == ids_as_ints(ids@).take(i as int),
                decreases ids@.len() - i,
            {
                items.push(ids[i] as i128);
                assert(items@ =~= ids_as_ints(ids@).take(i + 1));
                i = i + 1;
            }
            assert(items@ =~= ids_as_ints(ids@));
            push_list_pair(pairs, "completedLevels", &items, true);
        }
        push_bool_pair(pairs, "onlyCompleted", self.only_search_given);
        push_bool_pair(pairs, "uncompleted", self.exclude_given);
        assert(pairs_view(pairs@) =~= pairs_view(old(pairs)@) + self@.form());
    }
}

impl Default for CompletionFilter {
    fn default() -> (res: CompletionFilter)
        ensures
            res@.ids is None,
            !res@.only_search_given,
            !res@.exclude_given,
    {
        CompletionFilter { ids: None, only_search_given: false, exclude_given: false }
    }
}

/// A filter on the song a level uses.
#[derive(Debug, Copy, Clone, Hash, PartialEq, Eq)]
pub struct SongFilter {
    song_id: u64,
    is_custom: bool,
}

/// The abstract value of a [`SongFilter`].
pub struct SongFilterView {
    pub song_id: u64,
    pub is_custom: bool,
}

impl View for SongFilter {
    type V = SongFilterView;

    closed spec fn view(&self) -> SongFilterView {
        SongFilterView { song_id: self.song_id, is_custom: self.is_custom }
    }
}

impl SongFilterView {
    /// The pairs this filter is written as; `customSong` only for a custom song.
    pub open spec fn form(self) -> Seq<(Seq<char>, Seq<char>)> {
        seq![int_pair("song"@, self.song_id as int)] + if self.is_custom {
            seq![bool_pair("customSong"@, true)]
        } else {
            seq![]
        }
    }
}

impl SongFilter {
    /// Appends the pairs this filter is written as.
    pub fn push_pairs(&self, pairs: &mut Vec<(String, String)>)
        ensures
            pairs_view(final(pairs)@) == pairs_view(old(pairs)@) + self@.form(),
    {
        push_int_pair(pairs, "song", self.song_id as i128);
        if self.is_custom {
            push_bool_pair(pairs, "customSong", true);
        }
        assert(pairs_view(pairs@) =~= pairs_view(old(pairs)@) + self@.form());
    }
}

/// Filters for a level search.
#[derive(Debug, Clone)]
pub struct SearchFilters {
    /// Only featured levels.
    pub featured: bool,
    /// Only levels that are not copies.
    pub original: bool,
    /// Only two player levels.
    pub two_player: bool,
    /// Only levels with coins.
    pub coins: bool,
    /// Only epic levels.
    pub epic: bool,
    /// Only rated levels.
    pub rated: bool,
    /// Only levels using the given song.
    pub song: Option<SongFilter>,
    /// Which levels to include by whether they were completed.
    pub completion: CompletionFilter,
}

impl SearchFilters {
    /// The pairs these filters are written as.
    pub open spec fn form(self) -> Seq<(Seq<char>, Seq<char>)> {
        seq![
            bool_pair("featured"@, self.featured),
            bool_pair("original"@, self.original),
            bool_pair("twoPlayer"@, self.two_player),
            bool_pair("coins"@, self.coins),
            bool_pair("epic"@, self.epic),
            bool_pair("star"@, self.rated),
        ] + (match self.song {
            Some(s) => s@.form(),
            None => seq![],
        }) + self.completion@.form()
    }

    /// Only rated levels.
    pub fn rated(self) -> (res: SearchFilters)
        ensures
            res == (SearchFilters { rated: true, ..self }),
    {
        let mut s = self;
        s.rated = true;
        s
    }

    /// Only epic levels.
    pub fn epic(self) -> (res: SearchFilters)
        ensures
            res == (SearchFilters { epic: true, ..self }),
    {
        let mut s = self;
        s.epic = true;
        s
    }

    /// Only levels with coins.
    pub fn has_coins(self) -> (res: SearchFilters)
        ensures
            res == (SearchFilters { coins: true, ..self }),
    {
        let mut s = self;
        s.coins = true;
        s
    }

    /// Only two player levels.
    pub fn two_player(self) -> (res: SearchFilters)
        ensures
            res == (SearchFilters { two_player: true, ..self }),
    {
        let mut s = self;
        s.two_player = true;
        s
    }

    /// Only levels that are not copies.
    pub fn original(self) -> (res: SearchFilters)
        ensures
            res == (SearchFilters { original: true, ..self }),
    {
        let mut s = self;
        s.original = true;
        s
    }

    /// Only featured levels.
    pub fn featured(self) -> (res: SearchFilters)
        ensures
            res == (SearchFilters { featured: true, ..self }),
    {
        let mut s = self;
        s.featured = true;
        s
    }

    /// Uses the given completion filter.
    pub fn completion_filter(self, filter: CompletionFilter) -> (res: SearchFilters)
        ensures
            res == (SearchFilters { completion: filter, ..self }),
    {
        let mut s = self;
        s.completion = filter;
        s
    }

    /// Only levels using the given main song.
    pub fn main_song(self, main_song: MainSong) -> (res: SearchFilters)
        ensures
            res.song matches Some(f) && f@.song_id == main_song.main_song_id && !f@.is_custom,
            res == (SearchFilters { song: res.song, ..self }),
    {
        let mut s = self;
        s.song = Some(SongFilter { song_id: main_song.main_song_id as u64, is_custom: false });
        s
    }

    /// Only levels using the given custom song.
    pub fn custom_song(self, song_id: u64) -> (res: SearchFilters)
        ensures
            res.song matches Some(f) && f@.song_id == song_id && f@.is_custom,
            res == (SearchFilters { song: res.song, ..self }),
    {
        let mut s = self;
        s.song = Some(SongFilter { song_id, is_custom: true });
        s
    }

    /// Appends the pairs these filters are written as.
    pub fn push_pairs(&self, pairs: &mut Vec<(String, String)>)
        ensures
            pairs_view(final(pairs)@) == pairs_view(old(pairs)@) + self.form(),
    {
        let ghost start = pairs_view(pairs@);
        push_bool_pair(pairs, "featured", self.featured);
        push_bool_pair(pairs, "original", self.original);
        push_bool_pair(pairs, "twoPlayer", self.two_player);
        push_bool_pair(pairs, "coins", self.coins);
        push_bool_pair(pairs, "epic", self.epic);
        push_bool_pair(pairs, "star", self.rated);
        let ghost mid = pairs_view(pairs@);
        if let Some(song) = &self.song {
            song.push_pairs(pairs);
        }
        let ghost mid2 = pairs_view(pairs@);
        self.completion.push_pairs(pairs);
        assert(pairs_view(pairs@) =~= start + self.form());
    }
}

impl Default for SearchFilters {
    fn default() -> (res: SearchFilters)
        ensures
            !res.featured && !res.original && !res.two_player && !res.coins && !res.epic
                && !res.rated,
            res.song is None,
            res.completion@.ids is None,
            !res.completion@.only_search_given,
            !res.completion@.exclude_given,
    {
        SearchFilters {
            featured: false,
            original: false,
            two_player: false,
            coins: false,
            epic: false,
            rated: false,
            song: None,
            completion: CompletionFilter::default(),
        }
    }
}

/// The kind of a level list request.
#[derive(Debug, Copy, Clone, PartialEq, Hash)]
pub enum LevelRequestType {
    Search,
    MostDownloaded,
    MostLiked,
    Trending,
    Recent,
    User,
    Featured,
    Magic,
    MapPack,
    Awarded,
    Followed,
    Friends,
    HallOfFame,
    /// A kind this library does not know about.
    Unknown(i32),
}

/// The request kind the servers mean by `value`.
pub open spec fn request_type_of(value: i32) -> LevelRequestType {
    match value {
        0 => LevelRequestType::Search,
        1 => LevelRequestType::MostDownloaded,
        2 => LevelRequestType::MostLiked,
        3 => LevelRequestType::Trending,
        4 => LevelRequestType::Recent,
        5 => LevelRequestType::User,
        6 => LevelRequestType::Featured,
        7 => LevelRequestType::Magic,
        10 => LevelRequestType::MapPack,
        11 => LevelRequestType::Awarded,
        12 => LevelRequestType::Followed,
        13 => LevelRequestType::Friends,
        16 => LevelRequestType::HallOfFame,
        _ => LevelRequestType::Unknown(value),
    }
}

/// The value the servers use for a request kind.
pub open spec fn request_type_value(t: LevelRequestType) -> i32 {
    match t {
        LevelRequestType::Search => 0,
        LevelRequestType::MostDownloaded => 1,
        LevelRequestType::MostLiked => 2,
        LevelRequestType::Trending => 3,
        LevelRequestType::Recent => 4,
        LevelRequestType::User => 5,
        LevelRequestType::Featured => 6,
        LevelRequestType::Magic => 7,
        LevelRequestType::MapPack => 10,
        LevelRequestType::Awarded => 11,
        LevelRequestType::Followed => 12,
        LevelRequestType::Friends => 13,
        LevelRequestType::HallOfFame => 16,
        LevelRequestType::Unknown(value) => value,
    }
}

/// The kinds of level searches by the values the servers use for them: search `0`, most
/// downloaded `1`, most liked `2`, trending `3`, recent `4`, by user `5`, featured `6`, magic `7`,
/// map packs `10`, awarded `11`, followed `12`, friends `13` and hall of fame `16`; any other
/// value is an unknown kind holding it.
#[verifier::rlimit(30)]
pub proof fn lemma_request_type_values(value: i32)
    ensures
        request_type_value(LevelRequestType::Search) == 0,
        request_type_of(value) == LevelRequestType::Search <==> value == 0,
        request_type_value(LevelRequestType::MostDownloaded) == 1,
        request_type_of(value) == LevelRequestType::MostDownloaded <==> value == 1,
        request_type_value(LevelRequestType::MostLiked) == 2,
        request_type_of(value) == LevelRequestType::MostLiked <==> value == 2,
        request_type_value(LevelRequestType::Trending) == 3,
        request_type_of(value) == LevelRequestType::Trending <==> value == 3,
        request_type_value(LevelRequestType::Recent) == 4,
        request_type_of(value) == LevelRequestType::Recent <==> value == 4,
        request_type_value(LevelRequestType::User) == 5,
        request_type_of(value) == LevelRequestType::User <==> value == 5,
        request_type_value(LevelRequestType::Featured) == 6,
        request_type_of(value) == LevelRequestType::Featured <==> value == 6,
        request_type_value(LevelRequestType::Magic) == 7,
        request_type_of(value) == LevelRequestType::Magic <==> value == 7,
        request_type_value(LevelRequestType::MapPack) == 10,
        request_type_of(value) == LevelRequestType::MapPack <==> value == 10,
        request_type_value(LevelRequestType::Awarded) == 11,
        request_type_of(value) == LevelRequestType::Awarded <==> value == 11,
        request_type_value(LevelRequestType::Followed) == 12,
        request_type_of(value) == LevelRequestType::Followed <==> value == 12,
        request_type_value(LevelRequestType::Friends) == 13,
        request_type_of(value) == LevelRequestType::Friends <==> value == 13,
        request_type_value(LevelRequestType::HallOfFame) == 16,
        request_type_of(value) == LevelRequestType::HallOfFame <==> value == 16,
        request_type_value(LevelRequestType::Unknown(value)) == value,
{
}

impl LevelRequestType {
    /// The request kind the servers mean by `value`.
    pub fn from_value(value: i32) -> (res: LevelRequestType)
        ensures
            res == request_type_of(value),
    {
        match value {
            0 => LevelRequestType::Search,
            1 => LevelRequestType::MostDownloaded,
            2 => LevelRequestType::MostLiked,
            3 => LevelRequestType::Trending,
            4 => LevelRequestType::Recent,
            5 => LevelRequestType::User,
            6 => LevelRequestType::Featured,
            7 => LevelRequestType::Magic,
            10 => LevelRequestType::MapPack,
            11 => LevelRequestType::Awarded,
            12 => LevelRequestType::Followed,
            13 => LevelRequestType::Friends,
            16 => LevelRequestType::HallOfFame,
            _ => LevelRequestType::Unknown(value),
        }
    }

    /// The value the servers use for this request kind.
    pub fn value(self) -> (res: i32)
        ensures
            res == request_type_value(self),
    {
        match self {
            LevelRequestType::Search => 0,
            LevelRequestType::MostDownloaded => 1,
            LevelRequestType::MostLiked => 2,
            LevelRequestType::Trending => 3,
            LevelRequestType::Recent => 4,
            LevelRequestType::User => 5,
            LevelRequestType::Featured => 6,
            LevelRequestType::Magic => 7,
            LevelRequestType::MapPack => 10,
            LevelRequestType::Awarded => 11,
            LevelRequestType::Followed => 12,
            LevelRequestType::Friends => 13,
            LevelRequestType::HallOfFame => 16,
            LevelRequestType::Unknown(value) => value,
        }
    }
}

impl From<i32> for LevelRequestType {
    fn from(value: i32) -> (res: LevelRequestType) {
        LevelRequestType::from_value(value)
    }
}

impl FromSpecImpl<i32> for LevelRequestType {
    open spec fn obeys_from_spec() -> bool {
        true
    }

    open spec fn from_spec(v: i32) -> LevelRequestType {
        request_type_of(v)
    }
}

impl From<LevelRequestType> for i32 {
    fn from(t: LevelRequestType) -> (res: i32) {
        t.value()
    }
}

impl FromSpecImpl<LevelRequestType> for i32 {
    open spec fn obeys_from_spec() -> bool {
        true
    }

    open spec fn from_spec(v: LevelRequestType) -> i32 {
        request_type_value(v)
    }
}

impl Default for LevelRequestType {
    fn default() -> (res: LevelRequestType)
        ensures
            res == LevelRequestType::Search,
    {
        LevelRequestType::Search
    }
}

/// Every request kind value is written back as itself.
pub proof fn lemma_request_type_roundtrip(value: i32)
    ensures
        request_type_value(request_type_of(value)) == value,
{
}

/// The value a length filter is written as.
pub open spec fn length_filter_value(length: LevelLength) -> i32 {
    match length {
        LevelLength::Unknown(unknown) => unknown,
        LevelLength::Tiny => 0,
        LevelLength::Short => 1,
        LevelLength::Medium => 2,
        LevelLength::Long => 3,
        LevelLength::ExtraLong => 4,
        LevelLength::Platformer => 5,
    }
}

/// The value a rating filter is written as; any demon rating is written as `-2`, which searches
/// for demons of every difficulty.
pub open spec fn rating_filter_value(rating: LevelRating) -> i32 {
    match rating {
        LevelRating::Unknown(value) => value,
        LevelRating::NotAvailable => -1i32,
        LevelRating::Auto => -3i32,
        LevelRating::Easy => 1,
        LevelRating::Normal => 2,
        LevelRating::Hard => 3,
        LevelRating::Harder => 4,
        LevelRating::Insane => 5,
        LevelRating::Demon(_) => -2i32,
    }
}

/// The values filters are written as. Ratings: not available `-1`, auto `-3`, easy `1`, normal
/// `2`, hard `3`, harder `4`, insane `5`, any demon `-2`. Demon ratings: easy `1` to extreme `5`.
/// Lengths: tiny `0` to extra long `4`, platformer `5`. An unknown value is written as itself.
pub proof fn lemma_rating_filter_values(d: DemonRating, v: i32)
    ensures
        rating_filter_value(LevelRating::NotAvailable) == -1,
        rating_filter_value(LevelRating::Auto) == -3,
        rating_filter_value(LevelRating::Easy) == 1,
        rating_filter_value(LevelRating::Normal) == 2,
        rating_filter_value(LevelRating::Hard) == 3,
        rating_filter_value(LevelRating::Harder) == 4,
        rating_filter_value(LevelRating::Insane) == 5,
        rating_filter_value(LevelRating::Demon(d)) == -2,
        rating_filter_value(LevelRating::Unknown(v)) == v,
        demon_filter_value(DemonRating::Easy) == 1,
        demon_filter_value(DemonRating::Medium) == 2,
        demon_filter_value(DemonRating::Hard) == 3,
        demon_filter_value(DemonRating::Insane) == 4,
        demon_filter_value(DemonRating::Extreme) == 5,
        demon_filter_value(DemonRating::Unknown(v)) == v,
        length_filter_value(LevelLength::Tiny) == 0,
        length_filter_value(LevelLength::Short) == 1,
        length_filter_value(LevelLength::Medium) == 2,
        length_filter_value(LevelLength::Long) == 3,
        length_filter_value(LevelLength::ExtraLong) == 4,
        length_filter_value(LevelLength::Platformer) == 5,
        length_filter_value(LevelLength::Unknown(v)) == v,
{
}

/// The value a demon rating filter is written as.
pub open spec fn demon_filter_value(rating: DemonRating) -> i32 {
    match rating {
        DemonRating::Unknown(value) => value,
        DemonRating::Easy => 1,
        DemonRating::Medium => 2,
        DemonRating::Hard => 3,
        DemonRating::Insane => 4,
        DemonRating::Extreme => 5,
    }
}

/// The value a length filter is written as.
fn length_filter_value_exec(length: LevelLength) -> (res: i32)
    ensures
        res == length_filter_value(length),
{
    match length {
        LevelLength::Unknown(unknown) => unknown,
        LevelLength::Tiny => 0,
        LevelLength::Short => 1,
        LevelLength::Medium => 2,
        LevelLength::Long => 3,
        LevelLength::ExtraLong => 4,
        LevelLength::Platformer => 5,
    }
}

/// The value a rating filter is written as.
fn rating_filter_value_exec(rating: LevelRating) -> (res: i32)
    ensures
        res == rating_filter_value(rating),
{
    match rating {
        LevelRating::Unknown(value) => value,
        LevelRating::NotAvailable => -1,
        LevelRating::Auto => -3,
        LevelRating::Easy => 1,
        LevelRating::Normal => 2,
        LevelRating::Hard => 3,
        LevelRating::Harder => 4,
        LevelRating::Insane => 5,
        LevelRating::Demon(_) => -2,
    }
}

/// The value a demon rating filter is written as.
fn demon_filter_value_exec(rating: DemonRating) -> (res: i32)
    ensures
        res == demon_filter_value(rating),
{
    match rating {
        DemonRating::Unknown(value) => value,
        DemonRating::Easy => 1,
        DemonRating::Medium => 2,
        DemonRating::Hard => 3,
        DemonRating::Insane => 4,
        DemonRating::Extreme => 5,
    }
}

/// A request for a list of levels.
#[derive(Debug, Clone)]
pub struct LevelsRequest<'a> {
    /// The base of the request.
    pub base: BaseRequest<'a>,
    /// The kind of the request.
    pub request_type: LevelRequestType,
    /// The text searched for.
    pub search_string: &'a str,
    /// The lengths searched for.
    pub lengths: Vec<LevelLength>,
    /// The ratings searched for.
    pub ratings: Vec<LevelRating>,
    /// The demon rating searched for, if any.
    pub demon_rating: Option<DemonRating>,
    /// The page of results.
    pub page: u32,
    /// Unknown.
    pub total: i32,
    /// The filters of the search.
    pub search_filters: SearchFilters,
}

impl<'a> LevelsRequest<'a> {
    /// The lengths searched for.
    pub open spec fn lengths(self) -> Seq<LevelLength> {
        self.lengths@
    }

    /// The ratings searched for.
    pub open spec fn ratings(self) -> Seq<LevelRating> {
        self.ratings@
    }

    /// The demon rating searched for, if any.
    pub open spec fn demon_rating_filter(self) -> Option<DemonRating> {
        self.demon_rating
    }

    /// The pairs this request is written as.
    pub open spec fn form(self) -> Seq<(Seq<char>, Seq<char>)> {
        self.base.form() + seq![
            int_pair("type"@, request_type_value(self.request_type) as int),
            ("str"@, self.search_string@),
            ("len"@, list_text(self.lengths().map_values(|l: LevelLength| length_filter_value(l) as i128), false)),
            ("diff"@, list_text(self.ratings().map_values(|r: LevelRating| rating_filter_value(r) as i128), false)),
        ] + (match self.demon_rating_filter() {
            Some(d) => seq![int_pair("demonFilter"@, demon_filter_value(d) as int)],
            None => seq![],
        }) + seq![int_pair("page"@, self.page as int), int_pair("total"@, self.total as int)]
            + self.search_filters.form()
    }

    /// Whether this request equals `other` but for the given parts.
    pub open spec fn same_filters(self, other: LevelsRequest<'a>) -> bool {
        &&& self.lengths() == other.lengths()
        &&& self.ratings() == other.ratings()
        &&& self.demon_rating_filter() == other.demon_rating_filter()
    }

    /// A request with the given base and everything else at its default.
    pub fn with_base(base: BaseRequest<'a>) -> (res: LevelsRequest<'a>)
        ensures
            res.base == base,
            res.request_type == LevelRequestType::Search,
            res.search_string@.len() == 0,
            res.lengths().len() == 0,
            res.ratings().len() == 0,
            res.demon_rating_filter() is None,
            res.page == 0,
            res.total == 0,
    {
        proof {
            reveal_strlit("");
        }
        LevelsRequest {
            base,
            request_type: LevelRequestType::Search,
            search_string: "",
            lengths: Vec::new(),
            ratings: Vec::new(),
            demon_rating: None,
            page: 0,
            total: 0,
            search_filters: SearchFilters::default(),
        }
    }

    /// Asks for the given page.
    pub fn page(self, page: u32) -> (res: LevelsRequest<'a>)
        ensures
            res.page == page,
            res.base == self.base && res.request_type == self.request_type && res.search_string
                == self.search_string && res.total == self.total && res.search_filters
                == self.search_filters && res.same_filters(self),
    {
        let mut s = self;
        s.page = page;
        s
    }

    /// Sets the unknown `total` value.
    pub fn total(self, total: i32) -> (res: LevelsRequest<'a>)
        ensures
            res.total == total,
            res.base == self.base && res.request_type == self.request_type && res.search_string
                == self.search_string && res.page == self.page && res.search_filters
                == self.search_filters && res.same_filters(self),
    {
        let mut s = self;
        s.total = total;
        s
    }

    /// Sets the kind of the request.
    pub fn request_type(self, request_type: LevelRequestType) -> (res: LevelsRequest<'a>)
        ensures
            res.request_type == request_type,
            res.base == self.base && res.total == self.total && res.search_string
                == self.search_string && res.page == self.page && res.search_filters
                == self.search_filters && res.same_filters(self),
    {
        let mut s = self;
        s.request_type = request_type;
        s
    }

    /// Searches for the given text.
    pub fn search(self, search_string: &'a str) -> (res: LevelsRequest<'a>)
        ensures
            res.search_string == search_string,
            res.request_type == LevelRequestType::Search,
            res.base == self.base && res.total == self.total && res.page == self.page
                && res.search_filters == self.search_filters && res.same_filters(self),
    {
        let mut s = self;
        s.search_string = search_string;
        s.request_type = LevelRequestType::Search;
        s
    }

    /// Also searches for levels of the given length.
    pub fn with_length(self, length: LevelLength) -> (res: LevelsRequest<'a>)
        ensures
            res.lengths() == self.lengths().push(length),
            res.ratings() == self.ratings(),
            res.demon_rating_filter() == self.demon_rating_filter(),
            res.base == self.base && res.request_type == self.request_type && res.search_string
                == self.search_string && res.total == self.total && res.page == self.page
                && res.search_filters == self.search_filters,
    {
        let mut s = self;
        s.lengths.push(length);
        s
    }

    /// Also searches for levels of the given rating; drops a demon rating filter.
    pub fn with_rating(self, rating: LevelRating) -> (res: LevelsRequest<'a>)
        ensures
            res.ratings() == self.ratings().push(rating),
            res.demon_rating_filter() is None,
            res.lengths() == self.lengths(),
            res.base == self.base && res.request_type == self.request_type && res.search_string
                == self.search_string && res.total == self.total && res.page == self.page
                && res.search_filters == self.search_filters,
    {
        let mut s = self;
        s.demon_rating = None;
        s.ratings.push(rating);
        s
    }

    /// Searches for demons of the given rating only; drops all rating filters.
    pub fn demon_rating(self, demon_rating: DemonRating) -> (res: LevelsRequest<'a>)
        ensures
            res.ratings().len() == 0,
            res.demon_rating_filter() == Some(demon_rating),
            res.lengths() == self.lengths(),
            res.base == self.base && res.request_type == self.request_type && res.search_string
                == self.search_string && res.total == self.total && res.page == self.page
                && res.search_filters == self.search_filters,
    {
        let mut s = self;
        s.ratings.clear();
        s.demon_rating = Some(demon_rating);
        s
    }

    /// Uses the given search filters.
    pub fn search_filters(self, filters: SearchFilters) -> (res: LevelsRequest<'a>)
        ensures
            res.search_filters == filters,
            res.base == self.base && res.request_type == self.request_type && res.search_string
                == self.search_string && res.total == self.total && res.page == self.page
                && res.same_filters(self),
    {
        let mut s = self;
        s.search_filters = filters;
        s
    }

    /// Writes this request.
    pub fn serialize(&self, serializer: &mut RequestSerializer) -> (res: Result<(), Error>)
        ensures
            res is Ok,
            final(serializer).output() == emit(
                old(serializer).output(),
                old(serializer).at_start(),
                pair_tokens(self.form()),
                seq!['&'],
            ),
    {
        let mut pairs: Vec<(String, String)> = Vec::new();
        self.base.push_pairs(&mut pairs);
        push_int_pair(&mut pairs, "type", self.request_type.value() as i128);
        push_str_pair(&mut pairs, "str", self.search_string);
        let mut lens: Vec<i128> = Vec::new();
        let mut i: usize = 0;
        while i < self.lengths.len()
            invariant
                i <= self.lengths@.len(),
                lens@ == self.lengths@.map_values(|l: LevelLength| length_filter_value(l) as i128).take(i as int),
            decreases self.lengths@.len() - i,
        {
            lens.push(length_filter_value_exec(self.lengths[i]) as i128);
            assert(lens@ =~= self.lengths@.map_values(|l: LevelLength| length_filter_value(l) as i128).take(i + 1));
            i = i + 1;
        }
        assert(lens@ =~= self.lengths@.map_values(|l: LevelLength| length_filter_value(l) as i128));
        push_list_pair(&mut pairs, "len", &lens, false);
        let mut diffs: Vec<i128> = Vec::new();
        let mut j: usize = 0;
        while j < self.ratings.len()
            invariant
                j <= self.ratings@.len(),
                diffs@ == self.ratings@.map_values(|r: LevelRating| rating_filter_value(r) as i128).take(j as int),
            decreases self.ratings@.len() - j,
        {
            diffs.push(rating_filter_value_exec(self.ratings[j]) as i128);
            assert(diffs@ =~= self.ratings@.map_values(|r: LevelRating| rating_filter_value(r) as i128).take(j + 1));
            j = j + 1;
        }
        assert(diffs@ =~= self.ratings@.map_values(|r: LevelRating| rating_filter_value(r) as i128));
        push_list_pair(&mut pairs, "diff", &diffs, false);
        if let Some(d) = self.demon_rating {
            push_int_pair(&mut pairs, "demonFilter", demon_filter_value_exec(d) as i128);
        }
        push_int_pair(&mut pairs, "page", self.page as i128);
        push_int_pair(&mut pairs, "total", self.total as i128);
        self.search_filters.push_pairs(&mut pairs);
        assert(pairs_view(pairs@) =~= self.form());
        serializer.serialize_pairs(&pairs)
    }
}

impl Default for LevelsRequest<'static> {
    fn default() -> (res: LevelsRequest<'static>)
        ensures
            res.base == gd_21_spec(),
            res.request_type == LevelRequestType::Search,
            res.search_string@.len() == 0,
            res.lengths().len() == 0,
            res.ratings().len() == 0,
            res.demon_rating_filter() is None,
            res.page == 0,
            res.total == 0,
    {
        LevelsRequest::with_base(gd_21())
    }
}

} // verus!
