//! Levels as the servers describe them, and the values they are rated and described by.

use vstd::prelude::*;
use vstd::std_specs::convert::FromSpecImpl;
use crate::serde::InternalProxy;

pub mod data;
pub mod object;
pub mod objects;
pub mod password;
pub mod section;

verus! {

/// The length of a level.
#[derive(Debug, Copy, Clone, Eq, PartialEq, Hash, PartialOrd, Ord)]
pub enum LevelLength {
    /// A length this library does not know about.
    Unknown(i32),
    Tiny,
    Short,
    Medium,
    Long,
    ExtraLong,
    Platformer,
}

/// The length the servers mean by `value`.
pub open spec fn level_length_of(value: i32) -> LevelLength {
    match value {
        0 => LevelLength::Tiny,
        1 => LevelLength::Short,
        2 => LevelLength::Medium,
        3 => LevelLength::Long,
        4 => LevelLength::ExtraLong,
        5 => LevelLength::Platformer,
        _ => LevelLength::Unknown(value),
    }
}

/// The value the servers use for a length.
pub open spec fn level_length_value(length: LevelLength) -> i32 {
    match length {
        LevelLength::Unknown(v) => v,
        LevelLength::Tiny => 0,
        LevelLength::Short => 1,
        LevelLength::Medium => 2,
        LevelLength::Long => 3,
        LevelLength::ExtraLong => 4,
        LevelLength::Platformer => 5,
    }
}

impl LevelLength {
    /// Whether this length is the one its value is read as.
    pub open spec fn is_canonical(self) -> bool {
        level_length_of(level_length_value(self)) == self
    }
}

impl InternalProxy for LevelLength {
    type DeserializeProxy = i32;
    type SerializeProxy = i32;

    open spec fn spec_to_proxy(&self) -> i32 {
        level_length_value(*self)
    }

    open spec fn spec_from_proxy(from: i32) -> LevelLength {
        level_length_of(from)
    }

    fn to_serialize_proxy(&self) -> (res: i32) {
        match *self {
            LevelLength::Unknown(unknown) => unknown,
            LevelLength::Tiny => 0,
            LevelLength::Short => 1,
            LevelLength::Medium => 2,
            LevelLength::Long => 3,
            LevelLength::ExtraLong => 4,
            LevelLength::Platformer => 5,
        }
    }

    fn from_deserialize_proxy(from: i32) -> (res: LevelLength) {
        match from {
            0 => LevelLength::Tiny,
            1 => LevelLength::Short,
            2 => LevelLength::Medium,
            3 => LevelLength::Long,
            4 => LevelLength::ExtraLong,
            5 => LevelLength::Platformer,
            other => LevelLength::Unknown(other),
        }
    }
}

/// The difficulty of a level.
#[derive(Debug, Copy, Clone, Eq, PartialEq, Hash, PartialOrd, Ord)]
pub enum LevelRating {
    /// A rating this library does not know about.
    Unknown(i32),
    /// The level has no difficulty yet.
    NotAvailable,
    Auto,
    Easy,
    Normal,
    Hard,
    Harder,
    Insane,
    /// A demon of the given difficulty.
    Demon(DemonRating),
}

/// The difficulty of a demon.
#[derive(Debug, Copy, Clone, Eq, PartialEq, Hash, PartialOrd, Ord)]
pub enum DemonRating {
    /// A rating this library does not know about.
    Unknown(i32),
    Easy,
    Medium,
    Hard,
    Insane,
    Extreme,
}

/// The (non-auto, non-demon) rating the servers mean by `value`.
pub open spec fn rating_of(value: i32) -> LevelRating {
    match value {
        0 => LevelRating::NotAvailable,
        10 => LevelRating::Easy,
        20 => LevelRating::Normal,
        30 => LevelRating::Hard,
        40 => LevelRating::Harder,
        50 => LevelRating::Insane,
        _ => LevelRating::Unknown(value),
    }
}

/// The demon rating the servers mean by `value`.
pub open spec fn demon_rating_of(value: i32) -> DemonRating {
    match value {
        10 => DemonRating::Easy,
        20 => DemonRating::Medium,
        30 => DemonRating::Hard,
        40 => DemonRating::Insane,
        50 => DemonRating::Extreme,
        _ => DemonRating::Unknown(value),
    }
}

/// The value the servers use for a demon rating.
pub open spec fn demon_rating_value(rating: DemonRating) -> i32 {
    match rating {
        DemonRating::Unknown(value) => value,
        DemonRating::Easy => 10,
        DemonRating::Medium => 20,
        DemonRating::Hard => 30,
        DemonRating::Insane => 40,
        DemonRating::Extreme => 50,
    }
}

/// The value the servers use for a rating (meaningless for `Auto`, which has none).
pub open spec fn rating_value(rating: LevelRating) -> i32 {
    match rating {
        LevelRating::Unknown(value) => value,
        LevelRating::NotAvailable => 0,
        LevelRating::Easy => 10,
        LevelRating::Normal => 20,
        LevelRating::Hard => 30,
        LevelRating::Harder => 40,
        LevelRating::Insane => 50,
        LevelRating::Demon(d) => demon_rating_value(d),
        LevelRating::Auto => 0,
    }
}

/// The index the servers keep next to a demon's rating; `5` for anything but a named demon rating.
pub open spec fn demon_index(rating: LevelRating) -> u8 {
    match rating {
        LevelRating::Demon(DemonRating::Easy) => 3,
        LevelRating::Demon(DemonRating::Medium) => 4,
        LevelRating::Demon(DemonRating::Hard) => 0,
        LevelRating::Demon(DemonRating::Insane) => 5,
        LevelRating::Demon(DemonRating::Extreme) => 6,
        _ => 5,
    }
}

impl LevelRating {
    /// Whether this is a demon rating.
    pub fn is_demon(&self) -> (res: bool)
        ensures
            res == (*self is Demon),
    {
        matches!(self, LevelRating::Demon(_))
    }

    /// The (non-auto, non-demon) rating the servers mean by `value`.
    pub fn from_response_value(value: i32) -> (res: LevelRating)
        ensures
            res == rating_of(value),
    {
        match value {
            0 => LevelRating::NotAvailable,
            10 => LevelRating::Easy,
            20 => LevelRating::Normal,
            30 => LevelRating::Hard,
            40 => LevelRating::Harder,
            50 => LevelRating::Insane,
            _ => LevelRating::Unknown(value),
        }
    }

    /// The value the servers use for this rating; `Auto` has none.
    pub fn into_response_value(self) -> (res: i32)
        requires
            !(self is Auto),
        ensures
            res == rating_value(self),
    {
        match self {
            LevelRating::Unknown(value) => value,
            LevelRating::NotAvailable => 0,
            LevelRating::Easy => 10,
            LevelRating::Normal => 20,
            LevelRating::Hard => 30,
            LevelRating::Harder => 40,
            LevelRating::Insane => 50,
            LevelRating::Demon(demon_rating) => demon_rating.into_response_value(),
            LevelRating::Auto => 0,
        }
    }

    /// The index the servers keep next to a demon's rating.
    pub fn demon_index(self) -> (res: u8)
        ensures
            res == demon_index(self),
    {
        match self {
            LevelRating::Demon(DemonRating::Easy) => 3,
            LevelRating::Demon(DemonRating::Medium) => 4,
            LevelRating::Demon(DemonRating::Hard) => 0,
            LevelRating::Demon(DemonRating::Insane) => 5,
            LevelRating::Demon(DemonRating::Extreme) => 6,
            _ => 5,
        }
    }
}

impl DemonRating {
    /// The demon rating the servers mean by `value`.
    pub fn from_response_value(value: i32) -> (res: DemonRating)
        ensures
            res == demon_rating_of(value),
    {
        match value {
            10 => DemonRating::Easy,
            20 => DemonRating::Medium,
            30 => DemonRating::Hard,
            40 => DemonRating::Insane,
            50 => DemonRating::Extreme,
            _ => DemonRating::Unknown(value),
        }
    }

    /// The value the servers use for this demon rating.
    pub fn into_response_value(self) -> (res: i32)
        ensures
            res == demon_rating_value(self),
    {
        match self {
            DemonRating::Unknown(value) => value,
            DemonRating::Easy => 10,
            DemonRating::Medium => 20,
            DemonRating::Hard => 30,
            DemonRating::Insane => 40,
            DemonRating::Extreme => 50,
        }
    }
}

/// The lengths by the values the servers use for them: `0` tiny, `1` short, `2` medium, `3`
/// long, `4` extra long and `5` platformer; any other value is an unknown length holding it.
pub proof fn lemma_level_length_values(value: i32)
    ensures
        level_length_of(value) == LevelLength::Tiny <==> value == 0,
        level_length_of(value) == LevelLength::Short <==> value == 1,
        level_length_of(value) == LevelLength::Medium <==> value == 2,
        level_length_of(value) == LevelLength::Long <==> value == 3,
        level_length_of(value) == LevelLength::ExtraLong <==> value == 4,
        level_length_of(value) == LevelLength::Platformer <==> value == 5,
        !(0 <= value <= 5) ==> level_length_of(value) == LevelLength::Unknown(value),
        level_length_value(LevelLength::Tiny) == 0,
        level_length_value(LevelLength::Short) == 1,
        level_length_value(LevelLength::Medium) == 2,
        level_length_value(LevelLength::Long) == 3,
        level_length_value(LevelLength::ExtraLong) == 4,
        level_length_value(LevelLength::Platformer) == 5,
{
}

/// The featured states by their values: `-1` unfeatured, `0` not featured, and any other value
/// featured with that value as its weight.
pub proof fn lemma_featured_values(value: i32, weight: u32)
    ensures
        featured_of(value) == Featured::Unfeatured <==> value == -1,
        featured_of(value) == Featured::NotFeatured <==> value == 0,
        value > 0 ==> featured_of(value) == Featured::Featured(value as u32),
        featured_value(Featured::Unfeatured) == -1,
        featured_value(Featured::NotFeatured) == 0,
        weight <= 0x7fff_ffff ==> featured_value(Featured::Featured(weight)) == weight,
{
}

/// The index kept next to a demon's rating: `3` easy, `4` medium, `0` hard, `5` insane and `6`
/// extreme demons; `5` for every other rating.
pub proof fn lemma_demon_index_values(r: LevelRating)
    ensures
        demon_index(LevelRating::Demon(DemonRating::Easy)) == 3,
        demon_index(LevelRating::Demon(DemonRating::Medium)) == 4,
        demon_index(LevelRating::Demon(DemonRating::Hard)) == 0,
        demon_index(LevelRating::Demon(DemonRating::Insane)) == 5,
        demon_index(LevelRating::Demon(DemonRating::Extreme)) == 6,
        !(r is Demon) ==> demon_index(r) == 5,
        r matches LevelRating::Demon(DemonRating::Unknown(_)) ==> demon_index(r) == 5,
{
}

/// The ratings the servers mean by the rating value of a level that is rated, not auto and not a
/// demon: `0` not available, `10` easy, `20` normal, `30` hard, `40` harder and `50` insane; any
/// other value is an unknown rating holding it. Each named rating is written as its value.
pub proof fn lemma_rating_values(value: i32)
    ensures
        rating_of(value) == LevelRating::NotAvailable <==> value == 0,
        rating_of(value) == LevelRating::Easy <==> value == 10,
        rating_of(value) == LevelRating::Normal <==> value == 20,
        rating_of(value) == LevelRating::Hard <==> value == 30,
        rating_of(value) == LevelRating::Harder <==> value == 40,
        rating_of(value) == LevelRating::Insane <==> value == 50,
        !(value == 0 || value == 10 || value == 20 || value == 30 || value == 40 || value == 50)
            ==> rating_of(value) == LevelRating::Unknown(value),
        rating_value(LevelRating::NotAvailable) == 0,
        rating_value(LevelRating::Easy) == 10,
        rating_value(LevelRating::Normal) == 20,
        rating_value(LevelRating::Hard) == 30,
        rating_value(LevelRating::Harder) == 40,
        rating_value(LevelRating::Insane) == 50,
{
}

/// The demon ratings the servers mean by the rating value of a demon level: `10` easy, `20`
/// medium, `30` hard, `40` insane and `50` extreme; any other value is an unknown demon rating
/// holding it. Each named demon rating is written as its value.
pub proof fn lemma_demon_rating_values(value: i32)
    ensures
        demon_rating_of(value) == DemonRating::Easy <==> value == 10,
        demon_rating_of(value) == DemonRating::Medium <==> value == 20,
        demon_rating_of(value) == DemonRating::Hard <==> value == 30,
        demon_rating_of(value) == DemonRating::Insane <==> value == 40,
        demon_rating_of(value) == DemonRating::Extreme <==> value == 50,
        !(value == 10 || value == 20 || value == 30 || value == 40 || value == 50)
            ==> demon_rating_of(value) == DemonRating::Unknown(value),
        demon_rating_value(DemonRating::Easy) == 10,
        demon_rating_value(DemonRating::Medium) == 20,
        demon_rating_value(DemonRating::Hard) == 30,
        demon_rating_value(DemonRating::Insane) == 40,
        demon_rating_value(DemonRating::Extreme) == 50,
        rating_value(LevelRating::Demon(DemonRating::Insane)) == 40,
{
}

/// Every rating value is written back as itself, and a rating whose `Unknown` value has no name
/// is read back from its value as itself.
pub proof fn lemma_rating_roundtrip(value: i32, rating: LevelRating, demon: DemonRating)
    ensures
        rating_value(rating_of(value)) == value,
        demon_rating_value(demon_rating_of(value)) == value,
        !(rating is Auto) && !(rating is Demon) && rating_of(rating_value(rating)) != rating ==> (
        rating matches LevelRating::Unknown(v) && (v == 0 || v == 10 || v == 20 || v == 30 || v
            == 40 || v == 50)),
        demon_rating_of(demon_rating_value(demon)) != demon ==> (demon matches DemonRating::Unknown(
            v,
        ) && (v == 10 || v == 20 || v == 30 || v == 40 || v == 50)),
{
}

/// Every length value is written back as itself, and a length whose `Unknown` value has no name
/// is read back as itself.
pub proof fn lemma_level_length_roundtrip(value: i32, length: LevelLength)
    ensures
        level_length_value(level_length_of(value)) == value,
        !length.is_canonical() ==> (length matches LevelLength::Unknown(v) && 0 <= v <= 5),
{
}

/// Whether, and how prominently, a level is featured.
#[derive(Debug, Copy, Clone, Eq, PartialEq, Hash)]
pub enum Featured {
    /// The level has never been featured.
    NotFeatured,
    /// The level was featured, but no longer is.
    Unfeatured,
    /// The level is featured with the given weight.
    Featured(u32),
}

/// The featured state the servers mean by `value`.
pub open spec fn featured_of(value: i32) -> Featured {
    match value {
        -1 => Featured::Unfeatured,
        0 => Featured::NotFeatured,
        _ => Featured::Featured(value as u32),
    }
}

/// The value the servers use for a featured state.
pub open spec fn featured_value(featured: Featured) -> i32 {
    match featured {
        Featured::NotFeatured => 0i32,
        Featured::Unfeatured => -1i32,
        Featured::Featured(weight) => weight as i32,
    }
}

impl From<i32> for Featured {
    fn from(value: i32) -> (res: Featured) {
        match value {
            -1 => Featured::Unfeatured,
            0 => Featured::NotFeatured,
            _ => Featured::Featured(value as u32),
        }
    }
}

impl FromSpecImpl<i32> for Featured {
    open spec fn obeys_from_spec() -> bool {
        true
    }

    open spec fn from_spec(v: i32) -> Featured {
        featured_of(v)
    }
}

impl From<Featured> for i32 {
    fn from(featured: Featured) -> (res: i32) {
        match featured {
            Featured::NotFeatured => 0,
            Featured::Unfeatured => -1,
            Featured::Featured(weight) => weight as i32,
        }
    }
}

impl FromSpecImpl<Featured> for i32 {
    open spec fn obeys_from_spec() -> bool {
        true
    }

    open spec fn from_spec(v: Featured) -> i32 {
        featured_value(v)
    }
}

impl InternalProxy for Featured {
    type DeserializeProxy = i32;
    type SerializeProxy = i32;

    open spec fn spec_to_proxy(&self) -> i32 {
        featured_value(*self)
    }

    open spec fn spec_from_proxy(from: i32) -> Featured {
        featured_of(from)
    }

    fn to_serialize_proxy(&self) -> (res: i32) {
        match *self {
            Featured::NotFeatured => 0,
            Featured::Unfeatured => -1,
            Featured::Featured(weight) => weight as i32,
        }
    }

    fn from_deserialize_proxy(from: i32) -> (res: Featured) {
        match from {
            -1 => Featured::Unfeatured,
            0 => Featured::NotFeatured,
            _ => Featured::Featured(from as u32),
        }
    }
}

impl Featured {
    /// Whether this state is the one its value is read as.
    pub open spec fn is_canonical(self) -> bool {
        featured_of(featured_value(self)) == self
    }
}

/// Every featured value is written back as itself.
pub proof fn lemma_featured_roundtrip(value: i32)
    ensures
        featured_value(featured_of(value)) == value,
{
    assert((value as u32) as i32 == value) by (bit_vector);
}

} // verus!
