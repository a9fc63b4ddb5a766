//! Users and the parts of their appearance that the servers describe by index.

use vstd::prelude::*;
use vstd::std_specs::convert::FromSpecImpl;
use crate::serde::thunk::{ProcessError, ThunkProcessor};

pub mod profile;
pub mod searched;


use crate::serde::{all_free_before, lemma_all_free_separable, lemma_digits_free_before, InternalProxy};
use crate::split::{free_before, join, lemma_split_join, split, split_exec, views};
use crate::text::{
    chars_of, decimal, format_i128, lemma_decimal, lemma_parse_signed_decimal, parse_int, parse_int_exec,
};

verus! {

/// The moderator status of a user.
#[derive(Debug, PartialEq, Eq, Hash, Copy, Clone)]
pub enum ModLevel {
    /// Not a moderator.
    NotMod,
    /// A normal moderator.
    Normal,
    /// An elder moderator.
    Elder,
    /// A level this library does not know about.
    Unknown(u8),
}

/// The moderator status the servers mean by the index `i`.
pub open spec fn mod_level_of(i: u8) -> ModLevel {
    match i {
        0 => ModLevel::NotMod,
        1 => ModLevel::Normal,
        2 => ModLevel::Elder,
        _ => ModLevel::Unknown(i),
    }
}

/// The index the servers use for a moderator status.
pub open spec fn mod_level_index(level: ModLevel) -> u8 {
    match level {
        ModLevel::NotMod => 0,
        ModLevel::Normal => 1,
        ModLevel::Elder => 2,
        ModLevel::Unknown(i) => i,
    }
}

impl ModLevel {
    /// Whether this value is the one its index is read as (an `Unknown` index is one that has no
    /// name).
    pub open spec fn is_canonical(self) -> bool {
        mod_level_of(mod_level_index(self)) == self
    }
}

impl ModLevel {
    /// The value the servers mean by the index.
    pub fn from_index(i: u8) -> (res: ModLevel)
        ensures
            res == mod_level_of(i),
    {
        match i {
            0 => ModLevel::NotMod,
            1 => ModLevel::Normal,
            2 => ModLevel::Elder,
            i => ModLevel::Unknown(i),
        }
    }
}

impl From<u8> for ModLevel {
    fn from(i: u8) -> (res: ModLevel) {
        ModLevel::from_index(i)
    }
}

impl FromSpecImpl<u8> for ModLevel {
    open spec fn obeys_from_spec() -> bool {
        true
    }

    open spec fn from_spec(v: u8) -> ModLevel {
        mod_level_of(v)
    }
}

impl ModLevel {
    /// The index the servers use for the value.
    pub fn index(self) -> (res: u8)
        ensures
            res == mod_level_index(self),
    {
        let level = self;
        match level {
            ModLevel::NotMod => 0,
            ModLevel::Normal => 1,
            ModLevel::Elder => 2,
            ModLevel::Unknown(inner) => inner,
        }
    }
}

impl From<ModLevel> for u8 {
    fn from(level: ModLevel) -> (res: u8) {
        level.index()
    }
}

impl FromSpecImpl<ModLevel> for u8 {
    open spec fn obeys_from_spec() -> bool {
        true
    }

    open spec fn from_spec(v: ModLevel) -> u8 {
        mod_level_index(v)
    }
}

/// Reading an index as a moderator status and writing it back gives the same index; a canonical
/// status read back from its index is itself.
pub proof fn lemma_mod_level_roundtrip(i: u8, level: ModLevel)
    ensures
        mod_level_index(mod_level_of(i)) == i,
        level.is_canonical() <==> !(level matches ModLevel::Unknown(k) && k <= 2),
{
}

/// The game mode an icon belongs to.
#[derive(Debug, Clone, Copy, PartialEq, Eq)]
pub enum IconType {
    Cube,
    Ship,
    Ball,
    Ufo,
    Wave,
    Robot,
    Spider,
    /// A mode this library does not know about.
    Unknown(u8),
}

/// The icon type the servers mean by the index `i`.
pub open spec fn icon_type_of(i: u8) -> IconType {
    match i {
        0 => IconType::Cube,
        1 => IconType::Ship,
        2 => IconType::Ball,
        3 => IconType::Ufo,
        4 => IconType::Wave,
        5 => IconType::Robot,
        6 => IconType::Spider,
        _ => IconType::Unknown(i),
    }
}

/// The index the servers use for an icon type.
pub open spec fn icon_type_index(t: IconType) -> u8 {
    match t {
        IconType::Cube => 0,
        IconType::Ship => 1,
        IconType::Ball => 2,
        IconType::Ufo => 3,
        IconType::Wave => 4,
        IconType::Robot => 5,
        IconType::Spider => 6,
        IconType::Unknown(i) => i,
    }
}

impl IconType {
    /// Whether this value is the one its index is read as.
    pub open spec fn is_canonical(self) -> bool {
        icon_type_of(icon_type_index(self)) == self
    }
}

impl IconType {
    /// The value the servers mean by the index.
    pub fn from_index(i: u8) -> (res: IconType)
        ensures
            res == icon_type_of(i),
    {
        match i {
            0 => IconType::Cube,
            1 => IconType::Ship,
            2 => IconType::Ball,
            3 => IconType::Ufo,
            4 => IconType::Wave,
            5 => IconType::Robot,
            6 => IconType::Spider,
            i => IconType::Unknown(i),
        }
    }
}

impl From<u8> for IconType {
    fn from(i: u8) -> (res: IconType) {
        IconType::from_index(i)
    }
}

impl FromSpecImpl<u8> for IconType {
    open spec fn obeys_from_spec() -> bool {
        true
    }

    open spec fn from_spec(v: u8) -> IconType {
        icon_type_of(v)
    }
}

impl IconType {
    /// The index the servers use for the value.
    pub fn index(self) -> (res: u8)
        ensures
            res == icon_type_index(self),
    {
        let mode = self;
        match mode {
            IconType::Cube => 0,
            IconType::Ship => 1,
            IconType::Ball => 2,
            IconType::Ufo => 3,
            IconType::Wave => 4,
            IconType::Robot => 5,
            IconType::Spider => 6,
            IconType::Unknown(idx) => idx,
        }
    }
}

impl From<IconType> for u8 {
    fn from(mode: IconType) -> (res: u8) {
        mode.index()
    }
}

impl FromSpecImpl<IconType> for u8 {
    open spec fn obeys_from_spec() -> bool {
        true
    }

    open spec fn from_spec(v: IconType) -> u8 {
        icon_type_index(v)
    }
}

/// The palette: each index the servers use for a color and the color it stands for, and back;
/// every index outside the palette is an unknown color holding it.
#[verifier::rlimit(50)]
pub proof fn lemma_color_palette(i: u8)
    ensures
        color_of(0) == Color::Known(125, 255, 0),
        color_of(1) == Color::Known(0, 255, 0),
        color_of(2) == Color::Known(0, 255, 125),
        color_of(3) == Color::Known(0, 255, 255),
        color_of(16) == Color::Known(0, 200, 255),
        color_of(4) == Color::Known(0, 125, 255),
        color_of(5) == Color::Known(0, 0, 255),
        color_of(6) == Color::Known(125, 0, 255),
        color_of(13) == Color::Known(185, 0, 255),
        color_of(7) == Color::Known(255, 0, 255),
        color_of(8) == Color::Known(255, 0, 125),
        color_of(9) == Color::Known(255, 0, 0),
        color_of(29) == Color::Known(255, 75, 0),
        color_of(10) == Color::Known(255, 125, 0),
        color_of(14) == Color::Known(255, 185, 0),
        color_of(11) == Color::Known(255, 255, 0),
        color_of(12) == Color::Known(255, 255, 255),
        color_of(17) == Color::Known(175, 175, 175),
        color_of(18) == Color::Known(80, 80, 80),
        color_of(15) == Color::Known(0, 0, 0),
        color_of(27) == Color::Known(125, 125, 0),
        color_of(32) == Color::Known(100, 150, 0),
        color_of(28) == Color::Known(75, 175, 0),
        color_of(38) == Color::Known(0, 150, 0),
        color_of(20) == Color::Known(0, 175, 75),
        color_of(33) == Color::Known(0, 150, 100),
        color_of(21) == Color::Known(0, 125, 125),
        color_of(34) == Color::Known(0, 100, 150),
        color_of(22) == Color::Known(0, 75, 175),
        color_of(39) == Color::Known(0, 0, 150),
        color_of(23) == Color::Known(75, 0, 175),
        color_of(35) == Color::Known(100, 0, 150),
        color_of(24) == Color::Known(125, 0, 125),
        color_of(36) == Color::Known(150, 0, 100),
        color_of(25) == Color::Known(175, 0, 75),
        color_of(37) == Color::Known(150, 0, 0),
        color_of(30) == Color::Known(150, 50, 0),
        color_of(26) == Color::Known(175, 75, 0),
        color_of(31) == Color::Known(150, 100, 0),
        color_of(19) == Color::Known(255, 255, 125),
        color_of(40) == Color::Known(125, 255, 175),
        color_of(41) == Color::Known(125, 125, 255),
        color_index(Color::Known(125, 255, 0)) == 0,
        color_index(Color::Known(0, 255, 0)) == 1,
        color_index(Color::Known(0, 255, 125)) == 2,
        color_index(Color::Known(0, 255, 255)) == 3,
        color_index(Color::Known(0, 200, 255)) == 16,
        color_index(Color::Known(0, 125, 255)) == 4,
        color_index(Color::Known(0, 0, 255)) == 5,
        color_index(Color::Known(125, 0, 255)) == 6,
        color_index(Color::Known(185, 0, 255)) == 13,
        color_index(Color::Known(255, 0, 255)) == 7,
        color_index(Color::Known(255, 0, 125)) == 8,
        color_index(Color::Known(255, 0, 0)) == 9,
        color_index(Color::Known(255, 75, 0)) == 29,
        color_index(Color::Known(255, 125, 0)) == 10,
        color_index(Color::Known(255, 185, 0)) == 14,
        color_index(Color::Known(255, 255, 0)) == 11,
        color_index(Color::Known(255, 255, 255)) == 12,
        color_index(Color::Known(175, 175, 175)) == 17,
        color_index(Color::Known(80, 80, 80)) == 18,
        color_index(Color::Known(0, 0, 0)) == 15,
        color_index(Color::Known(125, 125, 0)) == 27,
        color_index(Color::Known(100, 150, 0)) == 32,
        color_index(Color::Known(75, 175, 0)) == 28,
        color_index(Color::Known(0, 150, 0)) == 38,
        color_index(Color::Known(0, 175, 75)) == 20,
        color_index(Color::Known(0, 150, 100)) == 33,
        color_index(Color::Known(0, 125, 125)) == 21,
        color_index(Color::Known(0, 100, 150)) == 34,
        color_index(Color::Known(0, 75, 175)) == 22,
        color_index(Color::Known(0, 0, 150)) == 39,
        color_index(Color::Known(75, 0, 175)) == 23,
        color_index(Color::Known(100, 0, 150)) == 35,
        color_index(Color::Known(125, 0, 125)) == 24,
        color_index(Color::Known(150, 0, 100)) == 36,
        color_index(Color::Known(175, 0, 75)) == 25,
        color_index(Color::Known(150, 0, 0)) == 37,
        color_index(Color::Known(150, 50, 0)) == 30,
        color_index(Color::Known(175, 75, 0)) == 26,
        color_index(Color::Known(150, 100, 0)) == 31,
        color_index(Color::Known(255, 255, 125)) == 19,
        color_index(Color::Known(125, 255, 175)) == 40,
        color_index(Color::Known(125, 125, 255)) == 41,
        i > 41 ==> color_of(i) == Color::Unknown(i),
{
}

/// The moderator statuses by their indices: `0` none, `1` moderator and `2` elder moderator;
/// any other index is an unknown status holding it.
pub proof fn lemma_mod_level_indices(i: u8)
    ensures
        mod_level_of(i) == ModLevel::NotMod <==> i == 0,
        mod_level_of(i) == ModLevel::Normal <==> i == 1,
        mod_level_of(i) == ModLevel::Elder <==> i == 2,
        i > 2 ==> mod_level_of(i) == ModLevel::Unknown(i),
        mod_level_index(ModLevel::NotMod) == 0,
        mod_level_index(ModLevel::Normal) == 1,
        mod_level_index(ModLevel::Elder) == 2,
{
}

/// The icon types the servers mean by their indices: `0` a cube, `1` a ship, `2` a ball, `3` a
/// UFO, `4` a wave, `5` a robot and `6` a spider; any other index is an unknown icon type holding
/// it. Each named icon type is written as its index.
pub proof fn lemma_icon_type_indices(i: u8)
    ensures
        icon_type_of(i) == IconType::Cube <==> i == 0,
        icon_type_of(i) == IconType::Ship <==> i == 1,
        icon_type_of(i) == IconType::Ball <==> i == 2,
        icon_type_of(i) == IconType::Ufo <==> i == 3,
        icon_type_of(i) == IconType::Wave <==> i == 4,
        icon_type_of(i) == IconType::Robot <==> i == 5,
        icon_type_of(i) == IconType::Spider <==> i == 6,
        i > 6 ==> icon_type_of(i) == IconType::Unknown(i),
        icon_type_index(IconType::Cube) == 0,
        icon_type_index(IconType::Ship) == 1,
        icon_type_index(IconType::Ball) == 2,
        icon_type_index(IconType::Ufo) == 3,
        icon_type_index(IconType::Wave) == 4,
        icon_type_index(IconType::Robot) == 5,
        icon_type_index(IconType::Spider) == 6,
{
}

/// Reading an index as an icon type and writing it back gives the same index; a canonical icon
/// type is one whose `Unknown` index has no name.
pub proof fn lemma_icon_type_roundtrip(i: u8, t: IconType)
    ensures
        icon_type_index(icon_type_of(i)) == i,
        t.is_canonical() <==> !(t matches IconType::Unknown(k) && k <= 6),
{
}

/// An in-game icon color.
#[derive(Debug, PartialEq, Eq, Hash, Copy, Clone)]
pub enum Color {
    /// A color of the in-game palette, as red, green and blue components.
    Known(u8, u8, u8),
    /// A palette index this library does not know about.
    Unknown(u8),
}

/// The color at index `idx` of the in-game palette.
pub open spec fn color_of(idx: u8) -> Color {
    match idx {
        0 => Color::Known(125, 255, 0),
        1 => Color::Known(0, 255, 0),
        2 => Color::Known(0, 255, 125),
        3 => Color::Known(0, 255, 255),
        16 => Color::Known(0, 200, 255),
        4 => Color::Known(0, 125, 255),
        5 => Color::Known(0, 0, 255),
        6 => Color::Known(125, 0, 255),
        13 => Color::Known(185, 0, 255),
        7 => Color::Known(255, 0, 255),
        8 => Color::Known(255, 0, 125),
        9 => Color::Known(255, 0, 0),
        29 => Color::Known(255, 75, 0),
        10 => Color::Known(255, 125, 0),
        14 => Color::Known(255, 185, 0),
        11 => Color::Known(255, 255, 0),
        12 => Color::Known(255, 255, 255),
        17 => Color::Known(175, 175, 175),
        18 => Color::Known(80, 80, 80),
        15 => Color::Known(0, 0, 0),
        27 => Color::Known(125, 125, 0),
        32 => Color::Known(100, 150, 0),
        28 => Color::Known(75, 175, 0),
        38 => Color::Known(0, 150, 0),
        20 => Color::Known(0, 175, 75),
        33 => Color::Known(0, 150, 100),
        21 => Color::Known(0, 125, 125),
        34 => Color::Known(0, 100, 150),
        22 => Color::Known(0, 75, 175),
        39 => Color::Known(0, 0, 150),
        23 => Color::Known(75, 0, 175),
        35 => Color::Known(100, 0, 150),
        24 => Color::Known(125, 0, 125),
        36 => Color::Known(150, 0, 100),
        25 => Color::Known(175, 0, 75),
        37 => Color::Known(150, 0, 0),
        30 => Color::Known(150, 50, 0),
        26 => Color::Known(175, 75, 0),
        31 => Color::Known(150, 100, 0),
        19 => Color::Known(255, 255, 125),
        40 => Color::Known(125, 255, 175),
        41 => Color::Known(125, 125, 255),
        _ => Color::Unknown(idx),
    }
}

/// The palette index of a color; colors outside the palette get index 0, the default color.
pub open spec fn color_index(color: Color) -> u8 {
    match color {
        Color::Known(125, 255, 0) => 0,
        Color::Known(0, 255, 0) => 1,
        Color::Known(0, 255, 125) => 2,
        Color::Known(0, 255, 255) => 3,
        Color::Known(0, 200, 255) => 16,
        Color::Known(0, 125, 255) => 4,
        Color::Known(0, 0, 255) => 5,
        Color::Known(125, 0, 255) => 6,
        Color::Known(185, 0, 255) => 13,
        Color::Known(255, 0, 255) => 7,
        Color::Known(255, 0, 125) => 8,
        Color::Known(255, 0, 0) => 9,
        Color::Known(255, 75, 0) => 29,
        Color::Known(255, 125, 0) => 10,
        Color::Known(255, 185, 0) => 14,
        Color::Known(255, 255, 0) => 11,
        Color::Known(255, 255, 255) => 12,
        Color::Known(175, 175, 175) => 17,
        Color::Known(80, 80, 80) => 18,
        Color::Known(0, 0, 0) => 15,
        Color::Known(125, 125, 0) => 27,
        Color::Known(100, 150, 0) => 32,
        Color::Known(75, 175, 0) => 28,
        Color::Known(0, 150, 0) => 38,
        Color::Known(0, 175, 75) => 20,
        Color::Known(0, 150, 100) => 33,
        Color::Known(0, 125, 125) => 21,
        Color::Known(0, 100, 150) => 34,
        Color::Known(0, 75, 175) => 22,
        Color::Known(0, 0, 150) => 39,
        Color::Known(75, 0, 175) => 23,
        Color::Known(100, 0, 150) => 35,
        Color::Known(125, 0, 125) => 24,
        Color::Known(150, 0, 100) => 36,
        Color::Known(175, 0, 75) => 25,
        Color::Known(150, 0, 0) => 37,
        Color::Known(150, 50, 0) => 30,
        Color::Known(175, 75, 0) => 26,
        Color::Known(150, 100, 0) => 31,
        Color::Known(255, 255, 125) => 19,
        Color::Known(125, 255, 175) => 40,
        Color::Known(125, 125, 255) => 41,
        Color::Unknown(idx) => idx,
        _ => 0,
    }
}

impl Color {
    /// Whether this color is the one its index is read as: a palette color, or an unknown index.
    pub open spec fn is_canonical(self) -> bool {
        color_of(color_index(self)) == self
    }
}

impl Color {
    /// The value the servers mean by the index.
    pub fn from_index(idx: u8) -> (res: Color)
        ensures
            res == color_of(idx),
    {
        match idx {
            0 => Color::Known(125, 255, 0),
            1 => Color::Known(0, 255, 0),
            2 => Color::Known(0, 255, 125),
            3 => Color::Known(0, 255, 255),
            16 => Color::Known(0, 200, 255),
            4 => Color::Known(0, 125, 255),
            5 => Color::Known(0, 0, 255),
            6 => Color::Known(125, 0, 255),
            13 => Color::Known(185, 0, 255),
            7 => Color::Known(255, 0, 255),
            8 => Color::Known(255, 0, 125),
            9 => Color::Known(255, 0, 0),
            29 => Color::Known(255, 75, 0),
            10 => Color::Known(255, 125, 0),
            14 => Color::Known(255, 185, 0),
            11 => Color::Known(255, 255, 0),
            12 => Color::Known(255, 255, 255),
            17 => Color::Known(175, 175, 175),
            18 => Color::Known(80, 80, 80),
            15 => Color::Known(0, 0, 0),
            27 => Color::Known(125, 125, 0),
            32 => Color::Known(100, 150, 0),
            28 => Color::Known(75, 175, 0),
            38 => Color::Known(0, 150, 0),
            20 => Color::Known(0, 175, 75),
            33 => Color::Known(0, 150, 100),
            21 => Color::Known(0, 125, 125),
            34 => Color::Known(0, 100, 150),
            22 => Color::Known(0, 75, 175),
            39 => Color::Known(0, 0, 150),
            23 => Color::Known(75, 0, 175),
            35 => Color::Known(100, 0, 150),
            24 => Color::Known(125, 0, 125),
            36 => Color::Known(150, 0, 100),
            25 => Color::Known(175, 0, 75),
            37 => Color::Known(150, 0, 0),
            30 => Color::Known(150, 50, 0),
            26 => Color::Known(175, 75, 0),
            31 => Color::Known(150, 100, 0),
            19 => Color::Known(255, 255, 125),
            40 => Color::Known(125, 255, 175),
            41 => Color::Known(125, 125, 255),
            idx => Color::Unknown(idx),
        }
    }
}

impl From<u8> for Color {
    fn from(idx: u8) -> (res: Color) {
        Color::from_index(idx)
    }
}

impl FromSpecImpl<u8> for Color {
    open spec fn obeys_from_spec() -> bool {
        true
    }

    open spec fn from_spec(v: u8) -> Color {
        color_of(v)
    }
}

impl Color {
    /// The index the servers use for the value.
    pub fn index(self) -> (res: u8)
        ensures
            res == color_index(self),
    {
        let color = self;
        match color {
            Color::Known(125, 255, 0) => 0,
            Color::Known(0, 255, 0) => 1,
            Color::Known(0, 255, 125) => 2,
            Color::Known(0, 255, 255) => 3,
            Color::Known(0, 200, 255) => 16,
            Color::Known(0, 125, 255) => 4,
            Color::Known(0, 0, 255) => 5,
            Color::Known(125, 0, 255) => 6,
            Color::Known(185, 0, 255) => 13,
            Color::Known(255, 0, 255) => 7,
            Color::Known(255, 0, 125) => 8,
            Color::Known(255, 0, 0) => 9,
            Color::Known(255, 75, 0) => 29,
            Color::Known(255, 125, 0) => 10,
            Color::Known(255, 185, 0) => 14,
            Color::Known(255, 255, 0) => 11,
            Color::Known(255, 255, 255) => 12,
            Color::Known(175, 175, 175) => 17,
            Color::Known(80, 80, 80) => 18,
            Color::Known(0, 0, 0) => 15,
            Color::Known(125, 125, 0) => 27,
            Color::Known(100, 150, 0) => 32,
            Color::Known(75, 175, 0) => 28,
            Color::Known(0, 150, 0) => 38,
            Color::Known(0, 175, 75) => 20,
            Color::Known(0, 150, 100) => 33,
            Color::Known(0, 125, 125) => 21,
            Color::Known(0, 100, 150) => 34,
            Color::Known(0, 75, 175) => 22,
            Color::Known(0, 0, 150) => 39,
            Color::Known(75, 0, 175) => 23,
            Color::Known(100, 0, 150) => 35,
            Color::Known(125, 0, 125) => 24,
            Color::Known(150, 0, 100) => 36,
            Color::Known(175, 0, 75) => 25,
            Color::Known(150, 0, 0) => 37,
            Color::Known(150, 50, 0) => 30,
            Color::Known(175, 75, 0) => 26,
            Color::Known(150, 100, 0) => 31,
            Color::Known(255, 255, 125) => 19,
            Color::Known(125, 255, 175) => 40,
            Color::Known(125, 125, 255) => 41,
            Color::Unknown(idx) => idx,
            _ => 0,
        }
    }
}

impl From<Color> for u8 {
    fn from(color: Color) -> (res: u8) {
        color.index()
    }
}

impl FromSpecImpl<Color> for u8 {
    open spec fn obeys_from_spec() -> bool {
        true
    }

    open spec fn from_spec(v: Color) -> u8 {
        color_index(v)
    }
}

/// Every palette index is written back as itself: the palette holds no color twice.
pub proof fn lemma_color_index_roundtrip(idx: u8)
    ensures
        color_index(color_of(idx)) == idx,
{
}

} // verus!

verus! {

impl InternalProxy for ModLevel {
    type DeserializeProxy = u8;
    type SerializeProxy = u8;

    open spec fn spec_to_proxy(&self) -> u8 {
        mod_level_index(*self)
    }

    open spec fn spec_from_proxy(from: u8) -> ModLevel {
        mod_level_of(from)
    }

    fn to_serialize_proxy(&self) -> (res: u8) {
        self.index()
    }

    fn from_deserialize_proxy(from: u8) -> (res: ModLevel) {
        ModLevel::from_index(from)
    }
}

impl InternalProxy for IconType {
    type DeserializeProxy = u8;
    type SerializeProxy = u8;

    open spec fn spec_to_proxy(&self) -> u8 {
        icon_type_index(*self)
    }

    open spec fn spec_from_proxy(from: u8) -> IconType {
        icon_type_of(from)
    }

    fn to_serialize_proxy(&self) -> (res: u8) {
        self.index()
    }

    fn from_deserialize_proxy(from: u8) -> (res: IconType) {
        IconType::from_index(from)
    }
}

impl InternalProxy for Color {
    type DeserializeProxy = u8;
    type SerializeProxy = u8;

    open spec fn spec_to_proxy(&self) -> u8 {
        color_index(*self)
    }

    open spec fn spec_from_proxy(from: u8) -> Color {
        color_of(from)
    }

    fn to_serialize_proxy(&self) -> (res: u8) {
        self.index()
    }

    fn from_deserialize_proxy(from: u8) -> (res: Color) {
        Color::from_index(from)
    }
}

/// The text `r,g,b` a color is written as in a comment's special color.
pub open spec fn rgb_text(r: u8, g: u8, b: u8) -> Seq<char> {
    decimal(r as nat) + seq![','] + decimal(g as nat) + seq![','] + decimal(b as nat)
}

/// The color read from a comma separated `r,g,b` text.
pub open spec fn color_from_rgb_text(raw: Seq<char>) -> Option<Color> {
    let parts = split(raw, seq![',']);
    if parts.len() != 3 {
        None
    } else {
        match (parse_int(parts[0], 0, 255), parse_int(parts[1], 0, 255), parse_int(parts[2], 0, 255)) {
            (Some(r), Some(g), Some(b)) => Some(Color::Known(r as u8, g as u8, b as u8)),
            _ => None,
        }
    }
}

/// A special color is read from its text `r,g,b`: three parts separated by `,`, the red, green
/// and blue components in that order, each an integer from `0` to `255`.
pub proof fn lemma_rgb_text_components(raw: Seq<char>)
    ensures
        color_from_rgb_text(raw) matches Some(c) ==> ({
            let parts = split(raw, seq![',']);
            &&& parts.len() == 3
            &&& c matches Color::Known(r, g, b) && parse_int(parts[0], 0, 255) == Some(r as int)
                && parse_int(parts[1], 0, 255) == Some(g as int) && parse_int(parts[2], 0, 255)
                == Some(b as int)
        }),
        split(raw, seq![',']).len() == 3 && parse_int(split(raw, seq![','])[0], 0, 255) is Some
            && parse_int(split(raw, seq![','])[1], 0, 255) is Some && parse_int(
            split(raw, seq![','])[2],
            0,
            255,
        ) is Some ==> color_from_rgb_text(raw) is Some,
{
}

impl ThunkProcessor for Color {
    type Output = Color;
    type Abstract = Color;
    type Error = ProcessError;

    open spec fn output_view(processed: Color) -> Color {
        processed
    }

    open spec fn decoded(raw: Seq<char>) -> Option<Color> {
        color_from_rgb_text(raw)
    }

    open spec fn encoded(processed: Color) -> Option<Seq<char>> {
        match processed {
            Color::Known(r, g, b) => Some(rgb_text(r, g, b)),
            Color::Unknown(_) => None,
        }
    }

    open spec fn reads_back(processed: Color) -> bool {
        true
    }

    open spec fn process_error(raw: Seq<char>, e: ProcessError) -> bool {
        e == if split(raw, seq![',']).len() != 3 {
            ProcessError::IncorrectLength { expected: 3 }
        } else {
            ProcessError::IntParse
        }
    }

    open spec fn write_error(processed: Color, e: ProcessError) -> bool {
        e == ProcessError::Unrepresentable
    }

    fn from_unprocessed(unprocessed: &str) -> (res: Result<Color, ProcessError>)
        ensures
            res matches Err(e) ==> (e == (ProcessError::IncorrectLength { expected: 3 }) <==> split(
                unprocessed@,
                seq![','],
            ).len() != 3),
            res matches Err(e) ==> (e == ProcessError::IntParse <==> split(unprocessed@, seq![',']).len()
                == 3),
    {
        let chars = chars_of(unprocessed);
        let comma = vec![','];
        let parts = split_exec(chars.as_slice(), comma.as_slice());
        proof {
            assert(comma@ =~= seq![',']);
            assert(views(parts@).len() == parts@.len());
        }
        if parts.len() != 3 {
            return Err(ProcessError::IncorrectLength { expected: 3 });
        }
        assert(parts@[0]@ == split(unprocessed@, seq![','])[0]);
        assert(parts@[1]@ == split(unprocessed@, seq![','])[1]);
        assert(parts@[2]@ == split(unprocessed@, seq![','])[2]);
        let r = parse_int_exec(parts[0].as_slice(), 0, 255);
        let g = parse_int_exec(parts[1].as_slice(), 0, 255);
        let b = parse_int_exec(parts[2].as_slice(), 0, 255);
        match (r, g, b) {
            (Some(r), Some(g), Some(b)) => Ok(Color::Known(r as u8, g as u8, b as u8)),
            _ => Err(ProcessError::IntParse),
        }
    }

    fn as_unprocessed(processed: &Color) -> (res: Result<String, ProcessError>) {
        match processed {
            Color::Known(r, g, b) => {
                let mut s = format_i128(*r as i128);
                s.append(",");
                let gs = format_i128(*g as i128);
                s.append(gs.as_str());
                s.append(",");
                let bs = format_i128(*b as i128);
                s.append(bs.as_str());
                proof {
                    reveal_strlit(",");
                    lemma_color_thunk_roundtrip(*r, *g, *b);
                }
                Ok(s)
            },
            Color::Unknown(_) => Err(ProcessError::Unrepresentable),
        }
    }

    fn copy_output(processed: &Color) -> (res: Color) {
        *processed
    }
}

/// A special color written as `r,g,b` reads back as itself.
pub proof fn lemma_color_thunk_roundtrip(r: u8, g: u8, b: u8)
    ensures
        color_from_rgb_text(rgb_text(r, g, b)) == Some(Color::Known(r, g, b)),
{
    let d = seq![','];
    let parts = seq![decimal(r as nat), decimal(g as nat), decimal(b as nat)];
    lemma_decimal(r as nat);
    lemma_decimal(g as nat);
    lemma_decimal(b as nat);
    lemma_parse_signed_decimal(r as int, 0, 255);
    lemma_parse_signed_decimal(g as int, 0, 255);
    lemma_parse_signed_decimal(b as int, 0, 255);
    assert forall|i: int| 0 <= i < parts.len() implies free_before(#[trigger] parts[i], d) by {
        lemma_digits_free_before(parts[i], d);
    }
    lemma_all_free_separable(parts, d);
    lemma_split_join(parts, d);
    assert(join(parts, d) =~= rgb_text(r, g, b)) by {
        assert(parts.drop_first() =~= seq![decimal(g as nat), decimal(b as nat)]);
        assert(parts.drop_first().drop_first() =~= seq![decimal(b as nat)]);
        assert(join(parts.drop_first().drop_first(), d) == decimal(b as nat));
        assert(join(parts.drop_first(), d) == decimal(g as nat) + d + decimal(b as nat));
        assert(join(parts, d) == decimal(r as nat) + d + (decimal(g as nat) + d + decimal(b as nat)));
    }
}

} // verus!
