//! The data models of the Geometry Dash servers.
//!
//! Each model that the servers send in one of RobTop's indexed formats comes with `from_gj_str`,
//! which reads it, and `write_gj`, which writes it back. Values whose processing would need more
//! work (such as base64 encoded descriptions) are kept in [`Thunk`](crate::serde::thunk::Thunk)s
//! and processed on demand.

use vstd::prelude::*;
use vstd::std_specs::convert::FromSpecImpl;
use crate::serde::InternalProxy;
use crate::text::{decimal, format_i128};

pub mod comment;
pub mod creator;
pub mod indices;
pub mod level;
pub mod song;
pub mod user;

verus! {

/// The version of Geometry Dash a level was last updated in.
#[derive(Debug, Clone, Copy, PartialEq, Eq, Hash, PartialOrd, Ord)]
pub enum GameVersion {
    /// Any version before 1.6.
    Unknown,
    /// A version from 1.6 on.
    Version { minor: u8, major: u8 },
}

/// The game version the servers mean by `version`.
pub open spec fn game_version_of(version: u8) -> GameVersion {
    if version == 10 {
        GameVersion::Unknown
    } else {
        GameVersion::Version { major: (version / 10) as u8, minor: (version % 10) as u8 }
    }
}

/// The number the servers use for a game version (`10 * major + minor`, wrapping at 256).
pub open spec fn game_version_number(version: GameVersion) -> u8 {
    match version {
        GameVersion::Unknown => 10,
        GameVersion::Version { minor, major } => ((10 * major + minor) % 256) as u8,
    }
}

/// The game version number `10 * major + minor`: every number but `10` stands for the version
/// whose major and minor number it holds (minor below 10), `10` for a version before 1.6; and
/// each version is written as that number.
pub proof fn lemma_game_version_numbers(version: u8, major: u8, minor: u8)
    ensures
        version != 10 ==> (game_version_of(version) matches GameVersion::Version {
            major: ma,
            minor: mi,
        } && 10 * ma + mi == version && mi < 10),
        game_version_of(version) == GameVersion::Unknown <==> version == 10,
        10 * major + minor < 256 ==> game_version_number(GameVersion::Version { major, minor }) == 10
            * major + minor,
        game_version_number(GameVersion::Unknown) == 10,
{
}

impl GameVersion {
    /// Whether this version is the one its number is read as.
    pub open spec fn is_canonical(self) -> bool {
        game_version_of(game_version_number(self)) == self
    }

    /// The version as shown to players.
    pub open spec fn spec_display(self) -> Seq<char> {
        match self {
            GameVersion::Unknown => "Pre 1.6"@,
            GameVersion::Version { minor, major } => if minor == 7 && major == 0 {
                "1.6"@
            } else {
                decimal(major as nat) + seq!['.'] + decimal(minor as nat)
            },
        }
    }

    /// The version as shown to players: `Pre 1.6` for versions before 1.6, `1.6` for the version
    /// the servers number 7, `major.minor` for the others.
    pub fn to_display_string(&self) -> (res: String)
        ensures
            res@ == self.spec_display(),
    {
        match self {
            GameVersion::Unknown => "Pre 1.6".to_string(),
            GameVersion::Version { minor, major } => {
                if *minor == 7 && *major == 0 {
                    "1.6".to_string()
                } else {
                    let mut s = format_i128(*major as i128);
                    s.append(".");
                    let m = format_i128(*minor as i128);
                    s.append(m.as_str());
                    proof {
                        reveal_strlit(".");
                    }
                    s
                }
            },
        }
    }
}

impl From<u8> for GameVersion {
    fn from(version: u8) -> (res: GameVersion) {
        if version == 10 {
            GameVersion::Unknown
        } else {
            GameVersion::Version { major: version / 10, minor: version % 10 }
        }
    }
}

impl FromSpecImpl<u8> for GameVersion {
    open spec fn obeys_from_spec() -> bool {
        true
    }

    open spec fn from_spec(v: u8) -> GameVersion {
        game_version_of(v)
    }
}

impl From<GameVersion> for u8 {
    fn from(version: GameVersion) -> (res: u8) {
        match version {
            GameVersion::Unknown => 10,
            GameVersion::Version { minor, major } => {
                let wide: u16 = major as u16 * 10 + minor as u16;
                (wide % 256) as u8
            },
        }
    }
}

impl FromSpecImpl<GameVersion> for u8 {
    open spec fn obeys_from_spec() -> bool {
        true
    }

    open spec fn from_spec(v: GameVersion) -> u8 {
        game_version_number(v)
    }
}

impl InternalProxy for GameVersion {
    type DeserializeProxy = u8;
    type SerializeProxy = u8;

    open spec fn spec_to_proxy(&self) -> u8 {
        game_version_number(*self)
    }

    open spec fn spec_from_proxy(from: u8) -> GameVersion {
        game_version_of(from)
    }

    fn to_serialize_proxy(&self) -> (res: u8) {
        match *self {
            GameVersion::Unknown => 10,
            GameVersion::Version { minor, major } => {
                let wide: u16 = major as u16 * 10 + minor as u16;
                (wide % 256) as u8
            },
        }
    }

    fn from_deserialize_proxy(from: u8) -> (res: GameVersion) {
        if from == 10 {
            GameVersion::Unknown
        } else {
            GameVersion::Version { major: from / 10, minor: from % 10 }
        }
    }
}

/// Every version number is written back as itself; the canonical versions are `Unknown` and the
/// versions whose minor part is a digit and whose number fits a byte, but for 1.0, which is
/// numbered like `Unknown`.
pub proof fn lemma_game_version_roundtrip(n: u8, v: GameVersion)
    ensures
        game_version_number(game_version_of(n)) == n,
        v.is_canonical() <==> match v {
            GameVersion::Unknown => true,
            GameVersion::Version { minor, major } => minor <= 9 && 10 * major + minor <= 255 && !(
            major == 1 && minor == 0),
        },
{
}

} // verus!
