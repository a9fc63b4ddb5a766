//! The objects a level is built from.

use vstd::prelude::*;
use vstd::std_specs::convert::FromSpecImpl;
use crate::serde::InternalProxy;

verus! {

/// The speed a level is played at.
#[derive(Debug, Clone, Copy, PartialEq, Eq)]
pub enum Speed {
    Slow,
    Normal,
    Medium,
    Fast,
    VeryFast,
    /// A speed this library does not know about.
    Unknown(u8),
}

impl Default for Speed {
    fn default() -> (res: Speed)
        ensures
            res == Speed::Normal,
    {
        Speed::Normal
    }
}

/// The speed the servers mean by `value`.
pub open spec fn speed_of(value: u8) -> Speed {
    match value {
        0 => Speed::Slow,
        1 => Speed::Normal,
        2 => Speed::Medium,
        3 => Speed::Fast,
        4 => Speed::VeryFast,
        _ => Speed::Unknown(value),
    }
}

/// The value the servers use for a speed.
pub open spec fn speed_value(speed: Speed) -> u8 {
    match speed {
        Speed::Slow => 0,
        Speed::Normal => 1,
        Speed::Medium => 2,
        Speed::Fast => 3,
        Speed::VeryFast => 4,
        Speed::Unknown(unknown) => unknown,
    }
}

impl Speed {
    /// The speed the servers mean by `value`.
    pub fn from_value(value: u8) -> (res: Speed)
        ensures
            res == speed_of(value),
    {
        match value {
            0 => Speed::Slow,
            1 => Speed::Normal,
            2 => Speed::Medium,
            3 => Speed::Fast,
            4 => Speed::VeryFast,
            unknown => Speed::Unknown(unknown),
        }
    }
}

impl From<u8> for Speed {
    fn from(value: u8) -> (res: Speed) {
        Speed::from_value(value)
    }
}

impl FromSpecImpl<u8> for Speed {
    open spec fn obeys_from_spec() -> bool {
        true
    }

    open spec fn from_spec(v: u8) -> Speed {
        speed_of(v)
    }
}

impl From<Speed> for u8 {
    fn from(speed: Speed) -> (res: u8) {
        match speed {
            Speed::Slow => 0,
            Speed::Normal => 1,
            Speed::Medium => 2,
            Speed::Fast => 3,
            Speed::VeryFast => 4,
            Speed::Unknown(unknown) => unknown,
        }
    }
}

impl FromSpecImpl<Speed> for u8 {
    open spec fn obeys_from_spec() -> bool {
        true
    }

    open spec fn from_spec(v: Speed) -> u8 {
        speed_value(v)
    }
}

impl InternalProxy for Speed {
    type DeserializeProxy = u8;
    type SerializeProxy = u8;

    open spec fn spec_to_proxy(&self) -> u8 {
        speed_value(*self)
    }

    open spec fn spec_from_proxy(from: u8) -> Speed {
        speed_of(from)
    }

    fn to_serialize_proxy(&self) -> (res: u8) {
        match *self {
            Speed::Slow => 0,
            Speed::Normal => 1,
            Speed::Medium => 2,
            Speed::Fast => 3,
            Speed::VeryFast => 4,
            Speed::Unknown(unknown) => unknown,
        }
    }

    fn from_deserialize_proxy(from: u8) -> (res: Speed) {
        Speed::from_value(from)
    }
}

/// Every speed value is written back as itself.
pub proof fn lemma_speed_roundtrip(value: u8)
    ensures
        speed_value(speed_of(value)) == value,
{
}

/// What an object does beyond being placed in the level.
#[derive(Debug, Clone, PartialEq, Copy)]
pub enum ObjectData {
    /// Nothing.
    NoData,
    /// Something this library does not know about.
    Unknown,
    /// A speed portal, which changes the speed to `speed` if `checked`.
    SpeedPortal { checked: bool, speed: Speed },
}

/// The object id of the slow speed portal.
pub const SLOW_PORTAL: u16 = 200;

/// The object id of the normal speed portal.
pub const NORMAL_PORTAL: u16 = 201;

/// The object id of the fast speed portal.
pub const FAST_PORTAL: u16 = 202;

/// The object id of the very fast speed portal.
pub const VERY_FAST_PORTAL: u16 = 203;

/// What an object with the given id does, given whether it is checked.
pub open spec fn object_data_of(id: u16, checked: bool) -> ObjectData {
    if id == SLOW_PORTAL {
        ObjectData::SpeedPortal { checked, speed: Speed::Slow }
    } else if id == NORMAL_PORTAL {
        ObjectData::SpeedPortal { checked, speed: Speed::Normal }
    } else if id == FAST_PORTAL {
        ObjectData::SpeedPortal { checked, speed: Speed::Fast }
    } else if id == VERY_FAST_PORTAL {
        ObjectData::SpeedPortal { checked, speed: Speed::VeryFast }
    } else {
        ObjectData::Unknown
    }
}

impl ObjectData {
    /// What an object with the given id does: a speed portal for the ids of the speed portals,
    /// something unknown otherwise.
    pub fn from_object(id: u16, checked: bool) -> (res: ObjectData)
        ensures
            res == object_data_of(id, checked),
    {
        if id == SLOW_PORTAL {
            ObjectData::SpeedPortal { checked, speed: Speed::Slow }
        } else if id == NORMAL_PORTAL {
            ObjectData::SpeedPortal { checked, speed: Speed::Normal }
        } else if id == FAST_PORTAL {
            ObjectData::SpeedPortal { checked, speed: Speed::Fast }
        } else if id == VERY_FAST_PORTAL {
            ObjectData::SpeedPortal { checked, speed: Speed::VeryFast }
        } else {
            ObjectData::Unknown
        }
    }

    /// The `checked` flag an object with this data is written with: the portal's flag, `false`
    /// for anything else.
    pub fn checked_flag(&self) -> (res: bool)
        ensures
            res == (*self matches ObjectData::SpeedPortal { checked, .. } && checked),
    {
        match self {
            ObjectData::SpeedPortal { checked, .. } => *checked,
            _ => false,
        }
    }
}

/// The speed portals by their ids: `200` (slow), `201` (normal), `202` (fast) and `203` (very fast)
/// each change the speed to their own speed and keep their `checked` flag; every other object is
/// unknown.
pub proof fn lemma_speed_portal_ids(id: u16, checked: bool)
    ensures
        object_data_of(200, checked) == (ObjectData::SpeedPortal { checked, speed: Speed::Slow }),
        object_data_of(201, checked) == (ObjectData::SpeedPortal { checked, speed: Speed::Normal }),
        object_data_of(202, checked) == (ObjectData::SpeedPortal { checked, speed: Speed::Fast }),
        object_data_of(203, checked) == (ObjectData::SpeedPortal { checked, speed: Speed::VeryFast }),
        !(200 <= id <= 203) ==> object_data_of(id, checked) == ObjectData::Unknown,
        SLOW_PORTAL == 200 && NORMAL_PORTAL == 201 && FAST_PORTAL == 202 && VERY_FAST_PORTAL == 203,
{
}

/// The speeds by the values the servers use for them: `0` slow, `1` normal, `2` medium, `3` fast
/// and `4` very fast; any other value is an unknown speed holding it.
pub proof fn lemma_speed_values(value: u8)
    ensures
        speed_of(value) == Speed::Slow <==> value == 0,
        speed_of(value) == Speed::Normal <==> value == 1,
        speed_of(value) == Speed::Medium <==> value == 2,
        speed_of(value) == Speed::Fast <==> value == 3,
        speed_of(value) == Speed::VeryFast <==> value == 4,
        value > 4 ==> speed_of(value) == Speed::Unknown(value),
{
}

/// Reading back the data of a speed portal from its id and written flag gives the data again.
pub proof fn lemma_portal_roundtrip(id: u16, checked: bool)
    ensures
        object_data_of(id, checked) matches ObjectData::SpeedPortal { checked: c, .. } ==> c
            == checked,
        (object_data_of(id, checked) is SpeedPortal) <==> (200 <= id <= 203),
{
}

} // verus!
