//! The fields of the sections of a level string: an object section and the metadata section, each
//! read as `key, value` pairs separated by `,`.
//!
//! A field is read as in every other object of the indexed format: a key that occurs twice, or a
//! value that is not of the field's kind, makes the section unreadable. A field with a default
//! takes it when its key does not occur; a field without one is then missing. Floating point
//! values are checked and handed out as their text.

use vstd::prelude::*;
use crate::model::level::object::{object_data_of, speed_of, ObjectData, Speed};
use crate::serde::de::indexed::IndexedDeserializer;
use crate::serde::gj::{fv_bool, fv_int, fv_text, value_bool, value_int, value_text};
use crate::serde::{decode_field, lookup, kind_wf, BoolStyle, FieldKind, FieldValue, FieldView, Lookup};
use crate::split::split;

verus! {

/// A field of a section that could not be read.
#[derive(Debug, Clone)]
pub enum FieldError {
    /// The section has no field with this key, and the field has no default.
    Missing(String),
    /// The field with this key occurs more than once, or its value is not of the field's kind.
    Invalid(String),
}

impl FieldError {
    /// A description of the error, naming the key.
    pub fn message(&self) -> (res: String)
        ensures
            res@ == match self {
                FieldError::Missing(k) => "missing index "@ + k@,
                FieldError::Invalid(k) => "invalid value at index "@ + k@,
            },
    {
        proof {
            reveal_strlit("missing index ");
            reveal_strlit("invalid value at index ");
        }
        match self {
            FieldError::Missing(k) => {
                let mut s = "missing index ".to_string();
                s.append(k.as_str());
                s
            },
            FieldError::Invalid(k) => {
                let mut s = "invalid value at index ".to_string();
                s.append(k.as_str());
                s
            },
        }
    }
}

/// Whether `e` says that the field with key `key` is missing.
pub open spec fn is_missing(e: FieldError, key: Seq<char>) -> bool {
    e matches FieldError::Missing(k) && k@ == key
}

/// Whether `e` says that the field with key `key` cannot be read.
pub open spec fn is_invalid(e: FieldError, key: Seq<char>) -> bool {
    e matches FieldError::Invalid(k) && k@ == key
}

/// The error for a field that cannot be read: missing where its key does not occur.
pub open spec fn field_error_is(tokens: Seq<Seq<char>>, key: Seq<char>, e: FieldError) -> bool {
    if lookup(tokens, key) is Missing {
        is_missing(e, key)
    } else {
        is_invalid(e, key)
    }
}

/// The tokens of a section: its text cut at every `,`.
pub open spec fn section_tokens(section: Seq<char>) -> Seq<Seq<char>> {
    split(section, seq![','])
}

/// A field of a section: its key, its kind and its default, if it has one.
pub type SectionField = (Seq<char>, FieldKind, Option<FieldView>);

/// The value of a field read from the tokens of a section (`None`: it cannot be read).
pub open spec fn section_field(tokens: Seq<Seq<char>>, f: SectionField) -> Option<FieldView> {
    match (lookup(tokens, f.0), f.2) {
        (Lookup::Missing, Some(default)) => Some(default),
        (found, _) => decode_field(f.1, found),
    }
}

/// The first of the fields that cannot be read from the tokens.
pub open spec fn first_unreadable(tokens: Seq<Seq<char>>, fields: Seq<SectionField>) -> Option<
    Seq<char>,
>
    decreases fields.len(),
{
    if fields.len() == 0 {
        None
    } else if section_field(tokens, fields[0]) is None {
        Some(fields[0].0)
    } else {
        first_unreadable(tokens, fields.drop_first())
    }
}

/// Whether every field can be read from a section.
pub open spec fn section_readable(section: Seq<char>, fields: Seq<SectionField>) -> bool {
    first_unreadable(section_tokens(section), fields) is None
}

/// The view of an optional default.
pub open spec fn default_view(d: Option<FieldValue>) -> Option<FieldView> {
    match d {
        Some(v) => Some(v@),
        None => None,
    }
}

/// Reads one field of a section.
fn read_section_field(de: &IndexedDeserializer, key: &str, kind: FieldKind, default: Option<
    FieldValue,
>) -> (res: Result<FieldValue, FieldError>)
    requires
        kind_wf(kind),
    ensures
        match res {
            Ok(v) => section_field(de.tokens(), (key@, kind, default_view(default))) == Some(v@),
            Err(e) => section_field(de.tokens(), (key@, kind, default_view(default))) is None
                && field_error_is(de.tokens(), key@, e),
        },
{
    let present = de.has_key(key);
    if !present {
        if let Some(d) = default {
            return Ok(d);
        }
    }
    match de.read_field(key, kind) {
        Some(v) => Ok(v),
        None => if present {
            Err(FieldError::Invalid(key.to_string()))
        } else {
            Err(FieldError::Missing(key.to_string()))
        },
    }
}

/// The kind of a boolean flag of a section.
pub open spec fn flag_kind() -> FieldKind {
    FieldKind::Bool { style: BoolStyle::OneZero }
}

/// The fields of an object section, in the order they are read: the id (index `1`), the
/// position (`2`, `3`), the flips (`4`, `5`), the rotation (`6`, `0` by default) and the
/// `checked` flag (`13`).
pub open spec fn object_section_fields() -> Seq<SectionField> {
    seq![
        (seq!['1'], FieldKind::Int { lo: 0, hi: 0xffff }, None),
        (seq!['2'], FieldKind::FloatText, None),
        (seq!['3'], FieldKind::FloatText, None),
        (seq!['4'], flag_kind(), Some(FieldView::Bool(false))),
        (seq!['5'], flag_kind(), Some(FieldView::Bool(false))),
        (seq!['6'], FieldKind::FloatText, Some(FieldView::Text(seq!['0']))),
        (seq!['1', '3'], flag_kind(), Some(FieldView::Bool(false))),
    ]
}

/// The fields of an object section.
#[derive(Debug, Clone, PartialEq)]
pub struct ObjectFields {
    /// The object's id (index `1`).
    pub id: u16,
    /// The horizontal position, as the text of a floating point number (index `2`).
    pub x: String,
    /// The vertical position, as the text of a floating point number (index `3`).
    pub y: String,
    /// Whether the object is flipped horizontally (index `4`).
    pub flipped_x: bool,
    /// Whether the object is flipped vertically (index `5`).
    pub flipped_y: bool,
    /// The rotation, as the text of a floating point number (index `6`).
    pub rotation: String,
    /// What the object does, from its id and its `checked` flag (index `13`).
    pub metadata: ObjectData,
}

/// Reads the fields of an object section; fails with the first field that cannot be read.
pub fn read_object_fields(section: &str) -> (res: Result<ObjectFields, FieldError>)
    ensures
        match res {
            Ok(f) => {
                let t = section_tokens(section@);
                let fs = object_section_fields();
                &&& first_unreadable(t, fs) is None
                &&& f.id as int == fv_int(section_field(t, fs[0])->0)
                &&& f.x@ == fv_text(section_field(t, fs[1])->0)
                &&& f.y@ == fv_text(section_field(t, fs[2])->0)
                &&& f.flipped_x == fv_bool(section_field(t, fs[3])->0)
                &&& f.flipped_y == fv_bool(section_field(t, fs[4])->0)
                &&& f.rotation@ == fv_text(section_field(t, fs[5])->0)
                &&& f.metadata == object_data_of(f.id, fv_bool(section_field(t, fs[6])->0))
            },
            Err(e) => first_unreadable(section_tokens(section@), object_section_fields()) matches Some(
                k,
            ) && field_error_is(section_tokens(section@), k, e),
        },
{
    proof {
        reveal_strlit(",");
        reveal_strlit("1");
        reveal_strlit("2");
        reveal_strlit("3");
        reveal_strlit("4");
        reveal_strlit("5");
        reveal_strlit("6");
        reveal_strlit("13");
        reveal_strlit("0");
    }
    let de = IndexedDeserializer::new(section, ",", true);
    let ghost t = de.tokens();
    let ghost fs = object_section_fields();
    proof {
        assert(","@ =~= seq![',']);
        assert("1"@ =~= seq!['1']);
        assert("2"@ =~= seq!['2']);
        assert("3"@ =~= seq!['3']);
        assert("4"@ =~= seq!['4']);
        assert("5"@ =~= seq!['5']);
        assert("6"@ =~= seq!['6']);
        assert("13"@ =~= seq!['1', '3']);
        assert("0"@ =~= seq!['0']);
        reveal_with_fuel(first_unreadable, 8);
        assert(fs.drop_first() =~= fs.subrange(1, 7));
        assert(fs.subrange(1, 7).drop_first() =~= fs.subrange(2, 7));
        assert(fs.subrange(2, 7).drop_first() =~= fs.subrange(3, 7));
        assert(fs.subrange(3, 7).drop_first() =~= fs.subrange(4, 7));
        assert(fs.subrange(4, 7).drop_first() =~= fs.subrange(5, 7));
        assert(fs.subrange(5, 7).drop_first() =~= fs.subrange(6, 7));
        assert(fs.subrange(6, 7).drop_first() =~= Seq::<SectionField>::empty());
    }
    let id = match read_section_field(&de, "1", FieldKind::Int { lo: 0, hi: 0xffff }, None) {
        Ok(v) => v,
        Err(e) => {
            return Err(e);
        },
    };
    let x = match read_section_field(&de, "2", FieldKind::FloatText, None) {
        Ok(v) => v,
        Err(e) => {
            return Err(e);
        },
    };
    let y = match read_section_field(&de, "3", FieldKind::FloatText, None) {
        Ok(v) => v,
        Err(e) => {
            return Err(e);
        },
    };
    let flip_x = match read_section_field(
        &de,
        "4",
        FieldKind::Bool { style: BoolStyle::OneZero },
        Some(FieldValue::Bool(false)),
    ) {
        Ok(v) => v,
        Err(e) => {
            return Err(e);
        },
    };
    let flip_y = match read_section_field(
        &de,
        "5",
        FieldKind::Bool { style: BoolStyle::OneZero },
        Some(FieldValue::Bool(false)),
    ) {
        Ok(v) => v,
        Err(e) => {
            return Err(e);
        },
    };
    let rotation = match read_section_field(
        &de,
        "6",
        FieldKind::FloatText,
        Some(FieldValue::Text("0".to_string())),
    ) {
        Ok(v) => v,
        Err(e) => {
            return Err(e);
        },
    };
    let checked = match read_section_field(
        &de,
        "13",
        FieldKind::Bool { style: BoolStyle::OneZero },
        Some(FieldValue::Bool(false)),
    ) {
        Ok(v) => v,
        Err(e) => {
            return Err(e);
        },
    };
    let id_value = value_int(&id);
    assert(0 <= id_value <= 0xffff);
    let id = id_value as u16;
    let checked = value_bool(&checked);
    Ok(ObjectFields {
        id,
        x: value_text(&x),
        y: value_text(&y),
        flipped_x: value_bool(&flip_x),
        flipped_y: value_bool(&flip_y),
        rotation: value_text(&rotation),
        metadata: ObjectData::from_object(id, checked),
    })
}

/// The fields of a metadata section, in the order they are read: the starting speed (index
/// `kA4`, `1` by default), the song offset (`kA13`, `0` by default), and the flags for fading
/// the song in and out (`kA15`, `kA16`), starting in dual mode (`kA8`), two player controls
/// (`kA10`) and starting with gravity inverted (`kA11`).
pub open spec fn metadata_section_fields() -> Seq<SectionField> {
    seq![
        (seq!['k', 'A', '4'], FieldKind::Int { lo: 0, hi: 0xff }, Some(FieldView::Int(1))),
        (seq!['k', 'A', '1', '3'], FieldKind::FloatText, Some(FieldView::Text(seq!['0']))),
        (seq!['k', 'A', '1', '5'], flag_kind(), Some(FieldView::Bool(false))),
        (seq!['k', 'A', '1', '6'], flag_kind(), Some(FieldView::Bool(false))),
        (seq!['k', 'A', '8'], flag_kind(), Some(FieldView::Bool(false))),
        (seq!['k', 'A', '1', '0'], flag_kind(), Some(FieldView::Bool(false))),
        (seq!['k', 'A', '1', '1'], flag_kind(), Some(FieldView::Bool(false))),
    ]
}

/// The fields of a level's metadata section.
#[derive(Debug, Clone, PartialEq)]
pub struct MetadataFields {
    /// The speed the level starts at (index `kA4`).
    pub starting_speed: Speed,
    /// The song offset, as the text of a floating point number (index `kA13`).
    pub song_offset: String,
    /// Whether the song fades in (index `kA15`).
    pub song_fade_in: bool,
    /// Whether the song fades out (index `kA16`).
    pub song_fade_out: bool,
    /// Whether the level starts in dual mode (index `kA8`).
    pub dual_start: bool,
    /// Whether the level uses two player controls (index `kA10`).
    pub two_player_controls: bool,
    /// Whether the level starts with gravity inverted (index `kA11`).
    pub start_gravity_inverted: bool,
}

/// Reads the fields of a metadata section; fails with the first field that cannot be read.
pub fn read_metadata_fields(section: &str) -> (res: Result<MetadataFields, FieldError>)
    ensures
        match res {
            Ok(f) => {
                let t = section_tokens(section@);
                let fs = metadata_section_fields();
                &&& first_unreadable(t, fs) is None
                &&& f.starting_speed == speed_of(fv_int(section_field(t, fs[0])->0) as u8)
                &&& f.song_offset@ == fv_text(section_field(t, fs[1])->0)
                &&& f.song_fade_in == fv_bool(section_field(t, fs[2])->0)
                &&& f.song_fade_out == fv_bool(section_field(t, fs[3])->0)
                &&& f.dual_start == fv_bool(section_field(t, fs[4])->0)
                &&& f.two_player_controls == fv_bool(section_field(t, fs[5])->0)
                &&& f.start_gravity_inverted == fv_bool(section_field(t, fs[6])->0)
            },
            Err(e) => first_unreadable(section_tokens(section@), metadata_section_fields()) matches Some(
                k,
            ) && field_error_is(section_tokens(section@), k, e),
        },
{
    proof {
        reveal_strlit(",");
        reveal_strlit("kA4");
        reveal_strlit("kA13");
        reveal_strlit("kA15");
        reveal_strlit("kA16");
        reveal_strlit("kA8");
        reveal_strlit("kA10");
        reveal_strlit("kA11");
        reveal_strlit("0");
    }
    let de = IndexedDeserializer::new(section, ",", true);
    let ghost t = de.tokens();
    let ghost fs = metadata_section_fields();
    proof {
        assert(","@ =~= seq![',']);
        assert("kA4"@ =~= seq!['k', 'A', '4']);
        assert("kA13"@ =~= seq!['k', 'A', '1', '3']);
        assert("kA15"@ =~= seq!['k', 'A', '1', '5']);
        assert("kA16"@ =~= seq!['k', 'A', '1', '6']);
        assert("kA8"@ =~= seq!['k', 'A', '8']);
        assert("kA10"@ =~= seq!['k', 'A', '1', '0']);
        assert("kA11"@ =~= seq!['k', 'A', '1', '1']);
        assert("0"@ =~= seq!['0']);
        reveal_with_fuel(first_unreadable, 8);
        assert(fs.drop_first() =~= fs.subrange(1, 7));
        assert(fs.subrange(1, 7).drop_first() =~= fs.subrange(2, 7));
        assert(fs.subrange(2, 7).drop_first() =~= fs.subrange(3, 7));
        assert(fs.subrange(3, 7).drop_first() =~= fs.subrange(4, 7));
        assert(fs.subrange(4, 7).drop_first() =~= fs.subrange(5, 7));
        assert(fs.subrange(5, 7).drop_first() =~= fs.subrange(6, 7));
        assert(fs.subrange(6, 7).drop_first() =~= Seq::<SectionField>::empty());
    }
    let speed = match read_section_field(
        &de,
        "kA4",
        FieldKind::Int { lo: 0, hi: 0xff },
        Some(FieldValue::Int(1)),
    ) {
        Ok(v) => v,
        Err(e) => {
            return Err(e);
        },
    };
    let offset = match read_section_field(
        &de,
        "kA13",
        FieldKind::FloatText,
        Some(FieldValue::Text("0".to_string())),
    ) {
        Ok(v) => v,
        Err(e) => {
            return Err(e);
        },
    };
    let fade_in = match read_section_field(
        &de,
        "kA15",
        FieldKind::Bool { style: BoolStyle::OneZero },
        Some(FieldValue::Bool(false)),
    ) {
        Ok(v) => v,
        Err(e) => {
            return Err(e);
        },
    };
    let fade_out = match read_section_field(
        &de,
        "kA16",
        FieldKind::Bool { style: BoolStyle::OneZero },
        Some(FieldValue::Bool(false)),
    ) {
        Ok(v) => v,
        Err(e) => {
            return Err(e);
        },
    };
    let dual = match read_section_field(
        &de,
        "kA8",
        FieldKind::Bool { style: BoolStyle::OneZero },
        Some(FieldValue::Bool(false)),
    ) {
        Ok(v) => v,
        Err(e) => {
            return Err(e);
        },
    };
    let two_player = match read_section_field(
        &de,
        "kA10",
        FieldKind::Bool { style: BoolStyle::OneZero },
        Some(FieldValue::Bool(false)),
    ) {
        Ok(v) => v,
        Err(e) => {
            return Err(e);
        },
    };
    let gravity = match read_section_field(
        &de,
        "kA11",
        FieldKind::Bool { style: BoolStyle::OneZero },
        Some(FieldValue::Bool(false)),
    ) {
        Ok(v) => v,
        Err(e) => {
            return Err(e);
        },
    };
    let speed_value = value_int(&speed);
    assert(0 <= speed_value <= 0xff);
    Ok(MetadataFields {
        starting_speed: Speed::from_value(speed_value as u8),
        song_offset: value_text(&offset),
        song_fade_in: value_bool(&fade_in),
        song_fade_out: value_bool(&fade_out),
        dual_start: value_bool(&dual),
        two_player_controls: value_bool(&two_player),
        start_gravity_inverted: value_bool(&gravity),
    })
}

} // verus!
