//! Which index of RobTop's format the fields of the models are read from, and what the values
//! found there mean, stated against the `key, value` pairs of the input.

use vstd::prelude::*;
use crate::model::comment::{
    comment_user_delimiter, comment_user_schema, level_comment_delimiter, level_comment_schema,
    profile_comment_delimiter, profile_comment_schema, CommentUser, LevelComment, ProfileComment,
};
use crate::model::creator::{creator_delimiter, creator_schema, Creator};
use crate::model::level::data::{
    full_level_from_fields, level_delimiter, level_schema, listed_level_from_fields,
};
use crate::model::level::object::{object_data_of, speed_of, Speed};
use crate::model::level::section::{
    first_unreadable, metadata_section_fields, object_section_fields, read_metadata_fields,
    read_object_fields, section_field, section_tokens, FieldError, MetadataFields, ObjectFields,
};
use crate::model::level::{DemonRating, LevelRating};
use crate::model::song::{raw_newgrounds_song_delimiter, raw_newgrounds_song_schema, RawNewgroundsSong};
use crate::model::user::profile::{profile_delimiter, profile_schema, Profile};
use crate::model::user::searched::{searched_user_delimiter, searched_user_schema, SearchedUser};
use crate::model::user::{Color, IconType, ModLevel};
use crate::serde::thunk::ThunkView;
use crate::serde::{
    decode_field, field_lookup, key_token, lookup, struct_readable, struct_values, FieldKind,
    FieldView, InternalProxy, Lookup,
};
use crate::split::split;
use crate::text::{decimal, parse_int};

verus! {


/// The value following the key `key` among the `key, value` pairs of the tokens, where the key
/// occurs exactly once and a value follows it.
pub open spec fn value_at(tokens: Seq<Seq<char>>, key: Seq<char>) -> Option<Seq<char>> {
    match lookup(tokens, key) {
        Lookup::Found(Some(v)) => Some(v),
        _ => None,
    }
}

/// Whether the value at `key` stands for `true`: it is `1`, `2` or `10`.
pub open spec fn flag_at(tokens: Seq<Seq<char>>, key: Seq<char>) -> bool {
    value_at(tokens, key) matches Some(v) && (v == seq!['1'] || v == seq!['2'] || v == seq![
        '1',
        '0',
    ])
}

/// The integer in `lo..=hi` written at `key`.
pub open spec fn int_at(tokens: Seq<Seq<char>>, key: Seq<char>, lo: int, hi: int) -> Option<int> {
    match value_at(tokens, key) {
        Some(v) => parse_int(v, lo, hi),
        None => None,
    }
}

/// The optional text written at `key`: absent where the key does not occur or its value is
/// empty.
pub open spec fn opt_text_at(tokens: Seq<Seq<char>>, key: Seq<char>) -> Option<Seq<char>> {
    match value_at(tokens, key) {
        Some(v) => if v.len() == 0 {
            None
        } else {
            Some(v)
        },
        None => None,
    }
}

/// The optional integer in `lo..=hi` written at `key`: absent where the key does not occur or its
/// value is empty.
pub open spec fn opt_int_at(tokens: Seq<Seq<char>>, key: Seq<char>, lo: int, hi: int) -> Option<int> {
    match value_at(tokens, key) {
        Some(v) => if v.len() == 0 {
            None
        } else {
            parse_int(v, lo, hi)
        },
        None => None,
    }
}

/// The integer in `0..=hi` written at `key`, where `0` stands for an absent value.
pub open spec fn nonzero_int_at(tokens: Seq<Seq<char>>, key: Seq<char>, hi: int) -> Option<int> {
    match int_at(tokens, key, 0, hi) {
        Some(v) => if v == 0 {
            None
        } else {
            Some(v)
        },
        None => None,
    }
}

/// In a readable map-like object, each field holds what its kind reads from the value at its
/// index.
proof fn lemma_read_field(tokens: Seq<Seq<char>>, schema: Seq<(u64, FieldKind)>, i: int)
    requires
        struct_readable(tokens, schema, true),
        0 <= i < schema.len(),
    ensures
        decode_field(schema[i].1, lookup(tokens, key_token(schema[i].0))) == Some(
            struct_values(tokens, schema, true)[i],
        ),
{
    assert(decode_field(schema[i].1, field_lookup(tokens, schema, i, true)) is Some);
}

/// An integer field of a readable object is the integer at its index.
proof fn lemma_int_field(tokens: Seq<Seq<char>>, schema: Seq<(u64, FieldKind)>, i: int, key: Seq<char>, lo: i128, hi: i128)
    requires
        struct_readable(tokens, schema, true),
        0 <= i < schema.len(),
        schema[i] == (schema[i].0, FieldKind::Int { lo, hi }),
        key_token(schema[i].0) == key,
    ensures
        struct_values(tokens, schema, true)[i] matches FieldView::Int(v) && int_at(
            tokens,
            key,
            lo as int,
            hi as int,
        ) == Some(v) && lo <= v <= hi,
{
    lemma_read_field(tokens, schema, i);
}

/// A boolean field of a readable object is `true` exactly when the value at its index stands for
/// `true`.
proof fn lemma_bool_field(tokens: Seq<Seq<char>>, schema: Seq<(u64, FieldKind)>, i: int, key: Seq<char>)
    requires
        struct_readable(tokens, schema, true),
        0 <= i < schema.len(),
        schema[i].1 is Bool,
        key_token(schema[i].0) == key,
    ensures
        struct_values(tokens, schema, true)[i] matches FieldView::Bool(b) && b == flag_at(tokens, key),
{
    lemma_read_field(tokens, schema, i);
}

/// A text field of a readable object is the value at its index.
proof fn lemma_text_field(tokens: Seq<Seq<char>>, schema: Seq<(u64, FieldKind)>, i: int, key: Seq<char>)
    requires
        struct_readable(tokens, schema, true),
        0 <= i < schema.len(),
        schema[i].1 is Text || schema[i].1 is FloatText,
        key_token(schema[i].0) == key,
    ensures
        struct_values(tokens, schema, true)[i] matches FieldView::Text(x) && value_at(tokens, key)
            == Some(x),
{
    lemma_read_field(tokens, schema, i);
}

/// An optional text field of a readable object is the value at its index, absent where the key
/// does not occur or its value is empty.
proof fn lemma_opt_text_field(tokens: Seq<Seq<char>>, schema: Seq<(u64, FieldKind)>, i: int, key: Seq<char>)
    requires
        struct_readable(tokens, schema, true),
        0 <= i < schema.len(),
        schema[i].1 is OptText || schema[i].1 is SkippedOptText,
        key_token(schema[i].0) == key,
    ensures
        struct_values(tokens, schema, true)[i] matches FieldView::OptText(o) && o == opt_text_at(
            tokens,
            key,
        ),
{
    lemma_read_field(tokens, schema, i);
}

/// An optional integer field of a readable object is the integer at its index, absent where the
/// key does not occur or its value is empty.
proof fn lemma_opt_int_field(tokens: Seq<Seq<char>>, schema: Seq<(u64, FieldKind)>, i: int, key: Seq<char>, lo: i128, hi: i128)
    requires
        struct_readable(tokens, schema, true),
        0 <= i < schema.len(),
        schema[i] == (schema[i].0, FieldKind::OptInt { lo, hi }),
        key_token(schema[i].0) == key,
    ensures
        struct_values(tokens, schema, true)[i] matches FieldView::OptInt(o) && o == opt_int_at(
            tokens,
            key,
            lo as int,
            hi as int,
        ) && (o matches Some(v) ==> lo <= v <= hi),
{
    lemma_read_field(tokens, schema, i);
}

/// A field of a readable object where `0` stands for an absent value is the integer at its
/// index, absent where that is `0`.
proof fn lemma_nonzero_int_field(tokens: Seq<Seq<char>>, schema: Seq<(u64, FieldKind)>, i: int, key: Seq<char>, hi: i128)
    requires
        struct_readable(tokens, schema, true),
        0 <= i < schema.len(),
        schema[i] == (schema[i].0, FieldKind::DefaultToNone { hi }),
        key_token(schema[i].0) == key,
    ensures
        struct_values(tokens, schema, true)[i] matches FieldView::OptInt(o) && o == nonzero_int_at(
            tokens,
            key,
            hi as int,
        ) && (o matches Some(v) ==> 0 < v <= hi),
{
    lemma_read_field(tokens, schema, i);
}

/// A creator read from RobTop's format, whose fields follow each other without indices, holds
/// as its user id the integer in the first field, as its name the second field, and as its
/// account id the integer in the third field, absent where that is `0`.
pub proof fn lemma_creator_positions(input: Seq<char>)
    requires
        struct_readable(split(input, creator_delimiter()), creator_schema(), false),
    ensures
        ({
            let t = split(input, seq![':']);
            let c = Creator::from_fields(struct_values(t, creator_schema(), false));
            &&& t.len() >= 3
            &&& parse_int(t[0], 0, 0xffff_ffff_ffff_ffff) == Some(c.user_id as int)
            &&& t[1] == c.name
            &&& parse_int(t[2], 0, 0xffff_ffff_ffff_ffff) matches Some(a) && (match c.account_id {
                Some(x) => Some(x as int),
                None => None,
            }) == (if a == 0 {
                None
            } else {
                Some(a)
            })
        }),
{
    let t = split(input, seq![':']);
    let s = creator_schema();
    assert(creator_delimiter() =~= seq![':']);
    assert(decode_field(s[0].1, field_lookup(t, s, 0, false)) is Some);
    assert(decode_field(s[1].1, field_lookup(t, s, 1, false)) is Some);
    assert(decode_field(s[2].1, field_lookup(t, s, 2, false)) is Some);
}

/// The fields of an object section of a level string, stated against its `key, value` pairs:
/// the id is the integer at key `1`, the position the numbers at keys `2` and `3`, the flips the
/// flags at keys `4` and `5`, the rotation the number at key `6` (`0` where the key does not
/// occur), and a speed portal is checked where the flag at key `13` is set.
pub proof fn lemma_object_section_indices(section: &str, f: ObjectFields)
    requires
        call_ensures(read_object_fields, (section,), Ok::<ObjectFields, FieldError>(f)),
    ensures
        ({
            let t = section_tokens(section@);
            &&& int_at(t, seq!['1'], 0, 0xffff) == Some(f.id as int)
            &&& value_at(t, seq!['2']) == Some(f.x@)
            &&& value_at(t, seq!['3']) == Some(f.y@)
            &&& f.flipped_x == flag_at(t, seq!['4'])
            &&& f.flipped_y == flag_at(t, seq!['5'])
            &&& f.rotation@ == (if lookup(t, seq!['6']) is Missing {
                seq!['0']
            } else {
                value_at(t, seq!['6'])->0
            }) && (!(lookup(t, seq!['6']) is Missing) ==> value_at(t, seq!['6']) is Some)
            &&& f.metadata == object_data_of(f.id, flag_at(t, seq!['1', '3']))
        }),
{
    let t = section_tokens(section@);
    let fs = object_section_fields();
    reveal_with_fuel(first_unreadable, 8);
    assert(fs.drop_first() =~= fs.subrange(1, 7));
    assert(fs.subrange(1, 7).drop_first() =~= fs.subrange(2, 7));
    assert(fs.subrange(2, 7).drop_first() =~= fs.subrange(3, 7));
    assert(fs.subrange(3, 7).drop_first() =~= fs.subrange(4, 7));
    assert(fs.subrange(4, 7).drop_first() =~= fs.subrange(5, 7));
    assert(fs.subrange(5, 7).drop_first() =~= fs.subrange(6, 7));
    assert(section_field(t, fs[0]) is Some);
    assert(section_field(t, fs[1]) is Some);
    assert(section_field(t, fs[2]) is Some);
    assert(section_field(t, fs[3]) is Some);
    assert(section_field(t, fs[4]) is Some);
    assert(section_field(t, fs[5]) is Some);
    assert(section_field(t, fs[6]) is Some);
}

/// The fields of the metadata section of a level string, stated against its `key, value` pairs:
/// the starting speed is the one named by the integer at key `kA4` (normal where the key does not
/// occur), the song offset the number at key `kA13` (`0` where the key does not occur), and the
/// flags those at keys `kA15` (fade in), `kA16` (fade out), `kA8` (dual start), `kA10` (two
/// player controls) and `kA11` (gravity inverted).
pub proof fn lemma_metadata_section_indices(section: &str, f: MetadataFields)
    requires
        call_ensures(read_metadata_fields, (section,), Ok::<MetadataFields, FieldError>(f)),
    ensures
        ({
            let t = section_tokens(section@);
            &&& (if lookup(t, seq!['k', 'A', '4']) is Missing {
                f.starting_speed == Speed::Normal
            } else {
                int_at(t, seq!['k', 'A', '4'], 0, 255) matches Some(v) && f.starting_speed
                    == speed_of(v as u8)
            })
            &&& f.song_offset@ == (if lookup(t, seq!['k', 'A', '1', '3']) is Missing {
                seq!['0']
            } else {
                value_at(t, seq!['k', 'A', '1', '3'])->0
            })
            &&& f.song_fade_in == flag_at(t, seq!['k', 'A', '1', '5'])
            &&& f.song_fade_out == flag_at(t, seq!['k', 'A', '1', '6'])
            &&& f.dual_start == flag_at(t, seq!['k', 'A', '8'])
            &&& f.two_player_controls == flag_at(t, seq!['k', 'A', '1', '0'])
            &&& f.start_gravity_inverted == flag_at(t, seq!['k', 'A', '1', '1'])
        }),
{
    let t = section_tokens(section@);
    let fs = metadata_section_fields();
    reveal_with_fuel(first_unreadable, 8);
    assert(fs.drop_first() =~= fs.subrange(1, 7));
    assert(fs.subrange(1, 7).drop_first() =~= fs.subrange(2, 7));
    assert(fs.subrange(2, 7).drop_first() =~= fs.subrange(3, 7));
    assert(fs.subrange(3, 7).drop_first() =~= fs.subrange(4, 7));
    assert(fs.subrange(4, 7).drop_first() =~= fs.subrange(5, 7));
    assert(fs.subrange(5, 7).drop_first() =~= fs.subrange(6, 7));
    assert(section_field(t, fs[0]) is Some);
    assert(section_field(t, fs[1]) is Some);
    assert(section_field(t, fs[2]) is Some);
    assert(section_field(t, fs[3]) is Some);
    assert(section_field(t, fs[4]) is Some);
    assert(section_field(t, fs[5]) is Some);
    assert(section_field(t, fs[6]) is Some);
}

/// The icon type of a comment's author is the one named by the integer at index `14`: `0` a cube,
/// `1` a ship, `2` a ball, `3` a UFO, `4` a wave, `5` a robot and `6` a spider.
pub proof fn lemma_comment_user_icon_type(input: Seq<char>)
    requires
        struct_readable(split(input, comment_user_delimiter()), comment_user_schema(), true),
    ensures
        ({
            let t = split(input, seq!['~']);
            let u = CommentUser::from_fields(struct_values(t, comment_user_schema(), true));
            let i = int_at(t, seq!['1', '4'], 0, 255);
            &&& i is Some
            &&& u.icon_type == IconType::Cube <==> i == Some(0int)
            &&& u.icon_type == IconType::Ship <==> i == Some(1int)
            &&& u.icon_type == IconType::Ball <==> i == Some(2int)
            &&& u.icon_type == IconType::Ufo <==> i == Some(3int)
            &&& u.icon_type == IconType::Wave <==> i == Some(4int)
            &&& u.icon_type == IconType::Robot <==> i == Some(5int)
            &&& u.icon_type == IconType::Spider <==> i == Some(6int)
        }),
{
    let t = split(input, seq!['~']);
    let s = comment_user_schema();
    assert(comment_user_delimiter() == seq!['~']);
    assert(key_token(14) =~= seq!['1', '4']) by {
        reveal_with_fuel(decimal, 2);
    }
    lemma_int_field(t, s, 4, seq!['1', '4'], 0, 255);
}

/// The rating read from a level's flags and rating value, stated against the input: a level
/// whose index `8` is not set has no rating; one whose index `25` is set is auto; otherwise the
/// integer at index `9` names the rating (`0` not available, `10` easy, `20` normal, `30` hard,
/// `40` harder, `50` insane), or, where index `17` is set, the demon rating (`10` easy, `20`
/// medium, `30` hard, `40` insane, `50` extreme).
pub open spec fn difficulty_read_as(t: Seq<Seq<char>>, d: LevelRating) -> bool {
    let rated = flag_at(t, seq!['8']);
    let auto = flag_at(t, seq!['2', '5']);
    let demon = flag_at(t, seq!['1', '7']);
    let v = int_at(t, seq!['9'], -0x8000_0000, 0x7fff_ffff);
    &&& v is Some
    &&& !rated ==> d == LevelRating::NotAvailable
    &&& rated && auto ==> d == LevelRating::Auto
    &&& rated && !auto && !demon ==> {
        &&& d == LevelRating::Easy <==> v == Some(10int)
        &&& d == LevelRating::Normal <==> v == Some(20int)
        &&& d == LevelRating::Hard <==> v == Some(30int)
        &&& d == LevelRating::Harder <==> v == Some(40int)
        &&& d == LevelRating::Insane <==> v == Some(50int)
        &&& d == LevelRating::NotAvailable <==> v == Some(0int)
        &&& !(d is Demon) && !(d is Auto)
    }
    &&& rated && !auto && demon ==> {
        &&& d == LevelRating::Demon(DemonRating::Easy) <==> v == Some(10int)
        &&& d == LevelRating::Demon(DemonRating::Medium) <==> v == Some(20int)
        &&& d == LevelRating::Demon(DemonRating::Hard) <==> v == Some(30int)
        &&& d == LevelRating::Demon(DemonRating::Insane) <==> v == Some(40int)
        &&& d == LevelRating::Demon(DemonRating::Extreme) <==> v == Some(50int)
        &&& d is Demon
    }
}

/// The four fields a level's rating is read from.
proof fn lemma_level_rating_fields(t: Seq<Seq<char>>)
    requires
        struct_readable(t, level_schema(), true),
    ensures
        ({
            let vals = struct_values(t, level_schema(), true);
            &&& vals[5] == FieldView::Bool(flag_at(t, seq!['2', '5']))
            &&& vals[6] == FieldView::Bool(flag_at(t, seq!['8']))
            &&& vals[8] == FieldView::Bool(flag_at(t, seq!['1', '7']))
            &&& vals[7] matches FieldView::Int(v) && int_at(t, seq!['9'], -0x8000_0000, 0x7fff_ffff)
                == Some(v) && -0x8000_0000 <= v <= 0x7fff_ffff
        }),
{
    let s = level_schema();
    assert(key_token(25) =~= seq!['2', '5']) by {
        reveal_with_fuel(decimal, 2);
    }
    assert(key_token(17) =~= seq!['1', '7']) by {
        reveal_with_fuel(decimal, 2);
    }
    assert(key_token(8) =~= seq!['8']);
    assert(key_token(9) =~= seq!['9']);
    lemma_bool_field(t, s, 5, seq!['2', '5']);
    lemma_bool_field(t, s, 6, seq!['8']);
    lemma_bool_field(t, s, 8, seq!['1', '7']);
    lemma_int_field(t, s, 7, seq!['9'], -0x8000_0000i128, 0x7fff_ffffi128);
}

/// The rating of a listed level read from RobTop's format is the one its flags at indices `8`,
/// `25` and `17` and its rating value at index `9` stand for (see [`difficulty_read_as`]).
pub proof fn lemma_listed_level_difficulty(input: Seq<char>)
    requires
        struct_readable(split(input, level_delimiter()), level_schema(), true),
    ensures
        ({
            let t = split(input, seq![':']);
            difficulty_read_as(
                t,
                listed_level_from_fields(struct_values(t, level_schema(), true)).difficulty,
            )
        }),
{
    assert(level_delimiter() == seq![':']);
    lemma_level_rating_fields(split(input, seq![':']));
}

/// The rating of a level downloaded in full is read from the same indices as that of a listed
/// level (see [`difficulty_read_as`]).
pub proof fn lemma_full_level_difficulty(input: Seq<char>)
    requires
        struct_readable(split(input, level_delimiter()), level_schema(), true),
    ensures
        ({
            let t = split(input, seq![':']);
            difficulty_read_as(
                t,
                full_level_from_fields(struct_values(t, level_schema(), true)).difficulty,
            )
        }),
{
    assert(level_delimiter() == seq![':']);
    lemma_level_rating_fields(split(input, seq![':']));
}


/// Each field of raw Newgrounds songs read from RobTop's format (but the ones that stand apart) holds what is written at its own index.
#[verifier::rlimit(60)]
#[verifier::spinoff_prover]
pub proof fn lemma_raw_newgrounds_song_indices(input: Seq<char>)
    requires
        struct_readable(split(input, raw_newgrounds_song_delimiter()), raw_newgrounds_song_schema(), true),
    ensures
        ({
            let t = split(input, seq!['~', '|', '~']);
            let o = RawNewgroundsSong::from_fields(struct_values(t, raw_newgrounds_song_schema(), true));
            &&& int_at(t, seq!['1'], 0, 18446744073709551615) == Some(o.song_id as int)
            &&& value_at(t, seq!['2']) == Some(o.name)
            &&& int_at(t, seq!['3'], 0, 18446744073709551615) == Some(o.index_3 as int)
            &&& value_at(t, seq!['4']) == Some(o.artist)
            &&& value_at(t, seq!['5']) == Some(o.filesize)
            &&& o.index_6 == opt_text_at(t, seq!['6'])
            &&& o.index_7 == opt_text_at(t, seq!['7'])
            &&& value_at(t, seq!['8']) == Some(o.index_8)
            &&& value_at(t, seq!['1', '0']) matches Some(x) && o.link == ThunkView::<Seq<char>>::Unprocessed(x)
        }),
{
    let t = split(input, seq!['~', '|', '~']);
    let s = raw_newgrounds_song_schema();
    assert(raw_newgrounds_song_delimiter() =~= seq!['~', '|', '~']);
    assert(key_token(1) =~= seq!['1']);
    assert(key_token(2) =~= seq!['2']);
    assert(key_token(3) =~= seq!['3']);
    assert(key_token(4) =~= seq!['4']);
    assert(key_token(5) =~= seq!['5']);
    assert(key_token(6) =~= seq!['6']);
    assert(key_token(7) =~= seq!['7']);
    assert(key_token(8) =~= seq!['8']);
    assert(key_token(10) =~= seq!['1', '0']) by {
        reveal_with_fuel(decimal, 2);
    }
    lemma_int_field(t, s, 0, seq!['1'], 0i128, 18446744073709551615i128);
    lemma_text_field(t, s, 1, seq!['2']);
    lemma_int_field(t, s, 2, seq!['3'], 0i128, 18446744073709551615i128);
    lemma_text_field(t, s, 3, seq!['4']);
    lemma_text_field(t, s, 4, seq!['5']);
    lemma_opt_text_field(t, s, 5, seq!['6']);
    lemma_opt_text_field(t, s, 6, seq!['7']);
    lemma_text_field(t, s, 7, seq!['8']);
    lemma_text_field(t, s, 8, seq!['1', '0']);
}

/// Each field of comment authors read from RobTop's format (but the ones that stand apart) holds what is written at its own index.
#[verifier::rlimit(60)]
#[verifier::spinoff_prover]
pub proof fn lemma_comment_user_indices(input: Seq<char>)
    requires
        struct_readable(split(input, comment_user_delimiter()), comment_user_schema(), true),
    ensures
        ({
            let t = split(input, seq!['~']);
            let o = CommentUser::from_fields(struct_values(t, comment_user_schema(), true));
            &&& value_at(t, seq!['1']) == Some(o.name)
            &&& int_at(t, seq!['9'], 0, 65535) == Some(o.icon_index as int)
            &&& int_at(t, seq!['1', '0'], 0, 255) matches Some(v) && o.primary_color == Color::spec_from_proxy(v as u8)
            &&& int_at(t, seq!['1', '1'], 0, 255) matches Some(v) && o.secondary_color == Color::spec_from_proxy(v as u8)
            &&& int_at(t, seq!['1', '4'], 0, 255) matches Some(v) && o.icon_type == IconType::spec_from_proxy(v as u8)
            &&& o.has_glow == flag_at(t, seq!['1', '5'])
            &&& (match o.account_id { Some(x) => Some(x as int), None => None }) == opt_int_at(t, seq!['1', '6'], 0, 18446744073709551615)
        }),
{
    let t = split(input, seq!['~']);
    let s = comment_user_schema();
    assert(comment_user_delimiter() =~= seq!['~']);
    assert(key_token(1) =~= seq!['1']);
    assert(key_token(9) =~= seq!['9']);
    assert(key_token(10) =~= seq!['1', '0']) by {
        reveal_with_fuel(decimal, 2);
    }
    assert(key_token(11) =~= seq!['1', '1']) by {
        reveal_with_fuel(decimal, 2);
    }
    assert(key_token(14) =~= seq!['1', '4']) by {
        reveal_with_fuel(decimal, 2);
    }
    assert(key_token(15) =~= seq!['1', '5']) by {
        reveal_with_fuel(decimal, 2);
    }
    assert(key_token(16) =~= seq!['1', '6']) by {
        reveal_with_fuel(decimal, 2);
    }
    lemma_text_field(t, s, 0, seq!['1']);
    lemma_int_field(t, s, 1, seq!['9'], 0i128, 65535i128);
    lemma_int_field(t, s, 2, seq!['1', '0'], 0i128, 255i128);
    lemma_int_field(t, s, 3, seq!['1', '1'], 0i128, 255i128);
    lemma_int_field(t, s, 4, seq!['1', '4'], 0i128, 255i128);
    lemma_bool_field(t, s, 5, seq!['1', '5']);
    lemma_opt_int_field(t, s, 6, seq!['1', '6'], 0i128, 18446744073709551615i128);
}

/// Each field of level comments read from RobTop's format (but the ones that stand apart) holds what is written at its own index.
#[verifier::rlimit(60)]
#[verifier::spinoff_prover]
pub proof fn lemma_level_comment_indices(input: Seq<char>)
    requires
        struct_readable(split(input, level_comment_delimiter()), level_comment_schema(), true),
    ensures
        ({
            let t = split(input, seq!['~']);
            let o = LevelComment::from_fields(struct_values(t, level_comment_schema(), true));
            &&& o.content == (match opt_text_at(t, seq!['2']) { Some(x) => Some(ThunkView::<Seq<char>>::Unprocessed(x)), None => None })
            &&& int_at(t, seq!['3'], 0, 18446744073709551615) == Some(o.user_id as int)
            &&& int_at(t, seq!['4'], -2147483648, 2147483647) == Some(o.likes as int)
            &&& int_at(t, seq!['6'], 0, 18446744073709551615) == Some(o.comment_id as int)
            &&& o.is_flagged_spam == flag_at(t, seq!['7'])
            &&& value_at(t, seq!['9']) == Some(o.time_since_post)
            &&& (match o.progress { Some(x) => Some(x as int), None => None }) == opt_int_at(t, seq!['1', '0'], 0, 255)
            &&& int_at(t, seq!['1', '1'], 0, 255) matches Some(v) && o.mod_level == ModLevel::spec_from_proxy(v as u8)
            &&& o.special_color == (match opt_text_at(t, seq!['1', '2']) { Some(x) => Some(ThunkView::<Color>::Unprocessed(x)), None => None })
        }),
{
    let t = split(input, seq!['~']);
    let s = level_comment_schema();
    assert(level_comment_delimiter() =~= seq!['~']);
    assert(key_token(2) =~= seq!['2']);
    assert(key_token(3) =~= seq!['3']);
    assert(key_token(4) =~= seq!['4']);
    assert(key_token(6) =~= seq!['6']);
    assert(key_token(7) =~= seq!['7']);
    assert(key_token(9) =~= seq!['9']);
    assert(key_token(10) =~= seq!['1', '0']) by {
        reveal_with_fuel(decimal, 2);
    }
    assert(key_token(11) =~= seq!['1', '1']) by {
        reveal_with_fuel(decimal, 2);
    }
    assert(key_token(12) =~= seq!['1', '2']) by {
        reveal_with_fuel(decimal, 2);
    }
    lemma_opt_text_field(t, s, 0, seq!['2']);
    lemma_int_field(t, s, 1, seq!['3'], 0i128, 18446744073709551615i128);
    lemma_int_field(t, s, 2, seq!['4'], -2147483648i128, 2147483647i128);
    lemma_int_field(t, s, 3, seq!['6'], 0i128, 18446744073709551615i128);
    lemma_bool_field(t, s, 4, seq!['7']);
    lemma_text_field(t, s, 5, seq!['9']);
    lemma_opt_int_field(t, s, 6, seq!['1', '0'], 0i128, 255i128);
    lemma_int_field(t, s, 7, seq!['1', '1'], 0i128, 255i128);
    lemma_opt_text_field(t, s, 8, seq!['1', '2']);
}

/// Each field of profile comments read from RobTop's format (but the ones that stand apart) holds what is written at its own index.
#[verifier::rlimit(60)]
#[verifier::spinoff_prover]
pub proof fn lemma_profile_comment_indices(input: Seq<char>)
    requires
        struct_readable(split(input, profile_comment_delimiter()), profile_comment_schema(), true),
    ensures
        ({
            let t = split(input, seq!['~']);
            let o = ProfileComment::from_fields(struct_values(t, profile_comment_schema(), true));
            &&& o.content == (match opt_text_at(t, seq!['2']) { Some(x) => Some(ThunkView::<Seq<char>>::Unprocessed(x)), None => None })
            &&& int_at(t, seq!['4'], -2147483648, 2147483647) == Some(o.likes as int)
            &&& int_at(t, seq!['6'], 0, 18446744073709551615) == Some(o.comment_id as int)
            &&& value_at(t, seq!['9']) == Some(o.time_since_post)
        }),
{
    let t = split(input, seq!['~']);
    let s = profile_comment_schema();
    assert(profile_comment_delimiter() =~= seq!['~']);
    assert(key_token(2) =~= seq!['2']);
    assert(key_token(4) =~= seq!['4']);
    assert(key_token(6) =~= seq!['6']);
    assert(key_token(9) =~= seq!['9']);
    lemma_opt_text_field(t, s, 0, seq!['2']);
    lemma_int_field(t, s, 1, seq!['4'], -2147483648i128, 2147483647i128);
    lemma_int_field(t, s, 2, seq!['6'], 0i128, 18446744073709551615i128);
    lemma_text_field(t, s, 3, seq!['9']);
}

/// Each field of profiles read from RobTop's format (but the ones that stand apart) holds what is written at its own index.
#[verifier::rlimit(60)]
#[verifier::spinoff_prover]
pub proof fn lemma_profile_indices(input: Seq<char>)
    requires
        struct_readable(split(input, profile_delimiter()), profile_schema(), true),
    ensures
        ({
            let t = split(input, seq![':']);
            let o = Profile::from_fields(struct_values(t, profile_schema(), true));
            &&& value_at(t, seq!['1']) == Some(o.name)
            &&& int_at(t, seq!['2'], 0, 18446744073709551615) == Some(o.user_id as int)
            &&& int_at(t, seq!['3'], 0, 4294967295) == Some(o.stars as int)
            &&& int_at(t, seq!['4'], 0, 65535) == Some(o.demons as int)
            &&& int_at(t, seq!['8'], 0, 65535) == Some(o.creator_points as int)
            &&& int_at(t, seq!['1', '0'], 0, 255) matches Some(v) && o.primary_color == Color::spec_from_proxy(v as u8)
            &&& int_at(t, seq!['1', '1'], 0, 255) matches Some(v) && o.secondary_color == Color::spec_from_proxy(v as u8)
            &&& int_at(t, seq!['1', '3'], 0, 255) == Some(o.secret_coins as int)
            &&& int_at(t, seq!['1', '6'], 0, 18446744073709551615) == Some(o.account_id as int)
            &&& int_at(t, seq!['1', '7'], 0, 65535) == Some(o.user_coins as int)
            &&& value_at(t, seq!['1', '8']) == Some(o.index_18)
            &&& value_at(t, seq!['1', '9']) == Some(o.index_19)
            &&& o.youtube_url == opt_text_at(t, seq!['2', '0'])
            &&& int_at(t, seq!['2', '1'], 0, 65535) == Some(o.cube_index as int)
            &&& int_at(t, seq!['2', '2'], 0, 255) == Some(o.ship_index as int)
            &&& int_at(t, seq!['2', '3'], 0, 255) == Some(o.ball_index as int)
            &&& int_at(t, seq!['2', '4'], 0, 255) == Some(o.ufo_index as int)
            &&& int_at(t, seq!['2', '5'], 0, 255) == Some(o.wave_index as int)
            &&& int_at(t, seq!['2', '6'], 0, 255) == Some(o.robot_index as int)
            &&& o.has_glow == flag_at(t, seq!['2', '8'])
            &&& value_at(t, seq!['2', '9']) == Some(o.index_29)
            &&& (match o.global_rank { Some(x) => Some(x as int), None => None }) == opt_int_at(t, seq!['3', '0'], 0, 4294967295)
            &&& value_at(t, seq!['3', '1']) == Some(o.index_31)
            &&& o.index_38 == opt_text_at(t, seq!['3', '8'])
            &&& o.index_39 == opt_text_at(t, seq!['3', '9'])
            &&& o.index_40 == opt_text_at(t, seq!['4', '0'])
            &&& int_at(t, seq!['4', '3'], 0, 255) == Some(o.spider_index as int)
            &&& o.twitter_url == opt_text_at(t, seq!['4', '4'])
            &&& o.twitch_url == opt_text_at(t, seq!['4', '5'])
            &&& int_at(t, seq!['4', '6'], 0, 65535) == Some(o.diamonds as int)
            &&& int_at(t, seq!['4', '8'], 0, 255) == Some(o.death_effect_index as int)
            &&& int_at(t, seq!['4', '9'], 0, 255) matches Some(v) && o.mod_level == ModLevel::spec_from_proxy(v as u8)
            &&& value_at(t, seq!['5', '0']) == Some(o.index_50)
            &&& value_at(t, seq!['5', '1']) == Some(o.index_51)
            &&& int_at(t, seq!['5', '2'], 0, 4294967295) == Some(o.moons as int)
            &&& int_at(t, seq!['5', '3'], 0, 255) == Some(o.swing_index as int)
            &&& int_at(t, seq!['5', '4'], 0, 255) == Some(o.jetpack_index as int)
        }),
{
    let t = split(input, seq![':']);
    let s = profile_schema();
    assert(profile_delimiter() =~= seq![':']);
    assert(key_token(1) =~= seq!['1']);
    assert(key_token(2) =~= seq!['2']);
    assert(key_token(3) =~= seq!['3']);
    assert(key_token(4) =~= seq!['4']);
    assert(key_token(8) =~= seq!['8']);
    assert(key_token(10) =~= seq!['1', '0']) by {
        reveal_with_fuel(decimal, 2);
    }
    assert(key_token(11) =~= seq!['1', '1']) by {
        reveal_with_fuel(decimal, 2);
    }
    assert(key_token(13) =~= seq!['1', '3']) by {
        reveal_with_fuel(decimal, 2);
    }
    assert(key_token(16) =~= seq!['1', '6']) by {
        reveal_with_fuel(decimal, 2);
    }
    assert(key_token(17) =~= seq!['1', '7']) by {
        reveal_with_fuel(decimal, 2);
    }
    assert(key_token(18) =~= seq!['1', '8']) by {
        reveal_with_fuel(decimal, 2);
    }
    assert(key_token(19) =~= seq!['1', '9']) by {
        reveal_with_fuel(decimal, 2);
    }
    assert(key_token(20) =~= seq!['2', '0']) by {
        reveal_with_fuel(decimal, 2);
    }
    assert(key_token(21) =~= seq!['2', '1']) by {
        reveal_with_fuel(decimal, 2);
    }
    assert(key_token(22) =~= seq!['2', '2']) by {
        reveal_with_fuel(decimal, 2);
    }
    assert(key_token(23) =~= seq!['2', '3']) by {
        reveal_with_fuel(decimal, 2);
    }
    assert(key_token(24) =~= seq!['2', '4']) by {
        reveal_with_fuel(decimal, 2);
    }
    assert(key_token(25) =~= seq!['2', '5']) by {
        reveal_with_fuel(decimal, 2);
    }
    assert(key_token(26) =~= seq!['2', '6']) by {
        reveal_with_fuel(decimal, 2);
    }
    assert(key_token(28) =~= seq!['2', '8']) by {
        reveal_with_fuel(decimal, 2);
    }
    assert(key_token(29) =~= seq!['2', '9']) by {
        reveal_with_fuel(decimal, 2);
    }
    assert(key_token(30) =~= seq!['3', '0']) by {
        reveal_with_fuel(decimal, 2);
    }
    assert(key_token(31) =~= seq!['3', '1']) by {
        reveal_with_fuel(decimal, 2);
    }
    assert(key_token(38) =~= seq!['3', '8']) by {
        reveal_with_fuel(decimal, 2);
    }
    assert(key_token(39) =~= seq!['3', '9']) by {
        reveal_with_fuel(decimal, 2);
    }
    assert(key_token(40) =~= seq!['4', '0']) by {
        reveal_with_fuel(decimal, 2);
    }
    assert(key_token(43) =~= seq!['4', '3']) by {
        reveal_with_fuel(decimal, 2);
    }
    assert(key_token(44) =~= seq!['4', '4']) by {
        reveal_with_fuel(decimal, 2);
    }
    assert(key_token(45) =~= seq!['4', '5']) by {
        reveal_with_fuel(decimal, 2);
    }
    assert(key_token(46) =~= seq!['4', '6']) by {
        reveal_with_fuel(decimal, 2);
    }
    assert(key_token(48) =~= seq!['4', '8']) by {
        reveal_with_fuel(decimal, 2);
    }
    assert(key_token(49) =~= seq!['4', '9']) by {
        reveal_with_fuel(decimal, 2);
    }
    assert(key_token(50) =~= seq!['5', '0']) by {
        reveal_with_fuel(decimal, 2);
    }
    assert(key_token(51) =~= seq!['5', '1']) by {
        reveal_with_fuel(decimal, 2);
    }
    assert(key_token(52) =~= seq!['5', '2']) by {
        reveal_with_fuel(decimal, 2);
    }
    assert(key_token(53) =~= seq!['5', '3']) by {
        reveal_with_fuel(decimal, 2);
    }
    assert(key_token(54) =~= seq!['5', '4']) by {
        reveal_with_fuel(decimal, 2);
    }
    lemma_text_field(t, s, 0, seq!['1']);
    lemma_int_field(t, s, 1, seq!['2'], 0i128, 18446744073709551615i128);
    lemma_int_field(t, s, 2, seq!['3'], 0i128, 4294967295i128);
    lemma_int_field(t, s, 3, seq!['4'], 0i128, 65535i128);
    lemma_int_field(t, s, 4, seq!['8'], 0i128, 65535i128);
    lemma_int_field(t, s, 5, seq!['1', '0'], 0i128, 255i128);
    lemma_int_field(t, s, 6, seq!['1', '1'], 0i128, 255i128);
    lemma_int_field(t, s, 7, seq!['1', '3'], 0i128, 255i128);
    lemma_int_field(t, s, 8, seq!['1', '6'], 0i128, 18446744073709551615i128);
    lemma_int_field(t, s, 9, seq!['1', '7'], 0i128, 65535i128);
    lemma_text_field(t, s, 10, seq!['1', '8']);
    lemma_text_field(t, s, 11, seq!['1', '9']);
    lemma_opt_text_field(t, s, 12, seq!['2', '0']);
    lemma_int_field(t, s, 13, seq!['2', '1'], 0i128, 65535i128);
    lemma_int_field(t, s, 14, seq!['2', '2'], 0i128, 255i128);
    lemma_int_field(t, s, 15, seq!['2', '3'], 0i128, 255i128);
    lemma_int_field(t, s, 16, seq!['2', '4'], 0i128, 255i128);
    lemma_int_field(t, s, 17, seq!['2', '5'], 0i128, 255i128);
    lemma_int_field(t, s, 18, seq!['2', '6'], 0i128, 255i128);
    lemma_bool_field(t, s, 19, seq!['2', '8']);
    lemma_text_field(t, s, 20, seq!['2', '9']);
    lemma_opt_int_field(t, s, 21, seq!['3', '0'], 0i128, 4294967295i128);
    lemma_text_field(t, s, 22, seq!['3', '1']);
    lemma_opt_text_field(t, s, 23, seq!['3', '8']);
    lemma_opt_text_field(t, s, 24, seq!['3', '9']);
    lemma_opt_text_field(t, s, 25, seq!['4', '0']);
    lemma_int_field(t, s, 26, seq!['4', '3'], 0i128, 255i128);
    lemma_opt_text_field(t, s, 27, seq!['4', '4']);
    lemma_opt_text_field(t, s, 28, seq!['4', '5']);
    lemma_int_field(t, s, 29, seq!['4', '6'], 0i128, 65535i128);
    lemma_int_field(t, s, 30, seq!['4', '8'], 0i128, 255i128);
    lemma_int_field(t, s, 31, seq!['4', '9'], 0i128, 255i128);
    lemma_text_field(t, s, 32, seq!['5', '0']);
    lemma_text_field(t, s, 33, seq!['5', '1']);
    lemma_int_field(t, s, 34, seq!['5', '2'], 0i128, 4294967295i128);
    lemma_int_field(t, s, 35, seq!['5', '3'], 0i128, 255i128);
    lemma_int_field(t, s, 36, seq!['5', '4'], 0i128, 255i128);
}

/// Each field of users found by a search read from RobTop's format (but the ones that stand apart) holds what is written at its own index.
#[verifier::rlimit(60)]
#[verifier::spinoff_prover]
pub proof fn lemma_searched_user_indices(input: Seq<char>)
    requires
        struct_readable(split(input, searched_user_delimiter()), searched_user_schema(), true),
    ensures
        ({
            let t = split(input, seq![':']);
            let o = SearchedUser::from_fields(struct_values(t, searched_user_schema(), true));
            &&& value_at(t, seq!['1']) == Some(o.name)
            &&& int_at(t, seq!['2'], 0, 18446744073709551615) == Some(o.user_id as int)
            &&& int_at(t, seq!['3'], 0, 4294967295) == Some(o.stars as int)
            &&& int_at(t, seq!['4'], 0, 65535) == Some(o.demons as int)
            &&& o.index_6 == opt_text_at(t, seq!['6'])
            &&& int_at(t, seq!['8'], 0, 65535) == Some(o.creator_points as int)
            &&& int_at(t, seq!['9'], 0, 65535) == Some(o.icon_index as int)
            &&& int_at(t, seq!['1', '0'], 0, 255) matches Some(v) && o.primary_color == Color::spec_from_proxy(v as u8)
            &&& int_at(t, seq!['1', '1'], 0, 255) matches Some(v) && o.secondary_color == Color::spec_from_proxy(v as u8)
            &&& int_at(t, seq!['1', '3'], 0, 255) == Some(o.secret_coins as int)
            &&& int_at(t, seq!['1', '4'], 0, 255) matches Some(v) && o.icon_type == IconType::spec_from_proxy(v as u8)
            &&& o.has_glow == flag_at(t, seq!['1', '5'])
            &&& int_at(t, seq!['1', '6'], 0, 18446744073709551615) == Some(o.account_id as int)
            &&& int_at(t, seq!['1', '7'], 0, 65535) == Some(o.user_coins as int)
            &&& int_at(t, seq!['5', '2'], 0, 4294967295) == Some(o.moons as int)
        }),
{
    let t = split(input, seq![':']);
    let s = searched_user_schema();
    assert(searched_user_delimiter() =~= seq![':']);
    assert(key_token(1) =~= seq!['1']);
    assert(key_token(2) =~= seq!['2']);
    assert(key_token(3) =~= seq!['3']);
    assert(key_token(4) =~= seq!['4']);
    assert(key_token(6) =~= seq!['6']);
    assert(key_token(8) =~= seq!['8']);
    assert(key_token(9) =~= seq!['9']);
    assert(key_token(10) =~= seq!['1', '0']) by {
        reveal_with_fuel(decimal, 2);
    }
    assert(key_token(11) =~= seq!['1', '1']) by {
        reveal_with_fuel(decimal, 2);
    }
    assert(key_token(13) =~= seq!['1', '3']) by {
        reveal_with_fuel(decimal, 2);
    }
    assert(key_token(14) =~= seq!['1', '4']) by {
        reveal_with_fuel(decimal, 2);
    }
    assert(key_token(15) =~= seq!['1', '5']) by {
        reveal_with_fuel(decimal, 2);
    }
    assert(key_token(16) =~= seq!['1', '6']) by {
        reveal_with_fuel(decimal, 2);
    }
    assert(key_token(17) =~= seq!['1', '7']) by {
        reveal_with_fuel(decimal, 2);
    }
    assert(key_token(52) =~= seq!['5', '2']) by {
        reveal_with_fuel(decimal, 2);
    }
    lemma_text_field(t, s, 0, seq!['1']);
    lemma_int_field(t, s, 1, seq!['2'], 0i128, 18446744073709551615i128);
    lemma_int_field(t, s, 2, seq!['3'], 0i128, 4294967295i128);
    lemma_int_field(t, s, 3, seq!['4'], 0i128, 65535i128);
    lemma_opt_text_field(t, s, 4, seq!['6']);
    lemma_int_field(t, s, 5, seq!['8'], 0i128, 65535i128);
    lemma_int_field(t, s, 6, seq!['9'], 0i128, 65535i128);
    lemma_int_field(t, s, 7, seq!['1', '0'], 0i128, 255i128);
    lemma_int_field(t, s, 8, seq!['1', '1'], 0i128, 255i128);
    lemma_int_field(t, s, 9, seq!['1', '3'], 0i128, 255i128);
    lemma_int_field(t, s, 10, seq!['1', '4'], 0i128, 255i128);
    lemma_bool_field(t, s, 11, seq!['1', '5']);
    lemma_int_field(t, s, 12, seq!['1', '6'], 0i128, 18446744073709551615i128);
    lemma_int_field(t, s, 13, seq!['1', '7'], 0i128, 65535i128);
    lemma_int_field(t, s, 14, seq!['5', '2'], 0i128, 4294967295i128);
}

/// Each plain field of a listed level read from RobTop's format holds what is written at its own index.
#[verifier::rlimit(60)]
#[verifier::spinoff_prover]
pub proof fn lemma_listed_level_indices(input: Seq<char>)
    requires
        struct_readable(split(input, level_delimiter()), level_schema(), true),
    ensures
        ({
            let t = split(input, seq![':']);
            let o = listed_level_from_fields(struct_values(t, level_schema(), true));
            &&& int_at(t, seq!['1'], 0, 18446744073709551615) == Some(o.level_id as int)
            &&& value_at(t, seq!['2']) == Some(o.name)
            &&& int_at(t, seq!['5'], 0, 4294967295) == Some(o.version as int)
            &&& int_at(t, seq!['6'], 0, 18446744073709551615) == Some(o.creator as int)
            &&& int_at(t, seq!['1', '0'], 0, 4294967295) == Some(o.downloads as int)
            &&& int_at(t, seq!['1', '4'], -2147483648, 2147483647) == Some(o.likes as int)
            &&& int_at(t, seq!['1', '8'], 0, 255) == Some(o.stars as int)
            &&& (match o.copy_of { Some(x) => Some(x as int), None => None }) == nonzero_int_at(t, seq!['3', '0'], 18446744073709551615)
            &&& o.two_player == flag_at(t, seq!['3', '1'])
            &&& (match o.custom_song { Some(x) => Some(x as int), None => None }) == nonzero_int_at(t, seq!['3', '5'], 18446744073709551615)
            &&& int_at(t, seq!['3', '7'], 0, 255) == Some(o.coin_amount as int)
            &&& o.coins_verified == flag_at(t, seq!['3', '8'])
            &&& (match o.stars_requested { Some(x) => Some(x as int), None => None }) == nonzero_int_at(t, seq!['3', '9'], 255)
            &&& o.is_epic == flag_at(t, seq!['4', '2'])
            &&& (match o.object_amount { Some(x) => Some(x as int), None => None }) == nonzero_int_at(t, seq!['4', '5'], 4294967295)
            &&& o.index_46 == opt_text_at(t, seq!['4', '6'])
            &&& o.index_47 == opt_text_at(t, seq!['4', '7'])
        }),
{
    let t = split(input, seq![':']);
    let s = level_schema();
    assert(level_delimiter() =~= seq![':']);
    assert(key_token(1) =~= seq!['1']);
    assert(key_token(2) =~= seq!['2']);
    assert(key_token(5) =~= seq!['5']);
    assert(key_token(6) =~= seq!['6']);
    assert(key_token(10) =~= seq!['1', '0']) by {
        reveal_with_fuel(decimal, 2);
    }
    assert(key_token(14) =~= seq!['1', '4']) by {
        reveal_with_fuel(decimal, 2);
    }
    assert(key_token(18) =~= seq!['1', '8']) by {
        reveal_with_fuel(decimal, 2);
    }
    assert(key_token(30) =~= seq!['3', '0']) by {
        reveal_with_fuel(decimal, 2);
    }
    assert(key_token(31) =~= seq!['3', '1']) by {
        reveal_with_fuel(decimal, 2);
    }
    assert(key_token(35) =~= seq!['3', '5']) by {
        reveal_with_fuel(decimal, 2);
    }
    assert(key_token(37) =~= seq!['3', '7']) by {
        reveal_with_fuel(decimal, 2);
    }
    assert(key_token(38) =~= seq!['3', '8']) by {
        reveal_with_fuel(decimal, 2);
    }
    assert(key_token(39) =~= seq!['3', '9']) by {
        reveal_with_fuel(decimal, 2);
    }
    assert(key_token(42) =~= seq!['4', '2']) by {
        reveal_with_fuel(decimal, 2);
    }
    assert(key_token(45) =~= seq!['4', '5']) by {
        reveal_with_fuel(decimal, 2);
    }
    assert(key_token(46) =~= seq!['4', '6']) by {
        reveal_with_fuel(decimal, 2);
    }
    assert(key_token(47) =~= seq!['4', '7']) by {
        reveal_with_fuel(decimal, 2);
    }
    lemma_int_field(t, s, 0, seq!['1'], 0i128, 18446744073709551615i128);
    lemma_text_field(t, s, 1, seq!['2']);
    lemma_int_field(t, s, 3, seq!['5'], 0i128, 4294967295i128);
    lemma_int_field(t, s, 4, seq!['6'], 0i128, 18446744073709551615i128);
    lemma_int_field(t, s, 9, seq!['1', '0'], 0i128, 4294967295i128);
    lemma_int_field(t, s, 12, seq!['1', '4'], -2147483648i128, 2147483647i128);
    lemma_int_field(t, s, 14, seq!['1', '8'], 0i128, 255i128);
    lemma_nonzero_int_field(t, s, 16, seq!['3', '0'], 18446744073709551615i128);
    lemma_bool_field(t, s, 17, seq!['3', '1']);
    lemma_nonzero_int_field(t, s, 18, seq!['3', '5'], 18446744073709551615i128);
    lemma_int_field(t, s, 19, seq!['3', '7'], 0i128, 255i128);
    lemma_bool_field(t, s, 20, seq!['3', '8']);
    lemma_nonzero_int_field(t, s, 21, seq!['3', '9'], 255i128);
    lemma_bool_field(t, s, 22, seq!['4', '2']);
    lemma_nonzero_int_field(t, s, 24, seq!['4', '5'], 4294967295i128);
    lemma_opt_text_field(t, s, 25, seq!['4', '6']);
    lemma_opt_text_field(t, s, 26, seq!['4', '7']);
}

/// Each plain field of a level downloaded in full read from RobTop's format holds what is written at its own index.
#[verifier::rlimit(60)]
#[verifier::spinoff_prover]
pub proof fn lemma_full_level_indices(input: Seq<char>)
    requires
        struct_readable(split(input, level_delimiter()), level_schema(), true),
    ensures
        ({
            let t = split(input, seq![':']);
            let o = full_level_from_fields(struct_values(t, level_schema(), true));
            &&& int_at(t, seq!['1'], 0, 18446744073709551615) == Some(o.level_id as int)
            &&& value_at(t, seq!['2']) == Some(o.name)
            &&& int_at(t, seq!['5'], 0, 4294967295) == Some(o.version as int)
            &&& int_at(t, seq!['6'], 0, 18446744073709551615) == Some(o.creator as int)
            &&& int_at(t, seq!['1', '0'], 0, 4294967295) == Some(o.downloads as int)
            &&& int_at(t, seq!['1', '4'], -2147483648, 2147483647) == Some(o.likes as int)
            &&& int_at(t, seq!['1', '8'], 0, 255) == Some(o.stars as int)
            &&& (match o.copy_of { Some(x) => Some(x as int), None => None }) == nonzero_int_at(t, seq!['3', '0'], 18446744073709551615)
            &&& o.two_player == flag_at(t, seq!['3', '1'])
            &&& (match o.custom_song { Some(x) => Some(x as int), None => None }) == nonzero_int_at(t, seq!['3', '5'], 18446744073709551615)
            &&& int_at(t, seq!['3', '7'], 0, 255) == Some(o.coin_amount as int)
            &&& o.coins_verified == flag_at(t, seq!['3', '8'])
            &&& (match o.stars_requested { Some(x) => Some(x as int), None => None }) == nonzero_int_at(t, seq!['3', '9'], 255)
            &&& o.is_epic == flag_at(t, seq!['4', '2'])
            &&& (match o.object_amount { Some(x) => Some(x as int), None => None }) == nonzero_int_at(t, seq!['4', '5'], 4294967295)
            &&& o.index_46 == opt_text_at(t, seq!['4', '6'])
            &&& o.index_47 == opt_text_at(t, seq!['4', '7'])
        }),
{
    let t = split(input, seq![':']);
    let s = level_schema();
    assert(level_delimiter() =~= seq![':']);
    assert(key_token(1) =~= seq!['1']);
    assert(key_token(2) =~= seq!['2']);
    assert(key_token(5) =~= seq!['5']);
    assert(key_token(6) =~= seq!['6']);
    assert(key_token(10) =~= seq!['1', '0']) by {
        reveal_with_fuel(decimal, 2);
    }
    assert(key_token(14) =~= seq!['1', '4']) by {
        reveal_with_fuel(decimal, 2);
    }
    assert(key_token(18) =~= seq!['1', '8']) by {
        reveal_with_fuel(decimal, 2);
    }
    assert(key_token(30) =~= seq!['3', '0']) by {
        reveal_with_fuel(decimal, 2);
    }
    assert(key_token(31) =~= seq!['3', '1']) by {
        reveal_with_fuel(decimal, 2);
    }
    assert(key_token(35) =~= seq!['3', '5']) by {
        reveal_with_fuel(decimal, 2);
    }
    assert(key_token(37) =~= seq!['3', '7']) by {
        reveal_with_fuel(decimal, 2);
    }
    assert(key_token(38) =~= seq!['3', '8']) by {
        reveal_with_fuel(decimal, 2);
    }
    assert(key_token(39) =~= seq!['3', '9']) by {
        reveal_with_fuel(decimal, 2);
    }
    assert(key_token(42) =~= seq!['4', '2']) by {
        reveal_with_fuel(decimal, 2);
    }
    assert(key_token(45) =~= seq!['4', '5']) by {
        reveal_with_fuel(decimal, 2);
    }
    assert(key_token(46) =~= seq!['4', '6']) by {
        reveal_with_fuel(decimal, 2);
    }
    assert(key_token(47) =~= seq!['4', '7']) by {
        reveal_with_fuel(decimal, 2);
    }
    lemma_int_field(t, s, 0, seq!['1'], 0i128, 18446744073709551615i128);
    lemma_text_field(t, s, 1, seq!['2']);
    lemma_int_field(t, s, 3, seq!['5'], 0i128, 4294967295i128);
    lemma_int_field(t, s, 4, seq!['6'], 0i128, 18446744073709551615i128);
    lemma_int_field(t, s, 9, seq!['1', '0'], 0i128, 4294967295i128);
    lemma_int_field(t, s, 12, seq!['1', '4'], -2147483648i128, 2147483647i128);
    lemma_int_field(t, s, 14, seq!['1', '8'], 0i128, 255i128);
    lemma_nonzero_int_field(t, s, 16, seq!['3', '0'], 18446744073709551615i128);
    lemma_bool_field(t, s, 17, seq!['3', '1']);
    lemma_nonzero_int_field(t, s, 18, seq!['3', '5'], 18446744073709551615i128);
    lemma_int_field(t, s, 19, seq!['3', '7'], 0i128, 255i128);
    lemma_bool_field(t, s, 20, seq!['3', '8']);
    lemma_nonzero_int_field(t, s, 21, seq!['3', '9'], 255i128);
    lemma_bool_field(t, s, 22, seq!['4', '2']);
    lemma_nonzero_int_field(t, s, 24, seq!['4', '5'], 4294967295i128);
    lemma_opt_text_field(t, s, 25, seq!['4', '6']);
    lemma_opt_text_field(t, s, 26, seq!['4', '7']);
}

} // verus!
