use std::collections::HashMap;

use dash_rs::encoding::{percent_encode, EncodeSet};
use dash_rs::model::level::object::Speed;
use dash_rs::model::level::{Featured, LevelLength};
use dash_rs::model::user::{Color, IconType, ModLevel};
use dash_rs::model::GameVersion;
use dash_rs::serde::de::indexed::IndexedDeserializer;
use dash_rs::serde::ser::indexed::IndexedSerializer;
use dash_rs::serde::thunk::{PercentDecoder, ThunkProcessor};
use dash_rs::serde::InternalProxy;
use dash_rs::util::default_to_none;
use dash_rs::util::{cyclic_xor, false_to_empty_string, option_variant_eq, true_to_ten, true_to_two};

const INPUT: &str = "1:hello:2:world";

#[test]
fn test_deserialize_map_like_to_hashmap() {
    let deserializer = IndexedDeserializer::new(INPUT, ":", true);

    let map: HashMap<String, String> = deserializer.read_pairs().into_iter().collect();

    assert_eq!(map.len(), 2);
    assert_eq!(map.get("1").map(String::as_str), Some("hello"));
    assert_eq!(map.get("2").map(String::as_str), Some("world"));
}

#[test]
fn test_deserialize_map_like_last_empty() {
    let deserializer = IndexedDeserializer::new("1:hello:2:", ":", true);

    let map: HashMap<String, String> = deserializer.read_pairs().into_iter().collect();

    assert_eq!(map.len(), 2);
    assert_eq!(map.get("1").map(String::as_str), Some("hello"));
    assert_eq!(map.get("2").map(String::as_str), Some(""));
}

#[test]
fn test_deserialize_to_vec() {
    let deserializer = IndexedDeserializer::new(INPUT, ":", false);

    let vec = deserializer.read_tokens();

    assert_eq!(vec, INPUT.split(':').map(str::to_string).collect::<Vec<_>>())
}

#[test]
fn indexed_serializer_appends_with_delimiters() {
    let mut ser = IndexedSerializer::new("~|~", true);
    ser.append("a").unwrap();
    ser.append_integer(-5).unwrap();
    ser.serialize_bool(true).unwrap();
    ser.serialize_none().unwrap();
    ser.append("b").unwrap();
    assert_eq!(ser.into_output(), "a~|~-5~|~1~|~~|~b");
}

#[test]
fn cyclic_xor_twice_restores_data() {
    let mut data = b"1123456".to_vec();
    cyclic_xor(&mut data, b"26364");
    assert_eq!(data, vec![3, 7, 1, 5, 0, 7, 0]);
    cyclic_xor(&mut data, b"26364");
    assert_eq!(data, b"1123456".to_vec());
    let mut unchanged = b"abc".to_vec();
    cyclic_xor(&mut unchanged, b"");
    assert_eq!(unchanged, b"abc".to_vec());
}

#[test]
fn option_variant_eq_compares_variants() {
    assert!(option_variant_eq::<u8, u8>(&None, &None));
    assert!(option_variant_eq(&Some(1u8), &Some(1u8)));
    assert!(!option_variant_eq(&Some(1u8), &Some(2u8)));
    assert!(!option_variant_eq(&Some(1u8), &None));
}

#[test]
fn boolean_and_default_to_none_tokens() {
    assert_eq!(false_to_empty_string(true), "1");
    assert_eq!(false_to_empty_string(false), "");
    assert_eq!(true_to_two(true), "2");
    assert_eq!(true_to_two(false), "0");
    assert_eq!(true_to_ten(true), "10");
    assert_eq!(true_to_ten(false), "0");
    assert_eq!(default_to_none::serialize::<i128>(None), 0);
    assert_eq!(default_to_none::serialize::<String>(None), "");
    assert_eq!(default_to_none::deserialize(String::new()), None);
    assert_eq!(default_to_none::deserialize(12u64), Some(12u64));
    assert_eq!(default_to_none::serialize(Some(7)), 7);
    assert_eq!(default_to_none::deserialize(0), None);
    assert_eq!(default_to_none::deserialize(7), Some(7));
}

#[test]
fn enum_conversions_roundtrip() {
    for i in 0..=255u8 {
        assert_eq!(u8::from(ModLevel::from(i)), i);
        assert_eq!(u8::from(IconType::from(i)), i);
        assert_eq!(u8::from(Color::from(i)), i);
        assert_eq!(u8::from(Speed::from(i)), i);
        assert_eq!(u8::from(GameVersion::from(i)), i);
    }
    assert_eq!(ModLevel::from(2), ModLevel::Elder);
    assert_eq!(Color::from(16), Color::Known(0, 200, 255));
    assert_eq!(Color::from(42), Color::Unknown(42));
    assert_eq!(u8::from(Color::Known(1, 2, 3)), 0);
    assert_eq!(GameVersion::from(10), GameVersion::Unknown);
    assert_eq!(GameVersion::from(21), GameVersion::Version { major: 2, minor: 1 });
    assert_eq!(u8::from(GameVersion::Version { major: 30, minor: 0 }), 44);
    assert_eq!(GameVersion::from(7).to_display_string(), "1.6");
    assert_eq!(GameVersion::from(22).to_display_string(), "2.2");
    assert_eq!(GameVersion::Unknown.to_display_string(), "Pre 1.6");
    for v in [i32::MIN, -2, -1, 0, 1, 5, 6, i32::MAX] {
        assert_eq!(i32::from(Featured::from(v)), v);
        assert_eq!(LevelLength::from_deserialize_proxy(v).to_serialize_proxy(), v);
    }
    assert_eq!(Featured::from(-1), Featured::Unfeatured);
    assert_eq!(Speed::default(), Speed::Normal);
}

#[test]
fn percent_encoding_sets() {
    assert_eq!(percent_encode("a b:c/d?e~f%", EncodeSet::Robtop), "a%20b%3Ac%2Fd%3Fe%7Ef%");
    assert_eq!(percent_encode("a-b_c.d", EncodeSet::NonAlphanumeric), "a%2Db%5Fc%2Ed");
    assert_eq!(percent_encode("ä", EncodeSet::Robtop), "%C3%A4");
    assert_eq!(<PercentDecoder as ThunkProcessor>::from_unprocessed("a%3Ab%3ac").unwrap(), "a:b:c");
}
