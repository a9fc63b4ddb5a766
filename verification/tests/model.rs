use dash_rs::model::comment::{CommentUser, LevelComment, ProfileComment};
use dash_rs::model::creator::{Creator, RawCreator};
use dash_rs::model::level::data::{Level, LevelData};
use dash_rs::model::level::objects::{LevelProcessError, Objects};
use dash_rs::model::level::object::{ObjectData, Speed};
use dash_rs::model::level::password::{robtop_encode_level_password, Password};
use dash_rs::model::level::section::{read_metadata_fields, read_object_fields, FieldError};
use dash_rs::model::level::{DemonRating, Featured, LevelLength, LevelRating};
use dash_rs::model::song::{from_str, MainSong, NewgroundsSong, RawNewgroundsSong};
use dash_rs::model::user::profile::{Profile, Twitch, Twitter, Youtube};
use dash_rs::model::user::searched::SearchedUser;
use dash_rs::model::user::{Color, IconType, ModLevel};
use dash_rs::model::GameVersion;
use dash_rs::serde::thunk::{Base64Decoder, PercentDecoded, ProcessError, Thunk, ThunkProcessor};

use base64::{engine::general_purpose::URL_SAFE, Engine};
use std::io::Write;

#[test]
fn deserialize_password() {
    assert_eq!(Password::from_robtop("AwcBBQAHAA==").unwrap(), Password::PasswordCopy(123456));
    assert_eq!(Password::from_robtop("AwUCBgU=").unwrap(), Password::PasswordCopy(3101));
    assert_eq!(Password::from_robtop("AwYDBgQCBg==").unwrap(), Password::PasswordCopy(0));
    assert_eq!(Password::from_robtop("Aw==").unwrap(), Password::FreeCopy);
    assert_eq!(Password::from_robtop("0").unwrap(), Password::NoCopy);
}

#[test]
fn serialize_password() {
    let encoded = robtop_encode_level_password(123456);
    let result = URL_SAFE.encode(&encoded);

    assert_eq!(result, "AwcBBQAHAA==")
}

#[test]
fn serialize_password_with_padding() {
    // password of 'Time Pressure' by AeonAir
    assert_eq!(URL_SAFE.encode(&robtop_encode_level_password(3101)), "AwYDBQUCBw==");
    // password of 'Breakthrough' by Hinds1324
    assert_eq!(URL_SAFE.encode(&robtop_encode_level_password(0)), "AwYDBgQCBg==")
}

#[test]
fn password_thunk_roundtrip_and_errors() {
    let raw = <Password as ThunkProcessor>::as_unprocessed(&Password::PasswordCopy(123456)).unwrap();
    assert_eq!(raw, "AwcBBQAHAA==");
    assert_eq!(Password::from_robtop(&raw).unwrap(), Password::PasswordCopy(123456));
    assert_eq!(<Password as ThunkProcessor>::as_unprocessed(&Password::FreeCopy).unwrap(), "Aw==");
    assert_eq!(<Password as ThunkProcessor>::as_unprocessed(&Password::NoCopy).unwrap(), "0");
    assert_eq!(
        <Password as ThunkProcessor>::as_unprocessed(&Password::PasswordCopy(1_000_000)).unwrap_err(),
        ProcessError::Unrepresentable
    );
    assert_eq!(Password::from_robtop("not base64!").unwrap_err(), ProcessError::Base64);
    assert_eq!(Password::PasswordCopy(42).to_display_string(), "000042");
    assert_eq!(Password::PasswordCopy(1234567).to_display_string(), "1234567");
    assert_eq!(Password::NoCopy.to_display_string(), "No Copy");
    assert_eq!(Password::FreeCopy.to_display_string(), "Free Copy");
}

const CREO_DUNE_DATA_TOO_MANY_FIELDS: &str = "1~|~771277~|~54~|~should be ignored~|~2~|~Creo - \
                                              Dune~|~3~|~50531~|~4~|~CreoMusic~|~5~|~8.\
                                              03~|~6~|~~|~7~|~UCsCWA3Y3JppL6feQiMRgm6Q~|~8~|~1~|~10~|~https%3A%2F%2Faudio.ngfiles.com%\
                                              2F771000%2F771277_Creo---Dune.mp3%3Ff1508708604~|~9~|~should be ignored";

const CREATOR_REGISTERED_DATA_TOO_MANY_FIELDS: &str = "4170784:Serponge:119741:34:fda:32:asd:3";

#[test]
fn deserialize_too_many_fields() {
    // Superfluous fields should just be ignored
    RawNewgroundsSong::from_gj_str(CREO_DUNE_DATA_TOO_MANY_FIELDS).unwrap();
    Creator::from_gj_str(CREATOR_REGISTERED_DATA_TOO_MANY_FIELDS).unwrap();
}

#[test]
fn serialize_creo_dune() {
    let song = NewgroundsSong {
        song_id: 771277,
        name: "Creo - Dune".to_string(),
        index_3: 50531,
        artist: "CreoMusic".to_owned(),
        filesize: "9.03".to_string(),
        index_6: None,
        index_7: Some("UCsCWA3Y3JppL6feQiMRgm6Q".to_string()),
        index_8: "1".to_string(),
        link: "https://audio.ngfiles.com/771000/771277_Creo---Dune.mp3?f1508708604".to_string(),
    };

    let written = song.as_raw().write_gj();
    assert!(written.is_ok());
    assert_eq!(
        written.unwrap(),
        "1~|~771277~|~2~|~Creo - \
         Dune~|~3~|~50531~|~4~|~CreoMusic~|~5~|~9.03~|~6~|~~|~7~|~UCsCWA3Y3JppL6feQiMRgm6Q~|~8~|~1~|~10~|~https%3A%2F%2Faudio%\
         2Engfiles%2Ecom%2F771000%2F771277%5FCreo%2D%2D%2DDune%2Emp3%3Ff1508708604"
    );
}

#[test]
fn song_read_and_owned() {
    let raw = from_str(CREO_DUNE_DATA_TOO_MANY_FIELDS).unwrap();
    assert_eq!(raw.song_id, 771277);
    assert_eq!(raw.name, "Creo - Dune");
    assert_eq!(raw.filesize, "8.03");
    assert_eq!(raw.index_6, None);
    assert_eq!(raw.index_7.as_deref(), Some("UCsCWA3Y3JppL6feQiMRgm6Q"));
    let owned = raw.to_owned().unwrap();
    assert_eq!(owned.link, "https://audio.ngfiles.com/771000/771277_Creo---Dune.mp3?f1508708604");
    // a file size that is not a number cannot be read
    assert!(RawNewgroundsSong::from_gj_str("1~|~1~|~2~|~a~|~3~|~1~|~4~|~b~|~5~|~big~|~8~|~1~|~10~|~x").is_err());
    // a missing required field cannot be read
    assert!(RawNewgroundsSong::from_gj_str("1~|~1~|~2~|~a").is_err());
}

#[test]
fn creator_read_and_write() {
    let creator = Creator::from_gj_str("4170784:Serponge:119741").unwrap();
    assert_eq!(creator, Creator { user_id: 4170784, name: "Serponge".to_string(), account_id: Some(119741) });
    let unregistered = Creator::from_gj_str("1:Guest:0").unwrap();
    assert_eq!(unregistered.account_id, None);
    assert_eq!(unregistered.write_gj().unwrap(), "1:Guest:0");
    assert_eq!(creator.write_gj().unwrap(), "4170784:Serponge:119741");
    let raw: RawCreator = creator.as_raw();
    assert_eq!(raw.to_owned(), creator.clone().into_owned());
    assert!(Creator::from_gj_str("x:Serponge:1").is_err());
    assert!(Creator::from_gj_str("1:Serponge").is_err());
}

#[test]
fn comment_user_read_and_write() {
    let input = "1~Serponge~9~4~10~12~11~12~14~1~15~2~16~119741";
    let user = CommentUser::from_gj_str(input).unwrap();
    assert_eq!(user.name, "Serponge");
    assert_eq!(user.icon_index, 4);
    assert_eq!(user.primary_color, Color::Known(255, 255, 255));
    assert_eq!(user.icon_type, IconType::Ship);
    assert!(user.has_glow);
    assert_eq!(user.account_id, Some(119741));
    assert_eq!(user.write_gj().unwrap(), input);
    assert_eq!(CommentUser::from_gj_str(&user.write_gj().unwrap()).unwrap(), user);
}

#[test]
fn level_comment_read_process_and_write() {
    let input = "2~SGVsbG8gd29ybGQ=~3~16~4~-2~6~9001~7~0~9~2 days~10~~11~2~12~255,0,125";
    let mut comment = LevelComment::from_gj_str(input).unwrap();
    assert!(comment.user.is_none());
    assert_eq!(comment.likes, -2);
    assert_eq!(comment.progress, None);
    assert_eq!(comment.mod_level, ModLevel::Elder);
    assert_eq!(comment.write_gj().unwrap(), input);
    let text = comment.content.as_mut().unwrap().process().unwrap().clone();
    assert_eq!(text, "Hello world");
    let color = comment.special_color.as_mut().unwrap().process().unwrap().clone();
    assert_eq!(color, Color::Known(255, 0, 125));
    // processed thunks are written back in RobTop's format
    assert_eq!(comment.write_gj().unwrap(), input);
    comment.special_color = Some(Thunk::Processed(Color::Unknown(3)));
    assert!(comment.write_gj().is_err());
}

#[test]
fn profile_comment_read() {
    let comment = ProfileComment::from_gj_str("2~SGk=~4~10~6~77~9~1 hour").unwrap();
    assert_eq!(comment.comment_id, 77);
    assert_eq!(comment.time_since_post, "1 hour");
    assert_eq!(comment.content.clone().unwrap().into_processed().unwrap(), "Hi");
    assert!(ProfileComment::from_gj_str("2~SGk=~4~10~6~77").is_err());
}

#[test]
fn searched_user_read_and_write() {
    let input = "1:Michigun:2:703929:3:19453:4:232:6::8:16:9:7:10:0:11:3:13:149:14:0:15:2:16:34499:17:1026:52:0";
    let user = SearchedUser::from_gj_str(input).unwrap();
    assert_eq!(user.user_id, 703929);
    assert_eq!(user.index_6, None);
    assert_eq!(user.primary_color, Color::Known(125, 255, 0));
    assert_eq!(user.icon_type, IconType::Cube);
    assert_eq!(user.write_gj().unwrap(), input);
}

#[test]
fn profile_read_and_write() {
    let input = "1:stadust:2:4170784:3:100:4:2:8:0:10:1:11:3:13:10:16:8451:17:2:18:0:19:0:20:UCxyz:21:5:22:1:23:2:24:3:25:4:\
                 26:5:28:1:29:1:30::31:0:43:6:44::45:stadust_tv:46:50:48:3:49:0:50:0:51:0:52:12:53:1:54:2";
    let profile = Profile::from_gj_str(input).unwrap();
    assert_eq!(profile.name, "stadust");
    assert_eq!(profile.youtube_url, Some(Youtube("UCxyz".to_string())));
    assert_eq!(profile.twitter_url, None);
    assert_eq!(profile.twitch_url, Some(Twitch("stadust_tv".to_string())));
    assert_eq!(profile.global_rank, None);
    assert_eq!(profile.index_38, None);
    assert_eq!(profile.mod_level, ModLevel::NotMod);
    assert_eq!(profile.write_gj().unwrap(), input);
    assert_eq!(Youtube("abc".to_string()).to_url(), "https://www.youtube.com/channel/abc");
    assert_eq!(Twitch("abc".to_string()).to_url(), "https://www.twitch.tv/abc");
    assert_eq!(Twitter("abc".to_string()).to_url(), "https://www.twitter.com/abc");
}

const LISTED_LEVEL: &str = "1:123:2:Name:3:ZGVzYw==:5:1:6:42:25::8:10:9:30:17:1:10:100:12:5:13:21:14:-3:15:2:18:10:19:7:\
                            30:0:31:0:35:0:37:3:38:1:39:0:42:1:43:0:45:0:46::47:";

#[test]
fn listed_level_read_and_write() {
    let level = Level::<(), Option<u64>, u64>::from_gj_str(LISTED_LEVEL).unwrap();
    assert_eq!(level.level_id, 123);
    assert_eq!(level.difficulty, LevelRating::Demon(DemonRating::Hard));
    assert!(level.difficulty.is_demon());
    assert_eq!(level.main_song, Some(MainSong::from_id(5)));
    assert_eq!(level.main_song.unwrap().name, "Can't Let Go");
    assert_eq!(level.gd_version, GameVersion::Version { major: 2, minor: 1 });
    assert_eq!(level.length, LevelLength::Medium);
    assert!(!level.is_platformer());
    assert_eq!(level.featured, Featured::Featured(7));
    assert_eq!(level.custom_song, None);
    assert_eq!(level.copy_of, None);
    assert!(level.is_epic);
    assert_eq!(level.index_46, None);
    let written = level.write_gj().unwrap();
    assert_eq!(written, LISTED_LEVEL);
    assert_eq!(Level::<(), Option<u64>, u64>::from_gj_str(&written).unwrap(), level);
    assert_eq!(level.description.clone().unwrap().into_processed().unwrap(), "desc");
}

#[test]
fn level_ratings_from_flags() {
    let not_rated = LISTED_LEVEL.replace("8:10", "8:0");
    assert_eq!(Level::<(), Option<u64>, u64>::from_gj_str(&not_rated).unwrap().difficulty, LevelRating::NotAvailable);
    let auto = LISTED_LEVEL.replace("25::", "25:1:");
    assert_eq!(Level::<(), Option<u64>, u64>::from_gj_str(&auto).unwrap().difficulty, LevelRating::Auto);
    let hard = LISTED_LEVEL.replace("17:1", "17:0");
    assert_eq!(Level::<(), Option<u64>, u64>::from_gj_str(&hard).unwrap().difficulty, LevelRating::Hard);
    let custom = LISTED_LEVEL.replace("35:0", "35:771277");
    let level = Level::<(), Option<u64>, u64>::from_gj_str(&custom).unwrap();
    assert_eq!(level.custom_song, Some(771277));
    assert_eq!(level.main_song, None);
}

#[test]
fn auto_level_write_and_read_back() {
    let mut level = Level::<(), Option<u64>, u64>::from_gj_str(LISTED_LEVEL).unwrap();
    level.difficulty = LevelRating::Auto;
    let written = level.write_gj().unwrap();
    assert!(written.contains(":25:1:8:10:9:0:17::"));
    assert_eq!(Level::<(), Option<u64>, u64>::from_gj_str(&written).unwrap().difficulty, LevelRating::Auto);
    assert_eq!(Level::<(), Option<u64>, u64>::from_gj_str(&written).unwrap(), level);
}

#[test]
fn full_level_read_and_missing_data() {
    let objects = Objects { meta: "kA13,0,kA15,0".to_string(), objects: vec!["1,1,2,15,3,15".to_string()] };
    let data = <Objects as ThunkProcessor>::as_unprocessed(&objects).unwrap();
    let input = format!("{}:4:{}:27:AwcBBQAHAA==:28:1 day:29:2 days", LISTED_LEVEL, data);
    let mut level = Level::<LevelData, Option<u64>, u64>::from_gj_str(&input).unwrap();
    assert_eq!(level.level_data.time_since_upload, "1 day");
    assert_eq!(level.level_data.index_36, "");
    assert_eq!(level.level_data.password.process().unwrap(), &mut Password::PasswordCopy(123456));
    assert_eq!(level.level_data.level_data.process().unwrap(), &mut objects.clone());
    let written = level.write_gj().unwrap();
    let reread = Level::<LevelData, Option<u64>, u64>::from_gj_str(&written).unwrap();
    assert_eq!(reread.level_data.level_data.into_processed().unwrap(), objects);
    assert!(Level::<LevelData, Option<u64>, u64>::from_gj_str(LISTED_LEVEL).is_err());
}

#[test]
fn objects_processing_errors() {
    assert_eq!(<Objects as ThunkProcessor>::from_unprocessed("not base64!").unwrap_err(), LevelProcessError::Base64);
    // "abc" is neither gzip nor zlib compressed
    assert_eq!(<Objects as ThunkProcessor>::from_unprocessed("YWJj").unwrap_err(), LevelProcessError::UnknownCompression);
    let empty = Objects { meta: String::new(), objects: vec![] };
    let raw = <Objects as ThunkProcessor>::as_unprocessed(&empty).unwrap();
    assert_eq!(<Objects as ThunkProcessor>::from_unprocessed(&raw).unwrap(), empty);
}

#[test]
fn level_text_sections() {
    let objects = Objects::from_level_text("kA4,2;1,200,2,15,3,0;1,1,2,30,3,1.5;").unwrap();
    assert_eq!(objects.meta, "kA4,2");
    assert_eq!(objects.objects, vec!["1,200,2,15,3,0".to_string(), "1,1,2,30,3,1.5".to_string()]);
    assert_eq!(objects.to_level_text(), "kA4,2;1,200,2,15,3,0;1,1,2,30,3,1.5;");
    let unterminated = Objects::from_level_text("kA4,2;1,1,2,0,3,0").unwrap();
    assert_eq!(unterminated.objects, vec!["1,1,2,0,3,0".to_string()]);
    assert_eq!(Objects::from_level_text("").unwrap_err(), LevelProcessError::MissingMetadata);
    let empty_meta = Objects::from_level_text(";").unwrap();
    assert_eq!(empty_meta.meta, "");
    assert!(empty_meta.objects.is_empty());
    // an object section without its id, or with a position that is not a number, is refused
    assert!(matches!(Objects::from_level_text("kA4,2;2,15,3,0;"), Err(LevelProcessError::Deserialize(_))));
    assert!(matches!(Objects::from_level_text("kA4,2;1,1,2,x,3,0;"), Err(LevelProcessError::Deserialize(_))));
    assert!(matches!(Objects::from_level_text("kA4,300;"), Err(LevelProcessError::Deserialize(_))));
}

#[test]
fn object_section_fields() {
    let fields = read_object_fields("1,201,2,15.5,3,-2,4,1,13,1,99,abc").unwrap();
    assert_eq!(fields.id, 201);
    assert_eq!(fields.x, "15.5");
    assert_eq!(fields.y, "-2");
    assert_eq!(fields.rotation, "0");
    assert!(fields.flipped_x);
    assert!(!fields.flipped_y);
    assert_eq!(fields.metadata, ObjectData::SpeedPortal { checked: true, speed: Speed::Normal });
    let plain = read_object_fields("1,1,2,0,3,0,5,0,6,90").unwrap();
    assert_eq!(plain.metadata, ObjectData::Unknown);
    assert_eq!(plain.rotation, "90");
    assert!(matches!(read_object_fields("2,1,3,1"), Err(FieldError::Missing(k)) if k == "1"));
    assert!(matches!(read_object_fields("1,70000,2,1,3,1"), Err(FieldError::Invalid(k)) if k == "1"));
    assert!(matches!(read_object_fields("1,1,2,1"), Err(FieldError::Missing(k)) if k == "3"));
    assert!(matches!(read_object_fields("1,1,2,1,3,1,1,2"), Err(FieldError::Invalid(k)) if k == "1"));
    assert!(matches!(read_object_fields("1,1,2,1,3,1,5,yes,4,x"), Err(FieldError::Invalid(k)) if k == "4"));
    assert_eq!(FieldError::Missing("3".to_string()).message(), "missing index 3");
}

#[test]
fn metadata_section_fields() {
    let defaults = read_metadata_fields("kA13,0.5").unwrap();
    assert_eq!(defaults.starting_speed, Speed::Normal);
    assert_eq!(defaults.song_offset, "0.5");
    assert!(!defaults.song_fade_in && !defaults.dual_start && !defaults.start_gravity_inverted);
    let set = read_metadata_fields("kA4,3,kA15,1,kA8,1,kA11,1,kS38,1_40_2").unwrap();
    assert_eq!(set.starting_speed, Speed::Fast);
    assert_eq!(set.song_offset, "0");
    assert!(set.song_fade_in && !set.song_fade_out && set.dual_start && !set.two_player_controls);
    assert!(set.start_gravity_inverted);
    assert!(matches!(read_metadata_fields("kA4,-1"), Err(FieldError::Invalid(k)) if k == "kA4"));
    assert!(matches!(read_metadata_fields("kA16,3"), Err(FieldError::Invalid(k)) if k == "kA16"));
    assert!(matches!(read_metadata_fields("kA13,fast"), Err(FieldError::Invalid(k)) if k == "kA13"));
}

#[test]
fn base64_thunk_process_and_failure() {
    let mut t: Thunk<Base64Decoder> = Thunk::Unprocessed("SGVsbG8=".to_string());
    assert_eq!(t.as_unprocessed().unwrap(), "SGVsbG8=");
    assert_eq!(t.process().unwrap(), "Hello");
    assert_eq!(t.as_unprocessed().unwrap(), "SGVsbG8=");
    let mut bad: Thunk<Base64Decoder> = Thunk::Unprocessed("%%%".to_string());
    assert_eq!(bad.process().unwrap_err(), ProcessError::Base64);
    assert_eq!(bad, Thunk::Unprocessed(String::new()));
    let not_utf8: Thunk<Base64Decoder> = Thunk::Unprocessed("_w==".to_string());
    assert_eq!(not_utf8.as_processed().unwrap_err(), ProcessError::FromUtf8);
}

#[test]
fn percent_decoded_thunk() {
    let t: Thunk<PercentDecoded> = Thunk::Unprocessed("a%20b%3Fc".to_string());
    assert_eq!(t.as_processed().unwrap(), PercentDecoded("a b?c".to_string()));
    let p: Thunk<PercentDecoded> = Thunk::Processed(PercentDecoded("a b?c".to_string()));
    assert_eq!(p.as_unprocessed().unwrap(), "a%20b%3Fc");
    let invalid: Thunk<PercentDecoded> = Thunk::Unprocessed("%FF".to_string());
    assert_eq!(invalid.into_processed().unwrap_err(), ProcessError::Utf8);
}

#[test]
fn color_thunk_errors() {
    assert_eq!(<Color as ThunkProcessor>::from_unprocessed("1,2").unwrap_err(), ProcessError::IncorrectLength { expected: 3 });
    assert_eq!(<Color as ThunkProcessor>::from_unprocessed("1,2,3,4").unwrap_err(), ProcessError::IncorrectLength { expected: 3 });
    assert_eq!(<Color as ThunkProcessor>::from_unprocessed("1,x,3").unwrap_err(), ProcessError::IntParse);
    assert_eq!(<Color as ThunkProcessor>::from_unprocessed("1,256,3").unwrap_err(), ProcessError::IntParse);
    assert_eq!(<Color as ThunkProcessor>::from_unprocessed("1,2,3").unwrap(), Color::Known(1, 2, 3));
    assert_eq!(<Color as ThunkProcessor>::as_unprocessed(&Color::Known(10, 0, 255)).unwrap(), "10,0,255");
    assert_eq!(<Color as ThunkProcessor>::as_unprocessed(&Color::Unknown(1)).unwrap_err(), ProcessError::Unrepresentable);
}

#[test]
fn zlib_compressed_level_string() {
    let mut encoder = flate2::write::ZlibEncoder::new(Vec::new(), flate2::Compression::default());
    encoder.write_all(b"kA4,1;1,1,2,15,3,15;1,8,2,30,3,15;").unwrap();
    let compressed = encoder.finish().unwrap();
    assert_eq!(compressed[0], 0x78);
    let raw = URL_SAFE.encode(&compressed);
    let objects = <Objects as ThunkProcessor>::from_unprocessed(&raw).unwrap();
    assert_eq!(objects.meta, "kA4,1");
    assert_eq!(objects.objects, vec!["1,1,2,15,3,15".to_string(), "1,8,2,30,3,15".to_string()]);
}

#[test]
fn listed_level_with_processed_description_writes_the_same() {
    let mut level = Level::<(), Option<u64>, u64>::from_gj_str(LISTED_LEVEL).unwrap();
    assert_eq!(level.description.as_mut().unwrap().process().unwrap(), "desc");
    assert_eq!(level.write_gj().unwrap(), LISTED_LEVEL);
    level.description = Some(Thunk::Processed("a new description".to_string()));
    let reread = Level::<(), Option<u64>, u64>::from_gj_str(&level.write_gj().unwrap()).unwrap();
    assert_eq!(reread.description.unwrap().into_processed().unwrap(), "a new description");
}
