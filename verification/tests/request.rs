use dash_rs::model::level::{DemonRating, LevelLength, LevelRating};
use dash_rs::request::comment::{LevelCommentsRequest, ProfileCommentsRequest, SortMode};
use dash_rs::request::level::{CompletionFilter, LevelRequest, LevelRequestType, LevelsRequest, SearchFilters};
use dash_rs::request::user::{UserRequest, UserSearchRequest};
use dash_rs::serde::ser::request::RequestSerializer;

#[test]
fn serialize_levels_request() {
    let request = LevelsRequest::default()
        .request_type(LevelRequestType::MostLiked)
        .with_length(LevelLength::Medium)
        .with_length(LevelLength::Long)
        .search_filters(SearchFilters::default().featured().two_player().epic().rated().completion_filter(
            CompletionFilter::exclude(vec![
                18018958, 21373201, 22057275, 22488444, 22008823, 23144971, 17382902, 87600, 22031889, 22390740, 22243264, 21923305,
            ]),
        ));

    let mut serializer = RequestSerializer::new();
    request.serialize(&mut serializer).unwrap();
    let output = serializer.into_output();

    assert_eq!(
        output.as_str(),
        "gameVersion=21&binaryVersion=33&secret=Wmfd2893gb7&type=2&str=&len=2,3&diff=-&page=0&total=0&featured=1&original=0&\
         twoPlayer=1&coins=0&epic=1&star=1&completedLevels=(18018958,21373201,22057275,22488444,22008823,23144971,17382902,87600,\
         22031889,22390740,22243264,21923305)&onlyCompleted=0&uncompleted=1"
    );
}

#[test]
fn test_serialization() {
    let level_request = LevelRequest::default();
    let mut ser = RequestSerializer::new();
    let result = level_request.serialize(&mut ser);

    assert!(result.is_ok(), "{:?}", result);
    assert_eq!(
        "gameVersion=21&binaryVersion=33&secret=Wmfd2893gb7&levelID=0&inc=0&extra=0",
        ser.into_output()
    );
}

#[test]
fn levels_request_search_with_ratings_and_demon_filter() {
    let request = LevelsRequest::default()
        .search("Bloodbath")
        .page(2)
        .total(10)
        .with_rating(LevelRating::Hard)
        .with_rating(LevelRating::Demon(DemonRating::Easy))
        .with_rating(LevelRating::NotAvailable);
    let mut ser = RequestSerializer::new();
    request.serialize(&mut ser).unwrap();
    assert_eq!(
        ser.into_output(),
        "gameVersion=21&binaryVersion=33&secret=Wmfd2893gb7&type=0&str=Bloodbath&len=-&diff=3,-2,-1&page=2&total=10&featured=0&\
         original=0&twoPlayer=0&coins=0&epic=0&star=0&onlyCompleted=0&uncompleted=0"
    );

    let demon = LevelsRequest::default().with_rating(LevelRating::Easy).demon_rating(DemonRating::Extreme);
    let mut ser = RequestSerializer::new();
    demon.serialize(&mut ser).unwrap();
    assert_eq!(
        ser.into_output(),
        "gameVersion=21&binaryVersion=33&secret=Wmfd2893gb7&type=0&str=&len=-&diff=-&demonFilter=5&page=0&total=0&featured=0&\
         original=0&twoPlayer=0&coins=0&epic=0&star=0&onlyCompleted=0&uncompleted=0"
    );
}

#[test]
fn levels_request_song_filters_and_empty_completion_list() {
    let custom = LevelsRequest::default()
        .search_filters(SearchFilters::default().custom_song(771277).completion_filter(CompletionFilter::limit_search(vec![])));
    let mut ser = RequestSerializer::new();
    custom.serialize(&mut ser).unwrap();
    assert_eq!(
        ser.into_output(),
        "gameVersion=21&binaryVersion=33&secret=Wmfd2893gb7&type=0&str=&len=-&diff=-&page=0&total=0&featured=0&original=0&\
         twoPlayer=0&coins=0&epic=0&star=0&song=771277&customSong=1&completedLevels=(-)&onlyCompleted=1&uncompleted=0"
    );

    let main = LevelsRequest::default()
        .search_filters(SearchFilters::default().has_coins().original().main_song(dash_rs::model::song::MainSong::from_id(3)));
    let mut ser = RequestSerializer::new();
    main.serialize(&mut ser).unwrap();
    assert_eq!(
        ser.into_output(),
        "gameVersion=21&binaryVersion=33&secret=Wmfd2893gb7&type=0&str=&len=-&diff=-&page=0&total=0&featured=0&original=1&\
         twoPlayer=0&coins=1&epic=0&star=0&song=3&onlyCompleted=0&uncompleted=0"
    );
}

#[test]
fn comment_and_user_requests() {
    let request = LevelCommentsRequest::new(1234).liked();
    assert_eq!(request.sort_mode, SortMode::Liked);
    assert_eq!(request.recent().sort_mode, SortMode::Recent);
    let mut ser = RequestSerializer::new();
    request.serialize(&mut ser).unwrap();
    assert_eq!(
        ser.into_output(),
        "gameVersion=21&binaryVersion=33&secret=Wmfd2893gb7&total=0&page=0&mode=1&levelID=1234&count=20"
    );
    assert_eq!(request.to_display_string(), "LevelCommentsRequest(1234)");

    let profile = ProfileCommentsRequest::new(71);
    let mut ser = RequestSerializer::new();
    profile.serialize(&mut ser).unwrap();
    assert_eq!(ser.into_output(), "gameVersion=21&binaryVersion=33&secret=Wmfd2893gb7&total=0&page=0&accountID=71");
    assert_eq!(profile.to_display_string(), "AccountCommentsRequest(71)");

    let user = UserRequest::new(8);
    let mut ser = RequestSerializer::new();
    user.serialize(&mut ser).unwrap();
    assert_eq!(ser.into_output(), "gameVersion=21&binaryVersion=33&secret=Wmfd2893gb7&targetAccountID=8");
    assert_eq!(user.to_display_string(), "UserRequest(8)");

    let search = UserSearchRequest::new("stadust");
    let mut ser = RequestSerializer::new();
    search.serialize(&mut ser).unwrap();
    assert_eq!(ser.into_output(), "gameVersion=21&binaryVersion=33&secret=Wmfd2893gb7&total=0&page=0&str=stadust");
    assert_eq!(search.to_display_string(), "UserSearchRequest(stadust)");
}

#[test]
fn two_requests_in_one_serializer_are_joined() {
    let mut ser = RequestSerializer::new();
    UserRequest::new(1).serialize(&mut ser).unwrap();
    ser.serialize_field("extra", "x").unwrap();
    assert_eq!(ser.into_output(), "gameVersion=21&binaryVersion=33&secret=Wmfd2893gb7&targetAccountID=1&extra=x");
}

#[test]
fn level_request_type_values() {
    assert_eq!(i32::from(LevelRequestType::HallOfFame), 16);
    assert_eq!(LevelRequestType::from(16), LevelRequestType::HallOfFame);
    assert_eq!(LevelRequestType::from(8), LevelRequestType::Unknown(8));
    assert_eq!(i32::from(LevelRequestType::from(-7)), -7);
    assert_eq!(LevelRequestType::default(), LevelRequestType::Search);
}
