use marvel_api::filters::{
    CharactersFilter, ComicsFilter, CreatorsFilter, EventsFilter, Filter, NoneFilter, SeriesFilter, StoriesFilter,
};
use marvel_api::query::{param_value, Param, QueryParam};
use marvel_api::text::parse_u32;
use marvel_api::time::Timestamp;

fn pairs(params: &[QueryParam]) -> Vec<(String, String)> {
    params.iter().map(|q| (q.key.wire().to_string(), q.value.clone())).collect()
}

#[test]
fn unset_filter_sends_nothing() {
    assert!(CharactersFilter::new().query_params().is_empty());
    assert!(ComicsFilter::new().query_params().is_empty());
    assert!(CreatorsFilter::new().query_params().is_empty());
    assert!(EventsFilter::new().query_params().is_empty());
    assert!(SeriesFilter::new().query_params().is_empty());
    assert!(StoriesFilter::new().query_params().is_empty());
    assert!(NoneFilter {}.query_params().is_empty());
}

#[test]
fn set_field_goes_under_its_wire_name() {
    let mut f = CharactersFilter::new();
    f.name_starts_with = Some("Moon".to_string());
    let p = pairs(&f.query_params());
    assert_eq!(p, vec![("nameStartsWith".to_string(), "Moon".to_string())]);
    assert!(!p.iter().any(|(k, _)| k == "name_starts_with"));
}

#[test]
fn fields_come_out_in_key_order() {
    let mut f = CharactersFilter::new();
    f.offset = Some(20);
    f.name = Some("Spider-Man".to_string());
    f.limit = Some(10);
    f.order_by = Some("-modified".to_string());
    let p = pairs(&f.query_params());
    assert_eq!(
        p,
        vec![
            ("limit".to_string(), "10".to_string()),
            ("name".to_string(), "Spider-Man".to_string()),
            ("offset".to_string(), "20".to_string()),
            ("orderBy".to_string(), "-modified".to_string()),
        ]
    );
}

#[test]
fn encoding_twice_gives_the_same_pairs() {
    let mut f = SeriesFilter::new();
    f.title_starts_with = Some("Aven".to_string());
    f.start_year = Some(1963);
    assert_eq!(pairs(&f.query_params()), pairs(&f.query_params()));
}

#[test]
fn comic_flags_and_numbers() {
    let mut f = ComicsFilter::new();
    f.no_variants = Some(true);
    f.has_digital_issue = Some(false);
    f.issue_number = Some(42);
    f.digital_id = Some(0);
    let p = pairs(&f.query_params());
    assert_eq!(
        p,
        vec![
            ("digitalId".to_string(), "0".to_string()),
            ("hasDigitalIssue".to_string(), "false".to_string()),
            ("issueNumber".to_string(), "42".to_string()),
            ("noVariants".to_string(), "true".to_string()),
        ]
    );
}

#[test]
fn creator_name_fields() {
    let mut f = CreatorsFilter::new();
    f.first_name_starts_with = Some("St".to_string());
    f.last_name = Some("Lee".to_string());
    f.suffix = Some("Jr.".to_string());
    let p = pairs(&f.query_params());
    assert_eq!(
        p,
        vec![
            ("firstNameStartsWith".to_string(), "St".to_string()),
            ("lastName".to_string(), "Lee".to_string()),
            ("suffix".to_string(), "Jr.".to_string()),
        ]
    );
}

#[test]
fn modified_since_is_sent_as_utc_text() {
    let mut f = StoriesFilter::new();
    f.modified_since = Timestamp::from_unix(1431648000);
    f.events = Some("269,270".to_string());
    let p = pairs(&f.query_params());
    assert_eq!(
        p,
        vec![
            ("events".to_string(), "269,270".to_string()),
            ("modifiedSince".to_string(), "2015-05-15 00:00:00 UTC".to_string()),
        ]
    );
}

#[test]
fn timestamp_keeps_its_seconds() {
    let t = Timestamp::from_unix(0).unwrap();
    assert_eq!(t.seconds(), 0);
    assert_eq!(t.text(), "1970-01-01 00:00:00 UTC");
    assert!(Timestamp::from_unix(i64::MAX).is_none());
}

#[test]
fn every_event_field_is_sent() {
    let mut f = EventsFilter::new();
    f.name = Some("Secret Invasion".to_string());
    f.name_starts_with = Some("Sec".to_string());
    f.creators = Some("1".to_string());
    f.characters = Some("2".to_string());
    f.series = Some("3".to_string());
    f.comics = Some("4".to_string());
    f.stories = Some("5".to_string());
    f.order_by = Some("name".to_string());
    f.limit = Some(6);
    f.offset = Some(7);
    let keys: Vec<String> = pairs(&f.query_params()).into_iter().map(|(k, _)| k).collect();
    assert_eq!(
        keys,
        vec!["characters", "comics", "creators", "limit", "name", "nameStartsWith", "offset", "orderBy", "series", "stories"]
    );
}

#[test]
fn characters_query_round_trip() {
    let mut f = CharactersFilter::new();
    f.limit = Some(10);
    f.offset = Some(30);
    f.name = Some("3-D Man".to_string());
    let params = f.query_params();
    let limit = param_value(&params, Param::Limit).unwrap();
    let offset = param_value(&params, Param::Offset).unwrap();
    assert_eq!(parse_u32(&limit), Some(10));
    assert_eq!(parse_u32(&offset), Some(30));
    assert_eq!(param_value(&params, Param::Name), Some("3-D Man".to_string()));
    assert_eq!(param_value(&params, Param::NameStartsWith), None);
}

#[test]
fn wire_names_sort_in_declaration_order() {
    let all = [
        Param::ApiKey, Param::Characters, Param::Collaborators, Param::Comics, Param::Contains, Param::Creators,
        Param::DateDescriptor, Param::DateRange, Param::DiamondCode, Param::DigitalId, Param::Ean, Param::Events,
        Param::FirstName, Param::FirstNameStartsWith, Param::Format, Param::FormatType, Param::HasDigitalIssue,
        Param::Hash, Param::Isbn, Param::Issn, Param::IssueNumber, Param::LastName, Param::LastNameStartsWith,
        Param::Limit, Param::MiddleName, Param::MiddleNameStartsWith, Param::ModifiedSince, Param::Name,
        Param::NameStartsWith, Param::NoVariants, Param::Offset, Param::OrderBy, Param::Series, Param::SeriesType,
        Param::SharedAppearances, Param::StartYear, Param::Stories, Param::Suffix, Param::Title,
        Param::TitleStartsWith, Param::Ts, Param::Upc,
    ];
    for w in all.windows(2) {
        assert!(w[0].wire() < w[1].wire(), "{} !< {}", w[0].wire(), w[1].wire());
    }
}

#[test]
fn timestamps_within_the_calendar_range_exist() {
    assert!(Timestamp::from_unix(8_000_000_000_000).is_some());
    assert!(Timestamp::from_unix(-8_000_000_000_000).is_some());
    assert!(Timestamp::from_unix(i64::MIN).is_none());
}
