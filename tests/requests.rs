use marvel_api::client::Client;
use marvel_api::endpoint::{Endpoint, Method};
use marvel_api::filters::{CharactersFilter, ComicsFilter, StoriesFilter};
use marvel_api::model::{Character, Comic, Creator, Event, GetCharacterRequest, ListCharactersRequest, Series, Story};
use marvel_api::query::{Param, QueryParam};
use marvel_api::response::ApiError;

fn keys(params: &[QueryParam]) -> Vec<&'static str> {
    params.iter().map(|q| q.key.wire()).collect()
}

fn test_client() -> Client {
    let mut c = Client::new("http://127.0.0.1:1234").unwrap();
    c.set_api_key("public", "private").unwrap()
}

#[test]
fn client_new() {
    let _ = Client::new("https://gateway.marvel.com").unwrap().set_api_key("public key", "private key").unwrap();
}

#[test]
fn set_api_key_changes_the_client_too() {
    let mut c = Client::new("http://example.net").unwrap();
    let copy = c.set_api_key("pk", "sk").unwrap();
    assert_eq!(c.base_url(), "http://example.net");
    assert_eq!(copy.base_url(), "http://example.net");
    let req = Character::get(1);
    let a = c.signed_params(&req, 5);
    let b = copy.signed_params(&req, 5);
    assert_eq!(a[0].value, "pk");
    assert_eq!(b[0].value, "pk");
    assert_eq!(a[2].value, b[2].value);
}

#[test]
fn get_one_character_has_no_relation_and_no_filter() {
    let req = Character::get(1011334);
    assert_eq!(req.path, "/v1/public/characters/1011334");
    assert_eq!(req.method, Method::Get);
    assert!(req.params.is_empty());
    let signed = test_client().signed_params(&req, 1);
    assert_eq!(keys(&signed), vec!["apikey", "ts", "hash"]);
    assert_eq!(signed[0].value, "public");
    assert_eq!(signed[1].value, "1");
    assert_eq!(signed[2].value, format!("{:x}", md5::compute("1privatepublic")));
}

#[test]
fn get_one_character_full_url() {
    let url = test_client().request_url(&Character::get(1011334), 1).unwrap();
    let hash = format!("{:x}", md5::compute("1privatepublic"));
    assert_eq!(url, format!("http://127.0.0.1:1234/v1/public/characters/1011334?apikey=public&ts=1&hash={}", hash));
}

#[test]
fn listing_url_carries_filter_then_signature() {
    let mut f = CharactersFilter::new();
    f.limit = Some(1);
    f.name_starts_with = Some("Moon Knight".to_string());
    let url = test_client().request_url(&Character::get_all(Some(f)), 1).unwrap();
    let hash = format!("{:x}", md5::compute("1privatepublic"));
    assert_eq!(
        url,
        format!("http://127.0.0.1:1234/v1/public/characters?limit=1&nameStartsWith=Moon+Knight&apikey=public&ts=1&hash={}", hash)
    );
}

#[test]
fn bad_base_address_is_reported() {
    let mut c = Client::new("not a url").unwrap();
    let c = c.set_api_key("a", "b").unwrap();
    assert!(matches!(c.request_url(&Character::get(1), 1), Err(ApiError::InvalidUrl)));
}

#[test]
fn listing_paths() {
    assert_eq!(Character::get_all(None).path, "/v1/public/characters");
    assert_eq!(Comic::get_all(None).path, "/v1/public/comics");
    assert_eq!(Creator::get_all(None).path, "/v1/public/creators");
    assert_eq!(Event::get_all(None).path, "/v1/public/events");
    assert_eq!(Series::get_all(None).path, "/v1/public/series");
    assert_eq!(Story::get_all(None).path, "/v1/public/stories");
    assert!(Comic::get_all(None).params.is_empty());
}

#[test]
fn single_resource_paths() {
    assert_eq!(Comic::get(0).path, "/v1/public/comics/0");
    assert_eq!(Creator::get(30).path, "/v1/public/creators/30");
    assert_eq!(Event::get(269).path, "/v1/public/events/269");
    assert_eq!(Series::get(4294967295).path, "/v1/public/series/4294967295");
    assert_eq!(Story::get(19947).path, "/v1/public/stories/19947");
}

#[test]
fn relation_paths_take_the_related_filter() {
    let mut f = ComicsFilter::new();
    f.limit = Some(5);
    let req = Character::get_comics(1011334, Some(f));
    assert_eq!(req.path, "/v1/public/characters/1011334/comics");
    assert_eq!(keys(&req.params), vec!["limit"]);
    assert_eq!(req.params[0].value, "5");
    assert_eq!(Character::get_events(1, None).path, "/v1/public/characters/1/events");
    assert_eq!(Character::get_series(1, None).path, "/v1/public/characters/1/series");
    assert_eq!(Character::get_stories(1, None).path, "/v1/public/characters/1/stories");
    assert_eq!(Comic::get_characters(2, None).path, "/v1/public/comics/2/characters");
    assert_eq!(Comic::get_creators(2, None).path, "/v1/public/comics/2/creators");
    assert_eq!(Comic::get_events(2, None).path, "/v1/public/comics/2/events");
    assert_eq!(Comic::get_stories(2, None).path, "/v1/public/comics/2/stories");
    assert_eq!(Creator::get_comics(3, None).path, "/v1/public/creators/3/comics");
    assert_eq!(Creator::get_events(3, None).path, "/v1/public/creators/3/events");
    assert_eq!(Creator::get_series(3, None).path, "/v1/public/creators/3/series");
    assert_eq!(Creator::get_stories(3, None).path, "/v1/public/creators/3/stories");
    assert_eq!(Event::get_characters(4, None).path, "/v1/public/events/4/characters");
    assert_eq!(Event::get_comics(4, None).path, "/v1/public/events/4/comics");
    assert_eq!(Event::get_creators(4, None).path, "/v1/public/events/4/creators");
    assert_eq!(Event::get_series(4, None).path, "/v1/public/events/4/series");
    assert_eq!(Event::get_stories(4, None).path, "/v1/public/events/4/stories");
    assert_eq!(Series::get_characters(5, None).path, "/v1/public/series/5/characters");
    assert_eq!(Series::get_comics(5, None).path, "/v1/public/series/5/comics");
    assert_eq!(Series::get_creators(5, None).path, "/v1/public/series/5/creators");
    assert_eq!(Series::get_events(5, None).path, "/v1/public/series/5/events");
    assert_eq!(Series::get_stories(5, None).path, "/v1/public/series/5/stories");
    assert_eq!(Story::get_characters(6, None).path, "/v1/public/stories/6/characters");
    assert_eq!(Story::get_comics(6, None).path, "/v1/public/stories/6/comics");
    assert_eq!(Story::get_creators(6, None).path, "/v1/public/stories/6/creators");
    assert_eq!(Story::get_events(6, None).path, "/v1/public/stories/6/events");
    let mut s = StoriesFilter::new();
    s.offset = Some(40);
    assert_eq!(keys(&Comic::get_stories(2, Some(s)).params), vec!["offset"]);
}

#[test]
fn signature_comes_last_and_once() {
    let mut f = CharactersFilter::new();
    f.limit = Some(1);
    let signed = test_client().signed_params(&Character::get_all(Some(f)), 1);
    assert_eq!(keys(&signed), vec!["limit", "apikey", "ts", "hash"]);
}

#[test]
fn request_param_reads_back() {
    let mut f = CharactersFilter::new();
    f.offset = Some(3);
    let req = Character::get_all(Some(f));
    assert_eq!(req.param(Param::Offset), Some("3".to_string()));
    assert_eq!(req.param(Param::Limit), None);
}

#[test]
fn endpoint_descriptions() {
    let get = GetCharacterRequest { id: 1011334 };
    assert_eq!(get.path(), "/v1/public/characters/1011334");
    assert_eq!(get.method(), Method::Get);
    assert!(get.params().is_empty());
    let mut filter = CharactersFilter::new();
    filter.limit = Some(1);
    filter.name_starts_with = Some("Moon".to_string());
    let list = ListCharactersRequest { filter };
    assert_eq!(list.path(), "/v1/public/characters");
    assert_eq!(keys(&list.params()), vec!["limit", "nameStartsWith"]);
    let req = Character::get_all(None);
    assert_eq!(Endpoint::path(&req), "/v1/public/characters");
}
