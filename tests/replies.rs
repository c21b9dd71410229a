use marvel_api::model::Character;
use marvel_api::response::{ApiError, DataContainer, RawEnvelope, Reply, RequestHandler, ResponseMessage};

fn character(id: u32, name: &str) -> Character {
    Character {
        id: Some(id),
        name: Some(name.to_string()),
        description: Some(String::new()),
        modified: None,
        resource_uri: Some(format!("http://gateway.marvel.com/v1/public/characters/{}", id)),
        urls: Vec::new(),
        thumbnail: None,
        comics: None,
        stories: None,
        events: None,
        series: None,
    }
}

fn empty_raw<E>() -> RawEnvelope<E> {
    RawEnvelope {
        code: None,
        status: None,
        copyright: None,
        attribution_text: None,
        attribution_html: None,
        etag: None,
        data: None,
        message: None,
    }
}

#[test]
fn success_envelope_with_one_character() {
    let mut raw = empty_raw::<Vec<Character>>();
    raw.code = Some(200);
    raw.status = Some("Ok".to_string());
    raw.data = Some(DataContainer { offset: 0, limit: 1, total: 1533, count: 1, results: vec![character(1011334, "3-D Man")] });
    match RequestHandler::settle(Reply::Body(raw)) {
        Ok(ResponseMessage::Success(w)) => {
            assert_eq!(w.code, 200);
            assert_eq!(w.status.as_deref(), Some("Ok"));
            assert_eq!(w.data.total, 1533);
            assert_eq!(w.data.results.len(), 1);
            assert_eq!(w.data.results[0].id, Some(1011334));
        }
        _ => panic!("expected a success"),
    }
}

#[test]
fn fault_envelope_is_an_api_fault() {
    let mut raw = empty_raw::<Vec<Character>>();
    raw.code = Some(409);
    raw.message = Some("rate limited".to_string());
    match RequestHandler::settle(Reply::Body(raw)) {
        Ok(ResponseMessage::Error(m)) => {
            assert_eq!(m.code, 409);
            assert_eq!(m.message, "rate limited");
            match ResponseMessage::<Vec<Character>>::Error(m).into_result() {
                Err(ApiError::Fault(f)) => {
                    assert_eq!(f.code, 409);
                    assert_eq!(f.message, "rate limited");
                }
                _ => panic!("expected a fault"),
            }
        }
        _ => panic!("expected a fault envelope"),
    }
}

#[test]
fn success_takes_precedence_over_message() {
    let mut raw = empty_raw::<Vec<u32>>();
    raw.code = Some(200);
    raw.message = Some("ignored".to_string());
    raw.data = Some(DataContainer { offset: 0, limit: 0, total: 0, count: 0, results: Vec::new() });
    assert!(matches!(RequestHandler::decode(raw), Ok(ResponseMessage::Success(_))));
}

#[test]
fn connection_refused_is_a_transport_failure() {
    let r = RequestHandler::settle::<Vec<Character>>(Reply::Unreachable("connection refused".to_string()));
    match r {
        Err(ApiError::Transport(m)) => assert_eq!(m, "connection refused"),
        _ => panic!("expected a transport failure"),
    }
}

#[test]
fn unreadable_body_is_a_parse_failure() {
    let r = RequestHandler::settle::<Vec<Character>>(Reply::Unreadable("expected value at line 1".to_string()));
    match r {
        Err(ApiError::Parse(m)) => assert_eq!(m, "expected value at line 1"),
        _ => panic!("expected a parse failure"),
    }
}

#[test]
fn body_without_code_is_a_parse_failure() {
    let mut raw = empty_raw::<Vec<u32>>();
    raw.message = Some("no code".to_string());
    raw.data = Some(DataContainer { offset: 0, limit: 0, total: 0, count: 0, results: Vec::new() });
    assert!(matches!(RequestHandler::decode(raw), Err(ApiError::Parse(_))));
}

#[test]
fn code_alone_is_a_parse_failure() {
    let mut raw = empty_raw::<Vec<u32>>();
    raw.code = Some(500);
    assert!(matches!(RequestHandler::settle(Reply::Body(raw)), Err(ApiError::Parse(_))));
}

#[test]
fn success_into_result_keeps_the_data() {
    let mut raw = empty_raw::<Vec<u32>>();
    raw.code = Some(200);
    raw.etag = Some("3bb0".to_string());
    raw.data = Some(DataContainer { offset: 20, limit: 20, total: 41, count: 1, results: vec![7] });
    let w = RequestHandler::decode(raw).ok().unwrap().into_result().ok().unwrap();
    assert_eq!(w.etag.as_deref(), Some("3bb0"));
    assert_eq!(w.data.offset, 20);
    assert_eq!(w.data.results, vec![7]);
}
