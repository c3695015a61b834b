use std::cell::Cell;

use strava::api::{
    activity_url, athlete_activities_url, club_url, gear_url, segment_url, starred_segments_url,
    v3, AccessToken, Paginated,
};
use strava::error::ApiError;
use strava::http::{typed_response, Http, Method, Response, UNAUTHORIZED};

fn token() -> AccessToken {
    AccessToken::new("abc123".to_string())
}

fn occurrences(s: &str, p: &str) -> usize {
    (0..s.len()).filter(|&i| s[i..].starts_with(p)).count()
}

/// Reads a segment-like object: `id` is required, `city` is optional.
fn decode_segment(body: &str) -> Result<(u64, Option<String>), String> {
    let v: serde_json::Value = serde_json::from_str(body).map_err(|e| e.to_string())?;
    let id = v
        .get("id")
        .and_then(|x| x.as_u64())
        .ok_or_else(|| "missing field `id`".to_string())?;
    let city = v.get("city").and_then(|x| x.as_str()).map(|s| s.to_string());
    Ok((id, city))
}

const SEGMENT_BODY: &str = r#"{"id":646257,"resource_state":2,"name":"Hawk Hill","city":"Sausalito"}"#;

#[test]
fn url_with_token() {
    let url = v3(Some(&token()), "segments/1".to_string());
    assert_eq!(url, "https://www.strava.com/api/v3/segments/1?access_token=abc123");
}

#[test]
fn url_without_token() {
    let url = v3(None, "segments/1".to_string());
    assert_eq!(url, "https://www.strava.com/api/v3/segments/1");
}

#[test]
fn url_token_and_prefix_once() {
    let url = v3(Some(&token()), "clubs/7".to_string());
    assert_eq!(occurrences(&url, "abc123"), 1);
    assert_eq!(occurrences(&url, "https://www.strava.com/api/v3/"), 1);
}

#[test]
fn url_without_token_has_no_auth_parameter() {
    let url = v3(None, "athlete/activities".to_string());
    assert!(!url.contains("access_token="));
}

#[test]
fn url_empty_path() {
    assert_eq!(v3(None, String::new()), "https://www.strava.com/api/v3/");
}

#[test]
fn resource_urls() {
    let t = token();
    assert_eq!(segment_url(&t, 646257), "https://www.strava.com/api/v3/segments/646257?access_token=abc123");
    assert_eq!(segment_url(&t, 0), "https://www.strava.com/api/v3/segments/0?access_token=abc123");
    assert_eq!(segment_url(&t, u32::MAX), "https://www.strava.com/api/v3/segments/4294967295?access_token=abc123");
    assert_eq!(starred_segments_url(&t), "https://www.strava.com/api/v3/segments/starred?access_token=abc123");
    assert_eq!(activity_url(&t, "321934"), "https://www.strava.com/api/v3/activities/321934?access_token=abc123");
    assert_eq!(athlete_activities_url(&t), "https://www.strava.com/api/v3/athlete/activities?access_token=abc123");
    assert_eq!(club_url(&t, "1"), "https://www.strava.com/api/v3/clubs/1?access_token=abc123");
    assert_eq!(gear_url(&t, "g2164144"), "https://www.strava.com/api/v3/gear/g2164144?access_token=abc123");
}

#[test]
fn unauthorized_ignores_valid_body() {
    let called = Cell::new(false);
    let r = typed_response(Ok(Response::new(UNAUTHORIZED, SEGMENT_BODY.to_string())), |b: &str| {
        called.set(true);
        decode_segment(b)
    });
    assert!(matches!(r, Err(ApiError::InvalidAccessToken)));
    assert!(!called.get());
}

#[test]
fn success_yields_decoded_value() {
    let r = typed_response(Ok(Response::new(200, SEGMENT_BODY.to_string())), decode_segment);
    assert_eq!(r.unwrap(), (646257, Some("Sausalito".to_string())));
}

#[test]
fn success_with_optional_field_absent() {
    let body = r#"{"id":5,"name":"Hill"}"#.to_string();
    let r = typed_response(Ok(Response::new(200, body)), decode_segment);
    assert_eq!(r.unwrap(), (5, None));
}

#[test]
fn missing_required_field_is_decode_error() {
    let body = r#"{"resource_state":2,"name":"Hawk Hill"}"#.to_string();
    let r = typed_response(Ok(Response::new(200, body)), decode_segment);
    match r {
        Err(ApiError::Decode(c)) => assert_eq!(c, "missing field `id`"),
        other => panic!("expected a decode error, got {:?}", other),
    }
}

#[test]
fn malformed_body_is_decode_error() {
    let r = typed_response(Ok(Response::new(200, "not json".to_string())), decode_segment);
    assert!(matches!(r, Err(ApiError::Decode(_))));
}

#[test]
fn transport_failure_is_transport_error() {
    let r = typed_response(Err("connection refused".to_string()), decode_segment);
    match r {
        Err(ApiError::Transport(c)) => assert_eq!(c, "connection refused"),
        other => panic!("expected a transport error, got {:?}", other),
    }
}

#[test]
fn segment_scenario() {
    let url = segment_url(&token(), 646257);
    assert!(url.contains("segments/646257"));
    let ok = typed_response(Ok(Response::new(200, SEGMENT_BODY.to_string())), decode_segment);
    assert_eq!(ok.unwrap().0, 646257);
    let denied = typed_response(Ok(Response::new(401, SEGMENT_BODY.to_string())), decode_segment);
    assert!(matches!(denied, Err(ApiError::InvalidAccessToken)));
}

#[test]
fn paginated_keeps_url_and_items() {
    let p = Paginated::new("https://www.strava.com/api/v3/segments/starred".to_string(), vec![3, 1, 2]);
    assert_eq!(p.items(), &vec![3, 1, 2]);
    assert_eq!(p.url(), "https://www.strava.com/api/v3/segments/starred");
}

#[test]
fn paginated_empty() {
    let p: Paginated<u32> = Paginated::new(String::new(), Vec::new());
    assert!(p.items().is_empty());
    assert_eq!(p.url(), "");
}

#[test]
fn error_texts() {
    let e = ApiError::InvalidAccessToken;
    assert_eq!(e.description(), "The token provided was rejected by the server");
    assert_eq!(e.to_string(), "ApiError::InvalidAccessToken");
    assert_eq!(e.cause(), None);
    let t = ApiError::Transport("timed out".to_string());
    assert_eq!(t.description(), "timed out");
    assert_eq!(t.to_string(), "ApiError::Transport(timed out)");
    assert_eq!(t.cause(), Some("timed out".to_string()));
    let d = ApiError::Decode("missing field `id`".to_string());
    assert_eq!(d.to_string(), "ApiError::Decode(missing field `id`)");
    assert_eq!(d.cause(), Some("missing field `id`".to_string()));
}

#[test]
fn http_requests() {
    let g = Http::get("http://www.example.com");
    assert_eq!(g.method, Method::GET);
    assert_eq!(g.url, "http://www.example.com");
    assert_eq!(g.body, None);
    assert_eq!(Http::put("u").method, Method::PUT);
    assert_eq!(Http::post("u").method, Method::POST);
    assert_eq!(Http::delete("u").method, Method::DELETE);
}

#[test]
fn http_body_is_carried() {
    let mut h = Http::new();
    h.body("{\"a\":1}");
    let r = h.build(Method::POST, "http://x");
    assert_eq!(r.body, Some("{\"a\":1}".to_string()));
    assert_eq!(r.method, Method::POST);
    let mut h2 = Http::new();
    h2.body("first").body("second");
    assert_eq!(h2.build(Method::PUT, "u").body, Some("second".to_string()));
}

#[test]
fn response_accessors() {
    let r = Response::new(404, "nope".to_string());
    assert_eq!(r.status(), 404);
    assert_eq!(r.body(), "nope");
}
