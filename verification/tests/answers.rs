use actix_web::http::header::{HeaderMap, HeaderName, HeaderValue, CONTENT_TYPE};
use media_proxy::config::{AppConfig, CacheConfig, Service, TwitterConfig};
use media_proxy::forward::forward;
use media_proxy::headers::{
    content_type, content_type_from, forwarded_headers, header_text, without_connection, ContentTypeError,
};
use media_proxy::media::{kind_of, Kind};
use media_proxy::object::Object;
use media_proxy::response::{get_health_status, is_success, Body, Response};
use media_proxy::twitter::{twitter, twitter_reply};

fn named(value: &[u8]) -> HeaderMap {
    let mut headers = HeaderMap::new();
    headers.insert(CONTENT_TYPE, HeaderValue::from_bytes(value).unwrap());
    headers
}

fn text(response: &Response) -> &str {
    match &response.body {
        Body::Text(text) => text,
        _ => panic!("not a text"),
    }
}

#[test]
fn health_check() {
    let response = get_health_status();
    assert_eq!(response.status, 200);
    assert_eq!(response.content_type.as_deref(), Some("text/plain"));
    assert_eq!(response.max_age, None);
    assert_eq!(text(&response), "200 OK");
}

#[test]
fn success_is_the_two_hundreds() {
    assert!(is_success(200));
    assert!(is_success(299));
    assert!(!is_success(199));
    assert!(!is_success(300));
    assert!(!is_success(404));
}

#[test]
fn media_types_are_read_from_headers() {
    assert_eq!(content_type(&HeaderMap::new()).unwrap(), "application/octet-stream");
    assert_eq!(content_type(&named(b"image/png")).unwrap(), "image/png");
    assert_eq!(content_type(&named(b"Image/SVG+xml")).unwrap(), "image/svg+xml");
    assert_eq!(content_type(&named(b"TEXT/html; Charset=UTF-8")).unwrap(), "text/html; charset=utf-8");
    assert_eq!(content_type(&named(b"*/*")).unwrap(), "*/*");
}

#[test]
fn media_types_are_read_from_values() {
    assert_eq!(content_type_from(None).unwrap(), "application/octet-stream");
    assert_eq!(content_type_from(Some(b"Video/MP4".to_vec())).unwrap(), "video/mp4");
    assert_eq!(content_type_from(Some(b"a b".to_vec())), Err(ContentTypeError::Malformed));
    assert_eq!(content_type_from(Some(vec![0])), Err(ContentTypeError::NotText));
}

#[test]
fn listed_headers_keep_their_order() {
    let pair = |name: &str, value: &[u8]| (name.to_string(), value.to_vec());
    let pairs = vec![pair("b", b"1"), pair("connection", b"2"), pair("a", b"3"), pair("b", b"4")];
    assert_eq!(without_connection(&pairs), vec![pair("b", b"1"), pair("a", b"3"), pair("b", b"4")]);
    assert!(without_connection(&vec![]).is_empty());
}

#[test]
fn first_media_type_counts() {
    let mut headers = named(b"image/gif");
    headers.append(CONTENT_TYPE, HeaderValue::from_static("image/png"));
    assert_eq!(content_type(&headers).unwrap(), "image/gif");
}

#[test]
fn unreadable_media_types_are_reported() {
    assert_eq!(content_type(&named(b"image/\xffpng")), Err(ContentTypeError::NotText));
    assert_eq!(content_type(&named(b"image")), Err(ContentTypeError::Malformed));
    assert_eq!(content_type(&named(b"")), Err(ContentTypeError::Malformed));
    assert_eq!(content_type(&named(b"/png")), Err(ContentTypeError::Malformed));
}

#[test]
fn header_values_are_text_when_visible() {
    assert_eq!(header_text(&b"a\tb ~".to_vec()), Some("a\tb ~".to_string()));
    assert_eq!(header_text(&vec![]), Some(String::new()));
    assert_eq!(header_text(&vec![127]), None);
    assert_eq!(header_text(&vec![65, 31]), None);
    assert_eq!(header_text(&vec![200]), None);
}

#[test]
fn kinds_of_media_types() {
    assert_eq!(kind_of("image/jpeg"), Kind::Jpeg);
    assert_eq!(kind_of("image/jpg"), Kind::Jpeg);
    assert_eq!(kind_of("image/png"), Kind::Png);
    assert_eq!(kind_of("image/webp"), Kind::WebP);
    assert_eq!(kind_of("image/gif"), Kind::Gif);
    assert_eq!(kind_of("image/svg+xml"), Kind::Svg);
    assert_eq!(kind_of("video/mp4"), Kind::Mp4);
    assert_eq!(kind_of("text/html"), Kind::Document);
    assert_eq!(kind_of("text/plain"), Kind::Document);
    assert_eq!(kind_of("application/octet-stream"), Kind::Unknown);
    assert_eq!(kind_of("text/html; charset=utf-8"), Kind::Other);
    assert_eq!(kind_of("image/tiff"), Kind::Other);
}

#[test]
fn svg_is_what_mime_takes_for_svg() {
    for value in ["image/svg+xml", "IMAGE/svg+XML", "image/svg+xml; charset=utf-8", "image/svg", "image/svg;a=b", "image/png"] {
        let taken = value.parse::<mime::Mime>().unwrap() == mime::IMAGE_SVG;
        let text = content_type(&named(value.as_bytes())).unwrap();
        assert_eq!(kind_of(&text) == Kind::Svg, taken, "{}", value);
    }
}

#[test]
fn all_headers_but_connection_are_forwarded() {
    let mut headers = HeaderMap::new();
    headers.append(HeaderName::from_static("connection"), HeaderValue::from_static("close"));
    headers.append(HeaderName::from_static("set-cookie"), HeaderValue::from_static("a=1"));
    headers.append(HeaderName::from_static("set-cookie"), HeaderValue::from_static("b=2"));
    headers.append(HeaderName::from_static("etag"), HeaderValue::from_static("x"));
    let kept = forwarded_headers(&headers);
    assert_eq!(kept.len(), 3);
    let cookies: Vec<&[u8]> = kept.iter().filter(|p| p.0 == "set-cookie").map(|p| &p.1[..]).collect();
    assert_eq!(cookies, vec![b"a=1", b"b=2"]);
    assert!(kept.iter().any(|p| p.0 == "etag" && p.1 == b"x"));
    assert!(!kept.iter().any(|p| p.0 == "connection"));
}

#[test]
fn header_set_last_stays() {
    let mut headers = HeaderMap::new();
    headers.append(HeaderName::from_static("set-cookie"), HeaderValue::from_static("a=1"));
    headers.append(HeaderName::from_static("set-cookie"), HeaderValue::from_static("b=2"));
    let mut client = HeaderMap::new();
    for (name, value) in forwarded_headers(&headers) {
        client.insert(
            HeaderName::from_bytes(name.as_bytes()).unwrap(),
            HeaderValue::from_bytes(&value).unwrap(),
        );
    }
    assert_eq!(client.len(), 1);
    assert_eq!(client.get("set-cookie").unwrap(), "b=2");
}

#[test]
fn profile_lookup_needs_a_token() {
    let response = twitter("", "someone").unwrap_err();
    assert_eq!(response.status, 400);
    assert_eq!(response.content_type.as_deref(), Some("text/plain"));
    assert_eq!(text(&response), "Twitter token not found in config file");
    let request = twitter("T", "someone").unwrap();
    assert_eq!(request.url, "https://api.twitter.com/1.1/users/lookup.json");
    assert_eq!(request.accept, "application/json");
    assert_eq!(request.token, "T");
    assert_eq!(request.screen_name, "someone");
}

#[test]
fn profile_payload_is_passed_on() {
    let mut cfg = AppConfig::default();
    cfg.twitter = Some(TwitterConfig { cache: CacheConfig { max_age: 7 } });
    let response = twitter_reply(&cfg, vec![1, 2]);
    assert_eq!(response.status, 200);
    assert_eq!(response.content_type.as_deref(), Some("application/json"));
    assert_eq!(response.max_age, Some(7));
    assert!(matches!(response.body, Body::Bytes(bytes) if bytes == vec![1, 2]));
}

#[test]
fn forwarding_takes_the_image_literally() {
    let cfg = AppConfig::default();
    let request = forward(&cfg, "ipfs", "a-_-b").unwrap();
    assert_eq!(request.url, "https://ipfs.io/ipfs/a-_-b");
    assert_eq!(request.timeout_secs, 30);
    let response = forward(&cfg, "other", "a").unwrap_err();
    assert_eq!(response.status, 400);
    assert_eq!(text(&response), "Received endpoint not allowed!");
}

#[test]
fn new_object_is_bare() {
    let object = Object::new("n".to_string());
    assert_eq!(object.name, "n");
    assert!(object.data.is_empty());
    assert_eq!(object.content_type, "text/plain");
    assert_eq!(object.service.name, "ipfs");
    assert!(object.response.is_none() && object.status.is_none() && object.headers.is_none());
}

#[test]
fn object_takes_an_answer() {
    let cfg = AppConfig::default();
    let mut object = Object::new("a-_-b".to_string());
    object.service = Service { name: "s".to_string(), endpoint: "http://s".to_string(), cache: None };
    object.response = Some("old".to_string());
    let request = object.download(&cfg);
    assert_eq!(request.url, "http://s/a/b");
    assert_eq!(request.timeout_secs, 15);
    assert_eq!(request.max_body_bytes, 60000000);
    assert!(object.response.is_none());
    assert_eq!(object.base_path(&cfg), "storage/base/s/a-_-b");
    assert_eq!(object.answered(404, named(b"image/webp"), vec![9], content_type(&named(b"image/webp"))), Ok(()));
    assert_eq!(object.status, Some(404));
    assert_eq!(object.data, vec![9]);
    assert_eq!(object.content_type, "image/webp");
    assert!(object.headers.is_some());
    assert_eq!(object.answered(200, named(b"?"), vec![8], content_type(&named(b"?"))), Err(ContentTypeError::Malformed));
    assert_eq!(object.content_type, "image/webp");
    assert_eq!(object.data, vec![8]);
}
