use actix_web::http::header::{HeaderMap, HeaderValue, CONTENT_TYPE};
use media_proxy::config::{AppConfig, CacheConfig, Params};
use media_proxy::fetch::fetch_image;
use media_proxy::headers::ContentTypeError;
use media_proxy::response::{Body, Response};
use media_proxy::session::{Action, Attempt, Event, Fault, Format, Job, Session, Stage};

fn params(width: Option<u32>, force: bool) -> Params {
    Params { width, force: Some(force), engine: None, path: None }
}

fn start(cfg: &AppConfig, params: &Params) -> (Session, Action) {
    fetch_image(cfg, "ipfs", "Qm1", params).unwrap()
}

fn received(status: u16, content_type: &str, body: &[u8]) -> Event {
    let mut headers = HeaderMap::new();
    headers.insert(CONTENT_TYPE, HeaderValue::from_str(content_type).unwrap());
    Event::Received { status, headers, body: body.to_vec() }
}

fn play(cfg: &AppConfig, params: &Params, events: Vec<Event>) -> (Session, Action) {
    let mut now = start(cfg, params);
    for event in events {
        assert!(now.0.stage.expects(&event), "{:?} at {:?}", event, now.0.stage);
        now = now.0.step(cfg, event);
    }
    now
}

fn reply(step: (Session, Action)) -> Response {
    assert_eq!(step.0.stage, Stage::Finished);
    match step.1 {
        Action::Reply(response) => response,
        other => panic!("{:?}", other),
    }
}

fn assert_delivers(response: Response, content_type: &str, bytes: &[u8]) {
    assert_eq!(response.status, 200);
    assert_eq!(response.content_type.as_deref(), Some(content_type));
    assert_eq!(response.max_age, Some(31536000));
    assert!(matches!(response.body, Body::Bytes(body) if body == bytes));
}

fn assert_gives_up(response: Response) {
    assert_eq!(response.status, 500);
    assert_eq!(response.content_type, None);
    assert_eq!(response.max_age, None);
    assert!(matches!(response.body, Body::Empty));
}

fn refusal(result: Result<(Session, Action), Response>) -> String {
    match result {
        Ok(_) => panic!("served"),
        Err(response) => {
            assert_eq!(response.status, 400);
            assert_eq!(response.content_type.as_deref(), Some("text/plain"));
            match response.body {
                Body::Text(text) => text,
                _ => panic!("no text"),
            }
        }
    }
}

#[test]
fn unknown_services_are_refused() {
    let mut cfg = AppConfig::default();
    cfg.allowed_sizes = Some(vec![]);
    let result = fetch_image(&cfg, "none", "Qm1", &params(Some(5), false));
    assert_eq!(refusal(result), "Received endpoint not allowed!");
}

#[test]
fn unlisted_widths_are_refused() {
    let mut cfg = AppConfig::default();
    cfg.allowed_sizes = Some(vec![100]);
    let result = fetch_image(&cfg, "ipfs", "Qm1", &params(Some(5), false));
    assert_eq!(refusal(result), "Scaling value not allowed!");
    cfg.allowed_sizes = Some(vec![]);
    let result = fetch_image(&cfg, "ipfs", "Qm1", &params(None, false));
    assert_eq!(refusal(result), "Scaling value not allowed!");
}

#[test]
fn requests_begin_with_directories() {
    let cfg = AppConfig::default();
    let given = Params { width: Some(64), force: None, engine: Some(1), path: Some("a/b".to_string()) };
    let (session, action) = fetch_image(&cfg, "ipfs", "Qm1", &given).unwrap();
    assert_eq!(session.object.name, "Qm1-_-a-_-b");
    assert_eq!(session.object.service.name, "ipfs");
    assert_eq!((session.scale, session.force, session.engine), (64, false, 1));
    match action {
        Action::CreateDirs(dirs) => assert_eq!(
            dirs,
            vec!["storage/base/ipfs", "storage/mod/latest/ipfs", "storage/mod/ipfs/64"]
        ),
        other => panic!("{:?}", other),
    }
}

#[test]
fn stored_variant_is_delivered() {
    let cfg = AppConfig::default();
    let wanted = params(Some(64), false);
    let step = play(&cfg, &wanted, vec![Event::Done]);
    assert!(matches!(step.1, Action::Probe(p) if p == "storage/mod/ipfs/64/Qm1"));
    let step = play(&cfg, &wanted, vec![Event::Done, Event::Exists(true)]);
    assert!(matches!(step.1, Action::Read(p) if p == "storage/mod/ipfs/64/Qm1"));
    let step = play(&cfg, &wanted, vec![Event::Done, Event::Exists(true), Event::Contents(vec![1])]);
    assert!(matches!(step.1, Action::Guess(p) if p == "storage/mod/ipfs/64/Qm1"));
    let step = play(
        &cfg,
        &wanted,
        vec![Event::Done, Event::Exists(true), Event::Contents(vec![1]), Event::Guessed("image/png".to_string())],
    );
    assert_delivers(reply(step), "image/png", &[1]);
}

#[test]
fn stored_object_is_delivered() {
    let cfg = AppConfig::default();
    let wanted = params(None, false);
    let step = play(&cfg, &wanted, vec![Event::Done]);
    assert!(matches!(step.1, Action::Probe(p) if p == "storage/base/ipfs/Qm1"));
    let step = play(
        &cfg,
        &wanted,
        vec![Event::Done, Event::Exists(true), Event::Contents(vec![1, 2]), Event::Guessed("video/mp4".to_string())],
    );
    assert_delivers(reply(step), "video/mp4", &[1, 2]);
}

#[test]
fn forced_request_goes_to_the_service() {
    let cfg = AppConfig::default();
    let step = play(&cfg, &params(Some(64), true), vec![Event::Done]);
    assert_eq!(step.0.stage, Stage::Fetching(Attempt::First));
    match step.1 {
        Action::Download(request) => {
            assert_eq!(request.url, "https://ipfs.io/ipfs/Qm1");
            assert_eq!(request.timeout_secs, 15);
            assert_eq!(request.max_body_bytes, 60000000);
        }
        other => panic!("{:?}", other),
    }
}

#[test]
fn downloaded_object_is_stored_and_delivered() {
    let cfg = AppConfig::default();
    let wanted = params(None, false);
    let step = play(&cfg, &wanted, vec![Event::Done, Event::Exists(false), received(200, "image/gif", &[5])]);
    match step.1 {
        Action::StoreBase { path, data } => {
            assert_eq!(path, "storage/base/ipfs/Qm1");
            assert_eq!(data, vec![5]);
        }
        other => panic!("{:?}", other),
    }
    let step = play(
        &cfg,
        &wanted,
        vec![Event::Done, Event::Exists(false), received(200, "image/gif", &[5]), Event::Done],
    );
    assert_delivers(reply(step), "image/gif", &[5]);
}

#[test]
fn age_is_that_of_the_service() {
    let mut cfg = AppConfig::default();
    cfg.services[0].cache = Some(CacheConfig { max_age: 9 });
    let step = play(
        &cfg,
        &params(None, true),
        vec![Event::Done, received(200, "image/gif", &[5]), Event::Done],
    );
    assert_eq!(reply(step).max_age, Some(9));
}

#[test]
fn refused_download_is_tried_once_more() {
    let cfg = AppConfig::default();
    let wanted = params(None, true);
    let step = play(&cfg, &wanted, vec![Event::Done, received(502, "text/html", b"x"), Event::Done]);
    assert_eq!(step.0.stage, Stage::Fetching(Attempt::Retry));
    assert!(matches!(step.1, Action::Download(_)));
    let step = play(
        &cfg,
        &wanted,
        vec![
            Event::Done,
            received(502, "text/html", b"x"),
            Event::Done,
            received(404, "image/png", b"y"),
            Event::Done,
        ],
    );
    assert_gives_up(reply(step));
    let step = play(
        &cfg,
        &wanted,
        vec![
            Event::Done,
            received(502, "text/html", b"x"),
            Event::Done,
            received(206, "image/webp", b"y"),
            Event::Done,
        ],
    );
    assert_delivers(reply(step), "image/webp", b"y");
}

#[test]
fn unscaled_document_is_asked_for_again() {
    let cfg = AppConfig::default();
    let wanted = params(None, true);
    let document = || vec![Event::Done, received(200, "text/plain", b"x"), Event::Done];
    let step = play(&cfg, &wanted, document());
    assert_eq!(step.0.stage, Stage::Fetching(Attempt::Unscaled));
    let mut good = document();
    good.push(received(200, "text/html", b"<p>"));
    good.push(Event::Done);
    assert_delivers(reply(play(&cfg, &wanted, good)), "text/html", b"<p>");
    let mut bad = document();
    bad.push(received(500, "image/png", b"z"));
    bad.push(Event::Done);
    assert_gives_up(reply(play(&cfg, &wanted, bad)));
}

#[test]
fn document_to_scale_is_asked_for_again_and_delivered_whatever_it_is() {
    let cfg = AppConfig::default();
    let wanted = params(Some(64), true);
    let events = vec![
        Event::Done,
        received(200, "text/html", b"x"),
        Event::Done,
        received(500, "image/png", b"z"),
        Event::Done,
    ];
    assert_delivers(reply(play(&cfg, &wanted, events)), "image/png", b"z");
}

#[test]
fn upstream_failure_takes_two_refusals_or_a_refused_replacement() {
    let cfg = AppConfig::default();
    for (width, answers, gives_up) in [
        (None, vec![(404, "image/gif"), (500, "image/gif")], true),
        (Some(64), vec![(199, "text/html"), (300, "text/html")], true),
        (None, vec![(404, "image/gif"), (299, "image/gif")], false),
        (None, vec![(200, "image/gif")], false),
        (None, vec![(200, "text/html"), (404, "image/gif")], true),
        (None, vec![(404, "image/gif"), (200, "text/html"), (404, "image/gif")], true),
        (None, vec![(404, "image/gif"), (200, "text/html"), (200, "image/gif")], false),
        (Some(64), vec![(200, "text/html"), (404, "image/gif")], false),
        (Some(64), vec![(404, "image/gif"), (200, "text/html"), (404, "image/gif")], false),
    ] {
        let mut events = vec![Event::Done];
        for (status, content_type) in answers {
            events.push(received(status, content_type, b"g"));
            events.push(Event::Done);
        }
        let response = reply(play(&cfg, &params(width, true), events));
        if gives_up {
            assert_gives_up(response);
        } else {
            assert_delivers(response, "image/gif", b"g");
        }
    }
}

#[test]
fn drawing_becomes_an_image() {
    let cfg = AppConfig::default();
    let drawing = || vec![Event::Done, received(200, "image/svg+xml", b"<svg/>"), Event::Done];
    let step = play(&cfg, &params(None, true), drawing());
    assert!(matches!(step.1, Action::Rasterize(data) if data == b"<svg/>"));
    let mut converted = drawing();
    converted.push(Event::Image(vec![4]));
    assert_delivers(reply(play(&cfg, &params(None, true), converted)), "image/png", &[4]);
    let mut scaled = drawing();
    scaled.push(Event::Image(vec![4]));
    let step = play(&cfg, &params(Some(64), true), scaled);
    assert!(matches!(step.1, Action::Scale(Job::Png { data, scale: 64 }) if data == vec![4]));
    let mut failed = drawing();
    failed.push(Event::Failed);
    let step = play(&cfg, &params(None, true), failed);
    assert!(matches!(step.1, Action::Fail(Fault::Reported)));
}

fn job(content_type: &str, engine: Option<u32>) -> (Session, Action) {
    let cfg = AppConfig::default();
    let wanted = Params { width: Some(64), force: Some(true), engine, path: None };
    play(&cfg, &wanted, vec![Event::Done, received(200, content_type, &[7]), Event::Done])
}

#[test]
fn scaler_is_chosen_by_media_type() {
    for content_type in ["image/jpeg", "image/jpg"] {
        let step = job(content_type, None);
        assert!(matches!(step.1, Action::Scale(Job::Static { data, scale: 64, format: Format::Jpeg }) if data == vec![7]));
    }
    assert!(matches!(job("image/png", None).1, Action::Scale(Job::Png { scale: 64, .. })));
    assert!(matches!(job("image/png", Some(2)).1, Action::Scale(Job::Png { .. })));
    assert!(matches!(job("image/png", Some(1)).1, Action::Scale(Job::Static { format: Format::Png, .. })));
    assert!(matches!(job("image/webp", Some(1)).1, Action::Scale(Job::Static { format: Format::WebP, .. })));
    match job("image/gif", None).1 {
        Action::Scale(Job::Gif { source, target, scale }) => {
            assert_eq!(source, "storage/base/ipfs/Qm1");
            assert_eq!(target, "storage/mod/ipfs/64/Qm1");
            assert_eq!(scale, 64);
        }
        other => panic!("{:?}", other),
    }
    let step = job("video/mp4", None);
    assert_eq!(step.0.object.content_type, "image/gif");
    match step.1 {
        Action::Scale(Job::Mp4 { source, target, scale }) => {
            assert_eq!(source, "storage/base/ipfs/Qm1");
            assert_eq!(target, "storage/mod/ipfs/64/Qm1");
            assert_eq!(scale, 64);
        }
        other => panic!("{:?}", other),
    }
    assert_delivers(reply(job("image/tiff", None)), "image/tiff", &[7]);
    assert_delivers(reply(job("text/html; charset=utf-8", None)), "text/html; charset=utf-8", &[7]);
}

#[test]
fn unknown_bytes_are_guessed() {
    let cfg = AppConfig::default();
    let (session, action) = job("application/octet-stream", None);
    assert!(matches!(action, Action::Guess(p) if p == "storage/base/ipfs/Qm1"));
    let step = session.step(&cfg, Event::Guessed("image/png".to_string()));
    assert_delivers(reply(step), "image/png", &[7]);
}

#[test]
fn scaled_image_is_kept_twice_and_delivered() {
    let cfg = AppConfig::default();
    let (session, _) = job("image/jpeg", None);
    let (session, action) = session.step(&cfg, Event::Image(vec![1]));
    match action {
        Action::StoreVariant { path, data } => {
            assert_eq!(path, "storage/mod/ipfs/64/Qm1");
            assert_eq!(data, vec![1]);
        }
        other => panic!("{:?}", other),
    }
    let (session, action) = session.step(&cfg, Event::Done);
    match action {
        Action::StoreVariant { path, data } => {
            assert_eq!(path, "storage/mod/latest/ipfs/Qm1");
            assert_eq!(data, vec![1]);
        }
        other => panic!("{:?}", other),
    }
    assert_delivers(reply(session.step(&cfg, Event::Done)), "image/jpeg", &[1]);
}

#[test]
fn unchanged_image_is_not_kept() {
    let cfg = AppConfig::default();
    let (session, _) = job("image/jpeg", None);
    assert_delivers(reply(session.step(&cfg, Event::Image(vec![7]))), "image/jpeg", &[7]);
}

#[test]
fn objection_of_the_scaler_leaves_the_object() {
    let cfg = AppConfig::default();
    let (session, _) = job("image/jpeg", None);
    let step = session.step(&cfg, Event::Rejected("unsupported colour".to_string()));
    assert_delivers(reply(step), "image/jpeg", &[7]);
    let (session, _) = job("video/mp4", None);
    let step = session.step(&cfg, Event::Rejected("no".to_string()));
    assert_delivers(reply(step), "image/gif", &[7]);
}

#[test]
fn damaged_object_is_asked_for_again() {
    let cfg = AppConfig::default();
    for message in ["failed to fill whole buffer", "unexpected EOF in chunk"] {
        let (session, _) = job("image/jpeg", None);
        let (session, action) = session.step(&cfg, Event::Rejected(message.to_string()));
        assert!(matches!(action, Action::Download(_)));
        assert_eq!(session.stage, Stage::Fetching(Attempt::Damaged));
        let (session, _) = session.step(&cfg, received(503, "image/webp", b"w"));
        assert_delivers(reply(session.step(&cfg, Event::Done)), "image/webp", b"w");
    }
}

#[test]
fn skipped_object_is_delivered_unscaled() {
    let mut cfg = AppConfig::default();
    cfg.skip_list = Some(vec!["Qm1".to_string()]);
    let step = play(
        &cfg,
        &params(Some(64), true),
        vec![Event::Done, received(200, "image/png", &[3]), Event::Done],
    );
    assert_delivers(reply(step), "image/png", &[3]);
}

#[test]
fn failures_end_the_request() {
    let cfg = AppConfig::default();
    let step = play(&cfg, &params(None, false), vec![Event::Failed]);
    assert!(matches!(step.1, Action::Fail(Fault::Reported)));
    assert_eq!(step.0.stage, Stage::Finished);
    assert!(!step.0.stage.expects(&Event::Done));
    let step = play(&cfg, &params(None, true), vec![Event::Done, received(200, "nonsense", b"")]);
    assert!(matches!(step.1, Action::Fail(Fault::ContentType(ContentTypeError::Malformed))));
    let mut headers = HeaderMap::new();
    headers.insert(CONTENT_TYPE, HeaderValue::from_bytes(b"image/\xe9").unwrap());
    let step = play(
        &cfg,
        &params(None, true),
        vec![Event::Done, Event::Received { status: 200, headers, body: vec![] }],
    );
    assert!(matches!(step.1, Action::Fail(Fault::ContentType(ContentTypeError::NotText))));
}

#[test]
fn answer_with_a_known_media_type_is_stored() {
    let cfg = AppConfig::default();
    let (session, _) = start(&cfg, &params(None, true));
    let (session, action) = session.receive_as(
        &cfg,
        Attempt::Retry,
        404,
        HeaderMap::new(),
        vec![6],
        Ok("image/png".to_string()),
    );
    assert_eq!(session.stage, Stage::Storing(Attempt::Retry));
    assert_eq!(session.object.status, Some(404));
    assert!(matches!(action, Action::StoreBase { data, .. } if data == vec![6]));
    let (session, _) = start(&cfg, &params(None, true));
    let step = session.receive_as(
        &cfg,
        Attempt::First,
        200,
        HeaderMap::new(),
        vec![],
        Err(ContentTypeError::NotText),
    );
    assert!(matches!(step.1, Action::Fail(Fault::ContentType(ContentTypeError::NotText))));
}

#[test]
fn unread_answer_leaves_its_status() {
    let cfg = AppConfig::default();
    let step = play(&cfg, &params(None, true), vec![Event::Done, Event::Unread { status: 404 }]);
    assert!(matches!(step.1, Action::Fail(Fault::Reported)));
    assert_eq!(step.0.stage, Stage::Finished);
    assert_eq!(step.0.object.status, Some(404));
    assert!(step.0.object.data.is_empty());
    assert!(step.0.object.headers.is_none());
    assert_eq!(step.0.object.content_type, "text/plain");
    let step = play(
        &cfg,
        &params(None, true),
        vec![Event::Done, received(500, "image/png", &[1]), Event::Done, Event::Unread { status: 200 }],
    );
    assert!(matches!(step.1, Action::Fail(Fault::Reported)));
    assert_eq!(step.0.object.status, Some(200));
    assert_eq!(step.0.object.data, vec![1]);
    assert_eq!(step.0.object.content_type, "image/png");
}

#[test]
fn failed_send_leaves_the_earlier_status() {
    let cfg = AppConfig::default();
    let step = play(&cfg, &params(None, true), vec![Event::Done, Event::Failed]);
    assert!(matches!(step.1, Action::Fail(Fault::Reported)));
    assert_eq!(step.0.object.status, None);
    let step = play(
        &cfg,
        &params(None, true),
        vec![Event::Done, received(500, "image/png", &[1]), Event::Done, Event::Failed],
    );
    assert_eq!(step.0.object.status, Some(500));
}

#[test]
fn longest_request_takes_eleven_outcomes_and_three_downloads() {
    let cfg = AppConfig::default();
    let events = vec![
        Event::Done,
        Event::Exists(false),
        Event::Exists(false),
        received(500, "image/svg+xml", b"a"),
        Event::Done,
        received(200, "image/svg+xml", b"b"),
        Event::Done,
        Event::Image(vec![1]),
        Event::Rejected("buffer".to_string()),
        received(200, "image/png", b"c"),
        Event::Done,
    ];
    assert_eq!(events.len(), 11);
    assert_delivers(reply(play(&cfg, &params(Some(64), false), events)), "image/png", b"c");
}

#[test]
fn stages_wait_for_their_own_outcomes() {
    assert!(Stage::Scaling.expects(&Event::Rejected(String::new())));
    assert!(!Stage::Scaling.expects(&Event::Failed));
    assert!(!Stage::ProbingBase.expects(&Event::Failed));
    assert!(Stage::Fetching(Attempt::First).expects(&received(200, "image/png", b"")));
    assert!(Stage::Fetching(Attempt::Retry).expects(&Event::Unread { status: 200 }));
    assert!(!Stage::Storing(Attempt::Retry).expects(&Event::Unread { status: 200 }));
    assert!(!Stage::Storing(Attempt::First).expects(&received(200, "image/png", b"")));
}
