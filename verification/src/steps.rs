//! What one step of a request for an image does with what comes in, told by the fields of the
//! session, the outcome and the work that is called for.
use vstd::prelude::*;

#[allow(unused_imports)]
use crate::config::{AppConfig, Params, Service};
#[allow(unused_imports)]
use crate::fetch::fetch_image;
#[allow(unused_imports)]
use crate::headers::ContentTypeError;
#[allow(unused_imports)]
use crate::response::{Body, Response};
#[allow(unused_imports)]
use crate::session::{Action, ActionView, Attempt, Event, Fault, Format, Job, Session, Stage};
#[allow(unused_imports)]
use crate::{config, headers, names, text};

verus! {

broadcast use vstd::string::group_string_axioms;

/// The file that holds a session's object as the service sent it.
pub open spec fn base_file(s: Session, cfg: &AppConfig) -> Seq<char> {
    cfg.storage_path@ + "/base/"@ + s.object.service.name@ + "/"@ + s.object.name@
}

/// The file that holds a session's object in the width asked for.
pub open spec fn width_file(s: Session, cfg: &AppConfig) -> Seq<char> {
    cfg.storage_path@ + "/mod/"@ + s.object.service.name@ + "/"@ + text::decimal(s.scale as nat)
        + "/"@ + s.object.name@
}

/// The file that holds the variant of a session's object that was made last.
pub open spec fn latest_file(s: Session, cfg: &AppConfig) -> Seq<char> {
    cfg.storage_path@ + "/mod/latest/"@ + s.object.service.name@ + "/"@ + s.object.name@
}

/// The client is sent these bytes, all of them and no others, under this media type, to be kept
/// for as long as the service's settings say, or a year where they say nothing.
pub open spec fn delivers(
    action: Action,
    content_type: Seq<char>,
    service: Service,
    bytes: Seq<u8>,
) -> bool {
    &&& action matches Action::Reply(reply)
    &&& reply.status == 200
    &&& reply.content_type matches Some(text)
    &&& text@ == content_type
    &&& reply.max_age matches Some(age)
    &&& service.cache matches Some(cache) ==> age == cache.max_age
    &&& service.cache is None ==> age == 31536000
    &&& reply.body matches Body::Bytes(body)
    &&& body@ == bytes
}

/// The client is told that the service does not deliver.
pub open spec fn gives_up(action: Action) -> bool {
    &&& action matches Action::Reply(reply)
    &&& reply.status == 500
    &&& reply.content_type is None
    &&& reply.max_age is None
    &&& reply.body is Empty
}

/// The client is told why its request is not served.
pub open spec fn refuses(reply: Response, reason: Seq<char>) -> bool {
    &&& reply.status == 400
    &&& reply.content_type matches Some(text)
    &&& text@ == "text/plain"@
    &&& reply.max_age is None
    &&& reply.body matches Body::Text(body)
    &&& body@ == reason
}

/// The service is asked for the session's object: below its endpoint, at the path that the name
/// stands for, within the time and up to the size that are configured.
pub open spec fn asks_the_service(action: Action, s: Session, cfg: &AppConfig) -> bool {
    &&& action matches Action::Download(request)
    &&& request.url@ == s.object.service.endpoint@ + "/"@ + names::unflattened(s.object.name@)
    &&& request.timeout_secs == cfg.req_timeout
    &&& request.max_body_bytes == cfg.max_body_size_bytes
}

/// A status by which a service does not deliver.
pub open spec fn refused(status: u16) -> bool {
    status < 200 || status > 299
}

/// A media type that no service sends as an image.
pub open spec fn is_document(content_type: Seq<char>) -> bool {
    content_type == "text/html"@ || content_type == "text/plain"@
}

/// The object is one that is never processed.
pub open spec fn is_skipped(s: Session, cfg: &AppConfig) -> bool {
    cfg.skip_list matches Some(list) && exists|i: int|
        0 <= i < list@.len() && #[trigger] list@[i]@ == s.object.name@
}

/// A word stands somewhere in a message.
pub open spec fn holds(message: Seq<char>, word: Seq<char>) -> bool {
    exists|i: int|
        0 <= i && i + word.len() <= message.len() && #[trigger] message.subrange(
            i,
            i + word.len(),
        ) == word
}

/// What a request is about is the same.
pub open spec fn same_subject(a: Session, b: Session) -> bool {
    &&& a.object.name@ == b.object.name@
    &&& a.object.service.name@ == b.object.service.name@
    &&& a.object.service.endpoint@ == b.object.service.endpoint@
    &&& a.object.service.cache == b.object.service.cache
    &&& a.scale == b.scale
    &&& a.force == b.force
    &&& a.engine == b.engine
}

/// What the scaler is given for an object: its width and its kind of work follow from the width
/// asked for, the media type and, of PNG images, the engine.
pub open spec fn scales(
    action: Action,
    s: Session,
    cfg: &AppConfig,
    content_type: Seq<char>,
    bytes: Seq<u8>,
) -> bool {
    &&& action matches Action::Scale(job)
    &&& match job {
        Job::Static { data, scale, format } => {
            &&& data@ == bytes
            &&& scale == s.scale
            &&& match format {
                Format::Jpeg => content_type == "image/jpeg"@ || content_type == "image/jpg"@,
                Format::Png => content_type == "image/png"@ && s.engine == 1,
                Format::WebP => content_type == "image/webp"@,
            }
        },
        Job::Png { data, scale } => {
            &&& data@ == bytes
            &&& scale == s.scale
            &&& content_type == "image/png"@
            &&& s.engine != 1
        },
        Job::Gif { source, target, scale } => {
            &&& source@ == base_file(s, cfg)
            &&& target@ == width_file(s, cfg)
            &&& scale == s.scale
            &&& content_type == "image/gif"@
        },
        Job::Mp4 { source, target, scale } => {
            &&& source@ == base_file(s, cfg)
            &&& target@ == width_file(s, cfg)
            &&& scale == s.scale
            &&& content_type == "video/mp4"@
        },
    }
}

/// A media type that a scaler is there for.
pub open spec fn is_scalable(content_type: Seq<char>) -> bool {
    ||| content_type == "image/jpeg"@
    ||| content_type == "image/jpg"@
    ||| content_type == "image/png"@
    ||| content_type == "image/webp"@
    ||| content_type == "image/gif"@
    ||| content_type == "video/mp4"@
}

/// The media types that are told apart are different texts.
pub(crate) proof fn media_types_differ()
    ensures
        "image/jpeg"@ != "image/png"@,
        "image/jpeg"@ != "image/webp"@,
        "image/jpeg"@ != "image/gif"@,
        "image/jpeg"@ != "image/svg+xml"@,
        "image/jpeg"@ != "video/mp4"@,
        "image/jpg"@ != "image/png"@,
        "image/jpg"@ != "image/webp"@,
        "image/jpg"@ != "image/gif"@,
        "image/jpg"@ != "image/svg+xml"@,
        "image/jpg"@ != "video/mp4"@,
        "image/png"@ != "image/webp"@,
        "image/png"@ != "image/gif"@,
        "image/png"@ != "image/svg+xml"@,
        "image/png"@ != "video/mp4"@,
        "image/webp"@ != "image/gif"@,
        "image/webp"@ != "image/svg+xml"@,
        "image/webp"@ != "video/mp4"@,
        "image/gif"@ != "image/svg+xml"@,
        "image/gif"@ != "video/mp4"@,
        "image/svg+xml"@ != "video/mp4"@,
        forall|t: Seq<char>| #[trigger]
            is_document(t) ==> !is_scalable(t) && t != "image/svg+xml"@ && t
                != "application/octet-stream"@,
        forall|t: Seq<char>| #[trigger] is_scalable(t) ==> t != "application/octet-stream"@,
        "image/svg+xml"@ != "application/octet-stream"@,
{
    reveal_strlit("image/jpeg");
    reveal_strlit("image/jpg");
    reveal_strlit("image/png");
    reveal_strlit("image/webp");
    reveal_strlit("image/gif");
    reveal_strlit("image/svg+xml");
    reveal_strlit("video/mp4");
    reveal_strlit("text/html");
    reveal_strlit("text/plain");
    reveal_strlit("application/octet-stream");
    assert("image/png"@[6] == 'p');
    assert("image/webp"@[6] == 'w');
    assert("image/gif"@[6] == 'g');
    assert("image/svg+xml"@[6] == 's');
    assert("image/jpeg"@[6] == 'j');
    assert("image/jpg"@[6] == 'j');
    assert("video/mp4"@[0] == 'v');
    assert("image/png"@[0] == 'i' && "image/webp"@[0] == 'i' && "image/gif"@[0] == 'i'
        && "image/svg+xml"@[0] == 'i' && "image/jpeg"@[0] == 'i' && "image/jpg"@[0] == 'i');
    assert("text/html"@[0] == 't' && "text/plain"@[0] == 't');
    assert("application/octet-stream"@[0] == 'a');
}

/// A width that is asked for, zero where none is.
pub open spec fn width_of(params: &Params) -> u32 {
    if params.width is Some {
        params.width->0
    } else {
        0
    }
}

/// No service of that name is on the allow list.
pub open spec fn is_unknown(cfg: &AppConfig, service: &str) -> bool {
    forall|i: int| 0 <= i < cfg.services@.len() ==> #[trigger] cfg.services@[i].name@ != service@
}

/// There is a list of widths, and nothing on it admits the width: only the width itself does, and
/// anything does if none is asked for.
pub open spec fn is_unlisted(cfg: &AppConfig, width: u32) -> bool {
    cfg.allowed_sizes matches Some(list) && forall|i: int|
        0 <= i < list@.len() ==> #[trigger] list@[i] != width && width != 0
}

/// A request is refused for its service exactly when no service of that name is on the allow
/// list, and otherwise for its width exactly when there is a list of widths on which nothing is
/// that width, or nothing at all if no width is asked for.
pub proof fn requests_are_refused_by_the_lists(
    cfg: &AppConfig,
    service: &str,
    image: &str,
    params: &Params,
    result: Result<(Session, Action), Response>,
)
    requires
        call_ensures(fetch_image, (cfg, service, image, params), result),
    ensures
        result is Err <==> is_unknown(cfg, service) || is_unlisted(cfg, width_of(params)),
        is_unknown(cfg, service) ==> refuses(result->Err_0, "Received endpoint not allowed!"@),
        !is_unknown(cfg, service) && is_unlisted(cfg, width_of(params)) ==> refuses(
            result->Err_0,
            "Scaling value not allowed!"@,
        ),
{
    config::first_service_by_list(cfg, service@);
    config::allowed_by_list(cfg, width_of(params));
    let width = width_of(params);
    assert(params@.scale() == width);
    if let Some(list) = cfg.allowed_sizes {
        if cfg@.allows_size(width) {
            let i = choose|i: int|
                0 <= i < list@.len() && ((#[trigger] list@[i]) == width || width == 0);
            assert(list@[i] == width || width == 0);
            assert(!is_unlisted(cfg, width));
        } else {
            assert forall|i: int| 0 <= i < list@.len() implies #[trigger] list@[i] != width && width
                != 0 by {}
        }
    }
    assert(is_unlisted(cfg, width) <==> !cfg@.allows_size(width));
    if result is Err {
        assert(result->Err_0.content_type.deep_view() == Some("text/plain"@));
    }
}

/// A request that is served is about the first service of that name, the image and the path of
/// the client, and the client's width, insistence and engine; nothing is known of the object yet,
/// and the directories for it are made first.
pub proof fn requests_begin_with_what_the_client_asks(
    cfg: &AppConfig,
    service: &str,
    image: &str,
    params: &Params,
    s: Session,
    action: Action,
)
    requires
        call_ensures(
            fetch_image,
            (cfg, service, image, params),
            Ok::<(Session, Action), Response>((s, action)),
        ),
    ensures
        exists|i: int|
            0 <= i < cfg.services@.len() && (#[trigger] cfg.services@[i]).name@ == service@
                && s.object.service.endpoint@ == cfg.services@[i].endpoint@
                && s.object.service.cache == cfg.services@[i].cache && forall|j: int|
                0 <= j < i ==> (#[trigger] cfg.services@[j]).name@ != service@,
        s.object.service.name@ == service@,
        params.path is None ==> s.object.name@ == image@,
        params.path matches Some(path) ==> s.object.name@ == image@ + "-_-"@ + names::flattened(
            path@,
        ),
        s.scale == width_of(params),
        s.force <==> params.force == Some(true),
        params.engine matches Some(engine) ==> s.engine == engine,
        params.engine is None ==> s.engine == 0,
        s.object.data@.len() == 0,
        s.object.content_type@ == "text/plain"@,
        s.object.status is None,
        s.object.headers is None,
        s.object.response is None,
        s.pending@.len() == 0,
        s.stage == Stage::Preparing,
        action matches Action::CreateDirs(dirs) && {
            &&& dirs@.len() == 3
            &&& dirs@[0]@ == cfg.storage_path@ + "/base/"@ + service@
            &&& dirs@[1]@ == cfg.storage_path@ + "/mod/latest/"@ + service@
            &&& dirs@[2]@ == cfg.storage_path@ + "/mod/"@ + service@ + "/"@ + text::decimal(
                width_of(params) as nat,
            )
        },
{
    config::first_service_by_list(cfg, service@);
    let dirs = action->CreateDirs_0;
    let texts = dirs.deep_view();
    assert(action@ == ActionView::CreateDirs(texts));
    assert(texts.len() == 3);
    assert(texts[0] == dirs@[0]@ && texts[1] == dirs@[1]@ && texts[2] == dirs@[2]@);
}

/// No step changes what a request is about.
pub proof fn steps_keep_the_subject(
    s: Session,
    cfg: &AppConfig,
    event: Event,
    step: (Session, Action),
)
    requires
        call_ensures(Session::step, (s, cfg, event), step),
    ensures
        same_subject(s, step.0),
{
}

/// Of the object's bytes and status and of the bytes at hand, a step changes just what came in:
/// the bytes of the stored object, of the service's answer, of the drawing as an image; the
/// answer's status; and the bytes of a variant, stored or made.
pub proof fn steps_take_just_what_came(
    s: Session,
    cfg: &AppConfig,
    event: Event,
    step: (Session, Action),
)
    requires
        call_ensures(Session::step, (s, cfg, event), step),
    ensures
        step.0.object.data@ == match (s.stage, event) {
            (Stage::ReadingBase, Event::Contents(data)) => data@,
            (Stage::Fetching(_), Event::Received { body, .. }) => body@,
            (Stage::Rasterizing, Event::Image(image)) => image@,
            _ => s.object.data@,
        },
        step.0.object.status == match (s.stage, event) {
            (Stage::Fetching(_), Event::Received { status, .. }) => Some(status),
            (Stage::Fetching(_), Event::Unread { status }) => Some(status),
            _ => s.object.status,
        },
        step.0.pending@ == match (s.stage, event) {
            (Stage::ReadingVariant, Event::Contents(data)) => data@,
            (Stage::Scaling, Event::Image(image)) => if image@ == s.object.data@ {
                s.pending@
            } else {
                image@
            },
            _ => s.pending@,
        },
        match (s.stage, event) {
            (Stage::Fetching(_), Event::Received { headers: given, .. }) => {
                &&& step.0.object.headers matches Some(kept)
                &&& headers::header_contents(kept) == headers::header_contents(given)
            },
            _ => step.0.object@.headers == s.object@.headers,
        },
        step.1 is Download ==> step.0.object.response is None,
{
}

/// The object's media type is the last that was guessed or named by the service; a drawing turned
/// into an image is a PNG image, and a video about to be scaled becomes a GIF animation. Nothing
/// else changes it.
pub proof fn steps_take_the_media_type_that_came(
    s: Session,
    cfg: &AppConfig,
    event: Event,
    step: (Session, Action),
)
    requires
        call_ensures(Session::step, (s, cfg, event), step),
    ensures
        step.0.object.content_type@ == if step.1 matches Action::Scale(job) && job is Mp4 {
            "image/gif"@
        } else {
            match (s.stage, event) {
                (Stage::GuessingVariant, Event::Guessed(text)) => text@,
                (Stage::GuessingBase, Event::Guessed(text)) => text@,
                (Stage::GuessingFormat, Event::Guessed(text)) => text@,
                (Stage::Fetching(_), Event::Received { headers: given, .. }) =>
                match headers::content_type_of(headers::header_contents(given)) {
                    Ok(text) => text,
                    Err(_) => s.object.content_type@,
                },
                (Stage::Rasterizing, Event::Image(_)) => "image/png"@,
                _ => s.object.content_type@,
            }
        },
{
    media_types_differ();
}

/// Work that fails ends the request with a fault, and so does an answer that cannot be taken.
pub proof fn failures_are_reported(
    s: Session,
    cfg: &AppConfig,
    event: Event,
    step: (Session, Action),
)
    requires
        call_ensures(Session::step, (s, cfg, event), step),
        event is Failed || s.stage is Fetching && event is Unread,
    ensures
        step.1 matches Action::Fail(fault) && fault == Fault::Reported,
        step.0.stage == Stage::Finished,
{
}

/// With a width and no insistence the variant is looked for first; else the object is, and a
/// client that insists has the service asked at once.
pub proof fn storage_comes_before_the_service(
    s: Session,
    cfg: &AppConfig,
    event: Event,
    step: (Session, Action),
)
    requires
        call_ensures(Session::step, (s, cfg, event), step),
        s.stage == Stage::Preparing,
        event is Done,
    ensures
        s.force ==> asks_the_service(step.1, s, cfg) && step.0.stage == Stage::Fetching(
            Attempt::First,
        ),
        !s.force && s.scale != 0 ==> step.0.stage == Stage::ProbingVariant && (
        step.1 matches Action::Probe(path) && path@ == width_file(s, cfg)),
        !s.force && s.scale == 0 ==> step.0.stage == Stage::ProbingBase && (
        step.1 matches Action::Probe(path) && path@ == base_file(s, cfg)),
{
}

/// A variant that is there is read, guessed and delivered; where it is not, the object is looked
/// for.
pub proof fn variants_are_served_from_storage(
    s: Session,
    cfg: &AppConfig,
    event: Event,
    step: (Session, Action),
)
    requires
        call_ensures(Session::step, (s, cfg, event), step),
        !s.force,
    ensures
        s.stage == Stage::ProbingVariant && event == Event::Exists(true) ==> step.0.stage
            == Stage::ReadingVariant && (step.1 matches Action::Read(path) && path@ == width_file(
            s,
            cfg,
        )),
        s.stage == Stage::ProbingVariant && event == Event::Exists(false) ==> step.0.stage
            == Stage::ProbingBase && (step.1 matches Action::Probe(path) && path@ == base_file(
            s,
            cfg,
        )),
        s.stage == Stage::ReadingVariant && event is Contents ==> step.0.stage
            == Stage::GuessingVariant && (step.1 matches Action::Guess(path) && path@ == width_file(
            s,
            cfg,
        )),
        s.stage == Stage::GuessingVariant ==> (event matches Event::Guessed(text) ==> delivers(
            step.1,
            text@,
            s.object.service,
            s.pending@,
        ) && step.0.stage == Stage::Finished),
{
}

/// An object that is in storage is read from there, whatever the width; the service is asked only
/// where it is not.
pub proof fn objects_are_served_from_storage(
    s: Session,
    cfg: &AppConfig,
    event: Event,
    step: (Session, Action),
)
    requires
        call_ensures(Session::step, (s, cfg, event), step),
    ensures
        s.stage == Stage::ProbingBase && event == Event::Exists(true) ==> step.0.stage
            == Stage::ReadingBase && (step.1 matches Action::Read(path) && path@ == base_file(
            s,
            cfg,
        )),
        s.stage == Stage::ProbingBase && event == Event::Exists(false) ==> step.0.stage
            == Stage::Fetching(Attempt::First) && asks_the_service(step.1, s, cfg),
        s.stage == Stage::ReadingBase && event is Contents ==> step.0.stage
            == Stage::GuessingBase && (step.1 matches Action::Guess(path) && path@ == base_file(
            s,
            cfg,
        )),
{
}

/// What the service sends is stored, whatever its status, if a media type can be read from its
/// headers, and is a fault otherwise.
pub proof fn answers_are_stored(
    s: Session,
    cfg: &AppConfig,
    event: Event,
    step: (Session, Action),
    attempt: Attempt,
)
    requires
        call_ensures(Session::step, (s, cfg, event), step),
        s.stage == Stage::Fetching(attempt),
        event is Received,
    ensures
        match headers::content_type_of(headers::header_contents(event->headers)) {
            Ok(_) => {
                &&& step.1 matches Action::StoreBase { path, data }
                &&& path@ == base_file(s, cfg)
                &&& data@ == event->body@
                &&& step.0.stage == Stage::Storing(attempt)
            },
            Err(error) => {
                &&& step.1 matches Action::Fail(fault)
                &&& fault == Fault::ContentType(error)
                &&& step.0.stage == Stage::Finished
            },
        },
{
}

/// The same with the media type handed in.
pub proof fn answers_are_stored_as_named(
    s: Session,
    cfg: &AppConfig,
    attempt: Attempt,
    status: u16,
    given: actix_web::http::header::HeaderMap,
    body: Vec<u8>,
    named: Result<String, ContentTypeError>,
    step: (Session, Action),
)
    requires
        call_ensures(Session::receive_as, (s, cfg, attempt, status, given, body, named), step),
    ensures
        same_subject(s, step.0),
        step.0.object.data@ == body@,
        step.0.object.status == Some(status),
        step.0.object.headers matches Some(kept) && headers::header_contents(kept)
            == headers::header_contents(given),
        step.0.pending@ == s.pending@,
        match named {
            Ok(text) => {
                &&& step.1 matches Action::StoreBase { path, data }
                &&& path@ == base_file(s, cfg)
                &&& data@ == body@
                &&& step.0.stage == Stage::Storing(attempt)
                &&& step.0.object.content_type@ == text@
            },
            Err(error) => {
                &&& step.1 matches Action::Fail(fault)
                &&& fault == Fault::ContentType(error)
                &&& step.0.stage == Stage::Finished
                &&& step.0.object.content_type@ == s.object.content_type@
            },
        },
{
}

/// A service that refuses an object is asked once more, and the client is told if it refuses
/// again. What replaces a document is delivered, except that without a width a refusal is passed
/// on as one; and so is what replaces a damaged object, whatever its status.
pub proof fn refusals_are_answered(
    s: Session,
    cfg: &AppConfig,
    event: Event,
    step: (Session, Action),
    status: u16,
)
    requires
        call_ensures(Session::step, (s, cfg, event), step),
        event is Done,
        s.object.status == Some(status),
    ensures
        s.stage == Stage::Storing(Attempt::First) && refused(status) ==> asks_the_service(
            step.1,
            s,
            cfg,
        ) && step.0.stage == Stage::Fetching(Attempt::Retry),
        s.stage == Stage::Storing(Attempt::Retry) && refused(status) ==> gives_up(step.1)
            && step.0.stage == Stage::Finished,
        s.stage == Stage::Storing(Attempt::Unscaled) && refused(status) ==> gives_up(step.1)
            && step.0.stage == Stage::Finished,
        s.stage == Stage::Storing(Attempt::Unscaled) && !refused(status) || s.stage
            == Stage::Storing(Attempt::Document) || s.stage == Stage::Storing(Attempt::Damaged)
            ==> delivers(step.1, s.object.content_type@, s.object.service, s.object.data@)
            && step.0.stage == Stage::Finished,
{
}

/// With this outcome the object is at hand, of this media type and with these bytes: read from
/// storage and guessed, sent by the service and stored, or drawn as an image.
pub open spec fn is_at_hand(
    s: Session,
    event: Event,
    content_type: Seq<char>,
    bytes: Seq<u8>,
) -> bool {
    match s.stage {
        Stage::GuessingBase => {
            &&& event matches Event::Guessed(text)
            &&& content_type == text@
            &&& bytes == s.object.data@
        },
        Stage::Storing(attempt) => {
            &&& attempt == Attempt::First || attempt == Attempt::Retry
            &&& event is Done
            &&& s.object.status matches Some(status) ==> !refused(status)
            &&& content_type == s.object.content_type@
            &&& bytes == s.object.data@
        },
        Stage::Rasterizing => {
            &&& event matches Event::Image(image)
            &&& content_type == "image/png"@
            &&& bytes == image@
        },
        _ => false,
    }
}

/// A drawing is turned into an image before anything else is done with it.
pub proof fn drawings_become_images(
    s: Session,
    cfg: &AppConfig,
    event: Event,
    step: (Session, Action),
    bytes: Seq<u8>,
)
    requires
        call_ensures(Session::step, (s, cfg, event), step),
        is_at_hand(s, event, "image/svg+xml"@, bytes),
    ensures
        step.1 matches Action::Rasterize(data) && data@ == bytes,
        step.0.stage == Stage::Rasterizing,
{
    media_types_differ();
}

/// An image or a video is scaled to the width asked for, by the scaler of its media type, unless
/// no width is asked for or the object is to be skipped.
pub proof fn images_are_scaled_to_the_width(
    s: Session,
    cfg: &AppConfig,
    event: Event,
    step: (Session, Action),
    content_type: Seq<char>,
    bytes: Seq<u8>,
)
    requires
        call_ensures(Session::step, (s, cfg, event), step),
        is_at_hand(s, event, content_type, bytes),
        is_scalable(content_type),
        s.scale != 0,
        !is_skipped(s, cfg),
    ensures
        scales(step.1, s, cfg, content_type, bytes),
        step.0.stage == Stage::Scaling,
{
    media_types_differ();
    config::skipped_by_list(cfg, s.object.name@);
}

/// Without a width everything but a drawing or a document is delivered as it is; so is, with a
/// width, everything but a drawing if the object is to be skipped, and whatever no scaler is there
/// for if its media type is known.
pub proof fn the_rest_is_delivered_as_it_is(
    s: Session,
    cfg: &AppConfig,
    event: Event,
    step: (Session, Action),
    content_type: Seq<char>,
    bytes: Seq<u8>,
)
    requires
        call_ensures(Session::step, (s, cfg, event), step),
        is_at_hand(s, event, content_type, bytes),
        content_type != "image/svg+xml"@,
        s.scale == 0 ==> !is_document(content_type),
        s.scale != 0 && !is_skipped(s, cfg) ==> !is_scalable(content_type) && !is_document(
            content_type,
        ) && content_type != "application/octet-stream"@,
    ensures
        delivers(step.1, content_type, s.object.service, bytes),
        step.0.stage == Stage::Finished,
{
    media_types_differ();
    config::skipped_by_list(cfg, s.object.name@);
}

/// A document is no object: the service is asked again, unless the object is to be skipped.
pub proof fn documents_are_asked_for_again(
    s: Session,
    cfg: &AppConfig,
    event: Event,
    step: (Session, Action),
    content_type: Seq<char>,
    bytes: Seq<u8>,
)
    requires
        call_ensures(Session::step, (s, cfg, event), step),
        is_at_hand(s, event, content_type, bytes),
        is_document(content_type),
        s.scale == 0 || !is_skipped(s, cfg),
    ensures
        asks_the_service(step.1, s, cfg),
        step.0.stage == Stage::Fetching(
            if s.scale == 0 {
                Attempt::Unscaled
            } else {
                Attempt::Document
            },
        ),
{
    media_types_differ();
    config::skipped_by_list(cfg, s.object.name@);
}

/// Bytes of which the service does not say what they are have their media type guessed from the
/// stored object, and are then delivered as they are.
pub proof fn unknown_bytes_are_guessed(
    s: Session,
    cfg: &AppConfig,
    event: Event,
    step: (Session, Action),
    bytes: Seq<u8>,
)
    requires
        call_ensures(Session::step, (s, cfg, event), step),
    ensures
        is_at_hand(s, event, "application/octet-stream"@, bytes) && s.scale != 0 && !is_skipped(
            s,
            cfg,
        ) ==> step.0.stage == Stage::GuessingFormat && (step.1 matches Action::Guess(path) && path@
            == base_file(s, cfg)),
        s.stage == Stage::GuessingFormat ==> (event matches Event::Guessed(text) ==> delivers(
            step.1,
            text@,
            s.object.service,
            s.object.data@,
        ) && step.0.stage == Stage::Finished),
{
    media_types_differ();
    assert(!is_scalable("application/octet-stream"@));
    assert(!is_document("application/octet-stream"@));
    config::skipped_by_list(cfg, s.object.name@);
}

/// What a scaler makes is delivered at once if it is the object itself; otherwise it is written to
/// the file of its width, then to that of the latest variant, and then delivered.
pub proof fn scaled_images_are_kept_and_delivered(
    s: Session,
    cfg: &AppConfig,
    event: Event,
    step: (Session, Action),
)
    requires
        call_ensures(Session::step, (s, cfg, event), step),
    ensures
        s.stage == Stage::Scaling ==> (event matches Event::Image(image) ==> if image@
            == s.object.data@ {
            delivers(step.1, s.object.content_type@, s.object.service, image@) && step.0.stage
                == Stage::Finished
        } else {
            &&& step.1 matches Action::StoreVariant { path, data }
            &&& path@ == width_file(s, cfg)
            &&& data@ == image@
            &&& step.0.stage == Stage::SavingVariant
        }),
        s.stage == Stage::SavingVariant && event is Done ==> {
            &&& step.1 matches Action::StoreVariant { path, data }
            &&& path@ == latest_file(s, cfg)
            &&& data@ == s.pending@
            &&& step.0.stage == Stage::SavingLatest
        },
        s.stage == Stage::SavingLatest && event is Done ==> delivers(
            step.1,
            s.object.content_type@,
            s.object.service,
            s.pending@,
        ) && step.0.stage == Stage::Finished,
{
}

/// A scaler that speaks of a buffer or of an unexpected end was given a damaged object, for which
/// the service is asked again; with any other objection the object is delivered unscaled.
pub proof fn objections_are_answered(
    s: Session,
    cfg: &AppConfig,
    event: Event,
    step: (Session, Action),
    message: Seq<char>,
)
    requires
        call_ensures(Session::step, (s, cfg, event), step),
        s.stage == Stage::Scaling,
        event matches Event::Rejected(said) && said@ == message,
    ensures
        holds(message, "buffer"@) || holds(message, "unexpected EOF"@) ==> asks_the_service(
            step.1,
            s,
            cfg,
        ) && step.0.stage == Stage::Fetching(Attempt::Damaged),
        !holds(message, "buffer"@) && !holds(message, "unexpected EOF"@) ==> delivers(
            step.1,
            s.object.content_type@,
            s.object.service,
            s.object.data@,
        ) && step.0.stage == Stage::Finished,
{
    word_occurs(message, "buffer"@);
    word_occurs(message, "unexpected EOF"@);
}

pub(crate) proof fn word_occurs(message: Seq<char>, word: Seq<char>)
    ensures
        holds(message, word) <==> text::occurs_in(message, word),
{
    if holds(message, word) {
        let i = choose|i: int|
            0 <= i && i + word.len() <= message.len() && #[trigger] message.subrange(
                i,
                i + word.len(),
            ) == word;
        assert(text::occurs_at(message, word, i));
    }
    if text::occurs_in(message, word) {
        let i = choose|i: int| text::occurs_at(message, word, i);
        assert(message.subrange(i, i + word.len()) == word);
    }
}

/// The outcomes that a stage waits for are those of its own work.
pub proof fn stages_wait_for_their_work(stage: Stage, event: Event, yes: bool)
    requires
        call_ensures(Stage::expects, (&stage, &event), yes),
    ensures
        yes <==> match event {
            Event::Done => stage == Stage::Preparing || stage is Storing || stage
                == Stage::SavingVariant || stage == Stage::SavingLatest,
            Event::Exists(_) => stage == Stage::ProbingVariant || stage == Stage::ProbingBase,
            Event::Contents(_) => stage == Stage::ReadingVariant || stage == Stage::ReadingBase,
            Event::Guessed(_) => stage == Stage::GuessingVariant || stage == Stage::GuessingBase
                || stage == Stage::GuessingFormat,
            Event::Received { .. } => stage is Fetching,
            Event::Unread { .. } => stage is Fetching,
            Event::Image(_) => stage == Stage::Rasterizing || stage == Stage::Scaling,
            Event::Rejected(_) => stage == Stage::Scaling,
            Event::Failed => stage != Stage::Finished && stage != Stage::ProbingVariant && stage
                != Stage::ProbingBase && stage != Stage::Scaling,
        },
{
}

} // verus!
