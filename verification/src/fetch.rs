//! Serving a request for an image, step by step.
use actix_web::http::header::HeaderMap;
use vstd::prelude::*;

use crate::config::{AppConfig, AppConfigView, Params, ParamsView};
use crate::headers::{content_type, ContentTypeError};
use crate::media::{kind_of, Kind};
use crate::names::object_name;
use crate::object::{Object, ObjectView};
use crate::response::{delivery, is_success, refusal, upstream_failure, Response, ResponseView};
use crate::session::{
    Action, ActionView, Attempt, Event, EventView, Fault, Format, Job, JobView, Session,
    SessionView, Stage,
};
use crate::storage::{directories, latest_path, variant_path};
use crate::text::contains;
#[allow(unused_imports)]
use crate::{config, headers, media, names, response, session, storage, text};

verus! {

/// The end of one step: the request as it stands now, and what it needs done.
pub type Step = (SessionView, ActionView);

/// A scaler's objection that points at damaged data.
pub open spec fn looks_damaged(message: Seq<char>) -> bool {
    text::occurs_in(message, "buffer"@) || text::occurs_in(message, "unexpected EOF"@)
}

impl SessionView {
    /// Where the object is kept in the width asked for.
    pub open spec fn variant_path(self, cfg: AppConfigView) -> Seq<char> {
        storage::variant_path_of(
            cfg.storage_path,
            self.object.service.name,
            self.scale,
            self.object.name,
        )
    }

    /// Where the object's latest variant is kept.
    pub open spec fn latest_path(self, cfg: AppConfigView) -> Seq<char> {
        storage::latest_path_of(
            cfg.storage_path,
            self.object.service.name,
            self.object.name,
        )
    }

    /// The request at another stage.
    pub open spec fn at(self, stage: Stage) -> Self {
        SessionView { stage, ..self }
    }

    /// The request with another media type.
    pub open spec fn of_type(self, content_type: Seq<char>) -> Self {
        SessionView {
            object: ObjectView { content_type, ..self.object },
            ..self
        }
    }

    /// The end, with the object's media type and the given bytes.
    pub open spec fn deliver(self, bytes: Seq<u8>) -> Step {
        (
            self.at(Stage::Finished),
            ActionView::Reply(
                response::delivery_of(
                    self.object.content_type,
                    self.object.service.max_age(),
                    bytes,
                ),
            ),
        )
    }

    /// The end, when the service does not deliver.
    pub open spec fn give_up(self) -> Step {
        (
            self.at(Stage::Finished),
            ActionView::Reply(response::upstream_failure_view()),
        )
    }

    /// The end, with a fault.
    pub open spec fn fail(self, fault: Fault) -> Step {
        (self.at(Stage::Finished), ActionView::Fail(fault))
    }

    /// A download begins.
    pub open spec fn fetch(self, cfg: AppConfigView, attempt: Attempt) -> Step {
        (
            SessionView {
                object: ObjectView { response: None, ..self.object },
                stage: Stage::Fetching(attempt),
                ..self
            },
            ActionView::Download(self.object.request(cfg)),
        )
    }

    /// The object is looked for in storage, unless the client insists on a download.
    pub open spec fn seek_base(self, cfg: AppConfigView) -> Step {
        if self.force {
            self.fetch(cfg, Attempt::First)
        } else {
            (
                self.at(Stage::ProbingBase),
                ActionView::Probe(self.object.base_path(cfg)),
            )
        }
    }

    /// The service answered, and its headers name a media type or not: if they do, what it sent
    /// is stored, whatever its status.
    pub open spec fn receive_as(
        self,
        cfg: AppConfigView,
        attempt: Attempt,
        status: u16,
        headers: Map<Seq<char>, Seq<Seq<u8>>>,
        body: Seq<u8>,
        named: Result<Seq<char>, ContentTypeError>,
    ) -> Step {
        match named {
            Ok(content_type) => (
                SessionView {
                    object: self.object.answered(status, headers, body, content_type),
                    stage: Stage::Storing(attempt),
                    ..self
                },
                ActionView::StoreBase { path: self.object.base_path(cfg), data: body },
            ),
            Err(error) => SessionView {
                object: self.object.answered(status, headers, body, self.object.content_type),
                ..self
            }.fail(Fault::ContentType(error)),
        }
    }

    /// The service answered.
    pub open spec fn receive(
        self,
        cfg: AppConfigView,
        attempt: Attempt,
        status: u16,
        headers: Map<Seq<char>, Seq<Seq<u8>>>,
        body: Seq<u8>,
    ) -> Step {
        self.receive_as(cfg, attempt, status, headers, body, headers::content_type_of(headers))
    }

    /// The service answered, but its body could not be taken: only the status is known.
    pub open spec fn unread(self, status: u16) -> Step {
        SessionView {
            object: ObjectView { status: Some(status), ..self.object },
            ..self
        }.fail(Fault::Reported)
    }

    /// Whether the service's last answer, if there is one, reports something other than success.
    pub open spec fn was_refused(self) -> bool {
        self.object.status matches Some(status) && !response::success_status(status)
    }

    /// What the service sent is stored.
    pub open spec fn stored(self, cfg: AppConfigView, attempt: Attempt) -> Step {
        match attempt {
            Attempt::First => if self.was_refused() {
                self.fetch(cfg, Attempt::Retry)
            } else {
                self.present(cfg)
            },
            Attempt::Retry => if self.was_refused() {
                self.give_up()
            } else {
                self.present(cfg)
            },
            Attempt::Unscaled => if self.was_refused() {
                self.give_up()
            } else {
                self.deliver(self.object.data)
            },
            Attempt::Document | Attempt::Damaged => self.deliver(self.object.data),
        }
    }

    /// The object is there: drawings are turned into images first.
    pub open spec fn present(self, cfg: AppConfigView) -> Step {
        if media::kind_named(self.object.content_type) == Kind::Svg {
            (
                self.at(Stage::Rasterizing),
                ActionView::Rasterize(self.object.data),
            )
        } else {
            self.hand_out(cfg)
        }
    }

    /// The object is delivered as it is, or processed: as it is where no width was asked for or
    /// the object is on the skip list.
    pub open spec fn hand_out(self, cfg: AppConfigView) -> Step {
        if self.scale == 0 {
            if media::kind_named(self.object.content_type) == Kind::Document {
                self.fetch(cfg, Attempt::Unscaled)
            } else {
                self.deliver(self.object.data)
            }
        } else if cfg.skips(self.object.name) {
            self.deliver(self.object.data)
        } else {
            self.process(cfg)
        }
    }

    /// The request while a scaler works on the object, for the media type of what it makes.
    pub open spec fn scaling(self, content_type: Seq<char>, job: JobView) -> Step {
        (
            self.of_type(content_type).at(Stage::Scaling),
            ActionView::Scale(job),
        )
    }

    /// The general scaler's work on the object.
    pub open spec fn static_job(self, format: Format) -> JobView {
        JobView::Static { data: self.object.data, scale: self.scale, format }
    }

    /// The object is scaled by what its media type calls for; documents are downloaded again,
    /// and what is not an image stays as it is.
    pub open spec fn process(self, cfg: AppConfigView) -> Step {
        let object = self.object;
        match media::kind_named(object.content_type) {
            Kind::Jpeg => self.scaling(object.content_type, self.static_job(Format::Jpeg)),
            Kind::Png => if self.engine == 1 {
                self.scaling(object.content_type, self.static_job(Format::Png))
            } else {
                self.scaling(
                    object.content_type,
                    JobView::Png { data: object.data, scale: self.scale },
                )
            },
            Kind::WebP => self.scaling(object.content_type, self.static_job(Format::WebP)),
            Kind::Gif => self.scaling(
                object.content_type,
                JobView::Gif {
                    source: object.base_path(cfg),
                    target: self.variant_path(cfg),
                    scale: self.scale,
                },
            ),
            Kind::Svg => self.scaling("image/png"@, self.static_job(Format::Png)),
            Kind::Mp4 => self.scaling(
                "image/gif"@,
                JobView::Mp4 {
                    source: object.base_path(cfg),
                    target: self.variant_path(cfg),
                    scale: self.scale,
                },
            ),
            Kind::Document => self.fetch(cfg, Attempt::Document),
            Kind::Unknown => (
                self.at(Stage::GuessingFormat),
                ActionView::Guess(object.base_path(cfg)),
            ),
            Kind::Other => self.deliver(object.data),
        }
    }

    /// A scaler made an image: it is kept unless it is the object itself.
    pub open spec fn scaled(self, cfg: AppConfigView, image: Seq<u8>) -> Step {
        if image == self.object.data {
            self.deliver(image)
        } else {
            (
                SessionView {
                    pending: image,
                    stage: Stage::SavingVariant,
                    ..self
                },
                ActionView::StoreVariant {
                    path: self.variant_path(cfg),
                    data: image,
                },
            )
        }
    }

    /// A scaler objects: damaged objects are downloaded again, others delivered as they are.
    pub open spec fn rejected(
        self,
        cfg: AppConfigView,
        message: Seq<char>,
    ) -> Step {
        if looks_damaged(message) {
            self.fetch(cfg, Attempt::Damaged)
        } else {
            self.deliver(self.object.data)
        }
    }

    /// How the request goes on with the outcome that its stage waits for.
    pub open spec fn next(
        self,
        cfg: AppConfigView,
        event: EventView,
    ) -> Step {
        match (self.stage, event) {
            (_, EventView::Failed) => self.fail(Fault::Reported),
            (Stage::Preparing, EventView::Done) => if self.scale != 0
                && !self.force {
                (
                    self.at(Stage::ProbingVariant),
                    ActionView::Probe(self.variant_path(cfg)),
                )
            } else {
                self.seek_base(cfg)
            },
            (Stage::ProbingVariant, EventView::Exists(found)) => if found {
                (
                    self.at(Stage::ReadingVariant),
                    ActionView::Read(self.variant_path(cfg)),
                )
            } else {
                self.seek_base(cfg)
            },
            (Stage::ReadingVariant, EventView::Contents(data)) => (
                SessionView {
                    pending: data,
                    stage: Stage::GuessingVariant,
                    ..self
                },
                ActionView::Guess(self.variant_path(cfg)),
            ),
            (Stage::GuessingVariant, EventView::Guessed(text)) => self.of_type(
                text,
            ).deliver(self.pending),
            (Stage::ProbingBase, EventView::Exists(found)) => if found {
                (
                    self.at(Stage::ReadingBase),
                    ActionView::Read(self.object.base_path(cfg)),
                )
            } else {
                self.fetch(cfg, Attempt::First)
            },
            (Stage::ReadingBase, EventView::Contents(data)) => (
                SessionView {
                    object: ObjectView { data, ..self.object },
                    stage: Stage::GuessingBase,
                    ..self
                },
                ActionView::Guess(self.object.base_path(cfg)),
            ),
            (Stage::GuessingBase, EventView::Guessed(text)) => self.of_type(
                text,
            ).present(cfg),
            (
                Stage::Fetching(attempt),
                EventView::Received { status, headers, body },
            ) => self.receive(cfg, attempt, status, headers, body),
            (Stage::Fetching(_), EventView::Unread { status }) => self.unread(status),
            (Stage::Storing(attempt), EventView::Done) => self.stored(
                cfg,
                attempt,
            ),
            (Stage::Rasterizing, EventView::Image(image)) =>
            SessionView {
                object: ObjectView {
                    data: image,
                    content_type: "image/png"@,
                    ..self.object
                },
                ..self
            }.hand_out(cfg),
            (Stage::Scaling, EventView::Image(image)) => self.scaled(cfg, image),
            (Stage::Scaling, EventView::Rejected(message)) => self.rejected(
                cfg,
                message,
            ),
            (Stage::GuessingFormat, EventView::Guessed(text)) => self.of_type(
                text,
            ).deliver(self.object.data),
            (Stage::SavingVariant, EventView::Done) => (
                self.at(Stage::SavingLatest),
                ActionView::StoreVariant {
                    path: self.latest_path(cfg),
                    data: self.pending,
                },
            ),
            (Stage::SavingLatest, EventView::Done) => self.deliver(self.pending),
            _ => self.fail(Fault::Reported),
        }
    }
}

/// How a request begins: refused where the service is not on the allow list, or else the width
/// is not; otherwise with the directories that its object needs.
pub open spec fn begin(
    cfg: AppConfigView,
    service: Seq<char>,
    image: Seq<char>,
    params: ParamsView,
) -> Result<Step, ResponseView> {
    match config::service_named(cfg.services, service) {
        None => Err(response::refusal_of("Received endpoint not allowed!"@)),
        Some(found) => if cfg.allows_size(params.scale()) {
            Ok(
                (
                    SessionView {
                        object: ObjectView {
                            data: Seq::empty(),
                            content_type: "text/plain"@,
                            name: names::object_name_of(image, params.path),
                            service: found,
                            response: None,
                            status: None,
                            headers: None,
                        },
                        scale: params.scale(),
                        force: params.force == Some(true),
                        engine: match params.engine {
                            Some(engine) => engine,
                            None => 0,
                        },
                        pending: Seq::empty(),
                        stage: Stage::Preparing,
                    },
                    ActionView::CreateDirs(
                        storage::directories_of(
                            cfg.storage_path,
                            found.name,
                            params.scale(),
                        ),
                    ),
                ),
            )
        } else {
            Err(response::refusal_of("Scaling value not allowed!"@))
        },
    }
}

fn copy_bytes(bytes: &Vec<u8>) -> (copy: Vec<u8>)
    ensures
        copy@ == bytes@,
{
    let copy = bytes.clone();
    assert(copy@ =~= bytes@);
    copy
}

fn same_bytes(a: &Vec<u8>, b: &Vec<u8>) -> (same: bool)
    ensures
        same == (a@ == b@),
{
    if a.len() != b.len() {
        return false;
    }
    let mut i: usize = 0;
    while i < a.len()
        invariant
            i <= a.len(),
            a.len() == b.len(),
            forall|j: int| 0 <= j < i ==> a@[j] == b@[j],
        decreases a.len() - i,
    {
        if a[i] != b[i] {
            return false;
        }
        i = i + 1;
    }
    assert(a@ =~= b@);
    true
}

/// Begins to serve a request for an image.
pub fn fetch_image(cfg: &AppConfig, service: &str, image: &str, params: &Params) -> (result: Result<
    (Session, Action),
    Response,
>)
    ensures
        match begin(cfg@, service@, image@, params@) {
            Ok(step) => result is Ok && (result->Ok_0.0@, result->Ok_0.1@) == step,
            Err(response) => result is Err && result->Err_0@ == response,
        },
{
    let path = match &params.path {
        Some(path) => Some(path.as_str()),
        None => None,
    };
    let mut object = Object::new(object_name(image, path));
    let Some(found) = cfg.find_service(service) else {
        return Err(refusal("Received endpoint not allowed!"));
    };
    object.service = found.clone();
    let scale: u32 = match params.width {
        Some(width) => width,
        None => 0,
    };
    if !cfg.allows_size(scale) {
        return Err(refusal("Scaling value not allowed!"));
    }
    let dirs = directories(cfg.storage_path.as_str(), object.service.name.as_str(), scale);
    let force = match params.force {
        Some(force) => force,
        None => false,
    };
    let engine: u32 = match params.engine {
        Some(engine) => engine,
        None => 0,
    };
    Ok(
        (
            Session {
                object,
                scale,
                force,
                engine,
                pending: Vec::new(),
                stage: Stage::Preparing,
            },
            Action::CreateDirs(dirs),
        ),
    )
}

impl Session {
    fn variant_path(&self, cfg: &AppConfig) -> (path: String)
        ensures
            path@ == self@.variant_path(cfg@),
    {
        variant_path(
            cfg.storage_path.as_str(),
            self.object.service.name.as_str(),
            self.scale,
            self.object.name.as_str(),
        )
    }

    fn latest_path(&self, cfg: &AppConfig) -> (path: String)
        ensures
            path@ == self@.latest_path(cfg@),
    {
        latest_path(
            cfg.storage_path.as_str(),
            self.object.service.name.as_str(),
            self.object.name.as_str(),
        )
    }

    fn deliver(self, bytes: Vec<u8>) -> (step: (Session, Action))
        ensures
            (step.0@, step.1@) == self@.deliver(bytes@),
    {
        let mut session = self;
        let response = delivery(
            session.object.content_type.clone(),
            session.object.service.max_age(),
            bytes,
        );
        session.stage = Stage::Finished;
        (session, Action::Reply(response))
    }

    fn deliver_object(self) -> (step: (Session, Action))
        ensures
            (step.0@, step.1@) == self@.deliver(self@.object.data),
    {
        let bytes = copy_bytes(&self.object.data);
        self.deliver(bytes)
    }

    fn give_up(self) -> (step: (Session, Action))
        ensures
            (step.0@, step.1@) == self@.give_up(),
    {
        let mut session = self;
        session.stage = Stage::Finished;
        (session, Action::Reply(upstream_failure()))
    }

    fn fail(self, fault: Fault) -> (step: (Session, Action))
        ensures
            (step.0@, step.1@) == self@.fail(fault),
    {
        let mut session = self;
        session.stage = Stage::Finished;
        (session, Action::Fail(fault))
    }

    fn fetch(self, cfg: &AppConfig, attempt: Attempt) -> (step: (Session, Action))
        ensures
            (step.0@, step.1@) == self@.fetch(cfg@, attempt),
    {
        let mut session = self;
        let request = session.object.download(cfg);
        session.stage = Stage::Fetching(attempt);
        (session, Action::Download(request))
    }

    fn seek_base(self, cfg: &AppConfig) -> (step: (Session, Action))
        ensures
            (step.0@, step.1@) == self@.seek_base(cfg@),
    {
        if self.force {
            return self.fetch(cfg, Attempt::First);
        }
        let mut session = self;
        let path = session.object.base_path(cfg);
        session.stage = Stage::ProbingBase;
        (session, Action::Probe(path))
    }

    /// Goes on with the service's answer and the media type that its headers name, if any.
    pub fn receive_as(
        self,
        cfg: &AppConfig,
        attempt: Attempt,
        status: u16,
        headers: HeaderMap,
        body: Vec<u8>,
        named: Result<String, ContentTypeError>,
    ) -> (step: (Session, Action))
        ensures
            (step.0@, step.1@) == self@.receive_as(
                cfg@,
                attempt,
                status,
                headers::header_contents(headers),
                body@,
                match named {
                    Ok(text) => Ok(text@),
                    Err(error) => Err(error),
                },
            ),
    {
        let mut session = self;
        let path = session.object.base_path(cfg);
        match session.object.answered(status, headers, body, named) {
            Ok(()) => {
                let data = copy_bytes(&session.object.data);
                session.stage = Stage::Storing(attempt);
                (session, Action::StoreBase { path, data })
            },
            Err(error) => session.fail(Fault::ContentType(error)),
        }
    }

    fn receive(
        self,
        cfg: &AppConfig,
        attempt: Attempt,
        status: u16,
        headers: HeaderMap,
        body: Vec<u8>,
    ) -> (step: (Session, Action))
        ensures
            (step.0@, step.1@) == self@.receive(
                cfg@,
                attempt,
                status,
                headers::header_contents(headers),
                body@,
            ),
    {
        let named = content_type(&headers);
        self.receive_as(cfg, attempt, status, headers, body, named)
    }

    fn unread(self, status: u16) -> (step: (Session, Action))
        ensures
            (step.0@, step.1@) == self@.unread(status),
    {
        let mut session = self;
        session.object.unread(status);
        session.fail(Fault::Reported)
    }

    fn was_refused(&self) -> (refused: bool)
        ensures
            refused == self@.was_refused(),
    {
        match self.object.status {
            Some(status) => !is_success(status),
            None => false,
        }
    }

    fn stored(self, cfg: &AppConfig, attempt: Attempt) -> (step: (Session, Action))
        ensures
            (step.0@, step.1@) == self@.stored(cfg@, attempt),
    {
        let refused = self.was_refused();
        match attempt {
            Attempt::First => if refused {
                self.fetch(cfg, Attempt::Retry)
            } else {
                self.present(cfg)
            },
            Attempt::Retry => if refused {
                self.give_up()
            } else {
                self.present(cfg)
            },
            Attempt::Unscaled => if refused {
                self.give_up()
            } else {
                self.deliver_object()
            },
            Attempt::Document | Attempt::Damaged => self.deliver_object(),
        }
    }

    fn present(self, cfg: &AppConfig) -> (step: (Session, Action))
        ensures
            (step.0@, step.1@) == self@.present(cfg@),
    {
        match kind_of(self.object.content_type.as_str()) {
            Kind::Svg => {
                let mut session = self;
                let data = copy_bytes(&session.object.data);
                session.stage = Stage::Rasterizing;
                (session, Action::Rasterize(data))
            },
            _ => self.hand_out(cfg),
        }
    }

    fn hand_out(self, cfg: &AppConfig) -> (step: (Session, Action))
        ensures
            (step.0@, step.1@) == self@.hand_out(cfg@),
    {
        if self.scale == 0 {
            match kind_of(self.object.content_type.as_str()) {
                Kind::Document => self.fetch(cfg, Attempt::Unscaled),
                _ => self.deliver_object(),
            }
        } else if cfg.skips(self.object.name.as_str()) {
            self.deliver_object()
        } else {
            self.process(cfg)
        }
    }

    fn static_job(&self, format: Format) -> (job: Job)
        ensures
            job@ == self@.static_job(format),
    {
        Job::Static { data: copy_bytes(&self.object.data), scale: self.scale, format }
    }

    fn scaling(self, job: Job) -> (step: (Session, Action))
        ensures
            (step.0@, step.1@) == self@.scaling(self@.object.content_type, job@),
    {
        let mut session = self;
        session.stage = Stage::Scaling;
        (session, Action::Scale(job))
    }

    fn process(self, cfg: &AppConfig) -> (step: (Session, Action))
        ensures
            (step.0@, step.1@) == self@.process(cfg@),
    {
        let mut session = self;
        match kind_of(session.object.content_type.as_str()) {
            Kind::Jpeg => {
                let job = session.static_job(Format::Jpeg);
                session.scaling(job)
            },
            Kind::Png => {
                let job = if session.engine == 1 {
                    session.static_job(Format::Png)
                } else {
                    Job::Png { data: copy_bytes(&session.object.data), scale: session.scale }
                };
                session.scaling(job)
            },
            Kind::WebP => {
                let job = session.static_job(Format::WebP);
                session.scaling(job)
            },
            Kind::Gif => {
                let job = Job::Gif {
                    source: session.object.base_path(cfg),
                    target: session.variant_path(cfg),
                    scale: session.scale,
                };
                session.scaling(job)
            },
            Kind::Svg => {
                session.object.content_type = "image/png".to_owned();
                let job = session.static_job(Format::Png);
                session.scaling(job)
            },
            Kind::Mp4 => {
                session.object.content_type = "image/gif".to_owned();
                let job = Job::Mp4 {
                    source: session.object.base_path(cfg),
                    target: session.variant_path(cfg),
                    scale: session.scale,
                };
                session.scaling(job)
            },
            Kind::Document => session.fetch(cfg, Attempt::Document),
            Kind::Unknown => {
                let path = session.object.base_path(cfg);
                session.stage = Stage::GuessingFormat;
                (session, Action::Guess(path))
            },
            Kind::Other => session.deliver_object(),
        }
    }

    fn scaled(self, cfg: &AppConfig, image: Vec<u8>) -> (step: (Session, Action))
        ensures
            (step.0@, step.1@) == self@.scaled(cfg@, image@),
    {
        if same_bytes(&image, &self.object.data) {
            return self.deliver(image);
        }
        let mut session = self;
        let path = session.variant_path(cfg);
        let data = copy_bytes(&image);
        session.pending = image;
        session.stage = Stage::SavingVariant;
        (session, Action::StoreVariant { path, data })
    }

    fn rejected(self, cfg: &AppConfig, message: &str) -> (step: (Session, Action))
        ensures
            (step.0@, step.1@) == self@.rejected(cfg@, message@),
    {
        if contains(message, "buffer") || contains(message, "unexpected EOF") {
            self.fetch(cfg, Attempt::Damaged)
        } else {
            self.deliver_object()
        }
    }

    /// Goes on with the outcome of the work that the request waits for.
    pub fn step(self, cfg: &AppConfig, event: Event) -> (step: (Session, Action))
        requires
            session::expected(self.stage, event@),
        ensures
            (step.0@, step.1@) == self@.next(cfg@, event@),
    {
        let mut session = self;
        match (session.stage, event) {
            (Stage::Preparing, Event::Done) => if session.scale != 0 && !session.force {
                let path = session.variant_path(cfg);
                session.stage = Stage::ProbingVariant;
                (session, Action::Probe(path))
            } else {
                session.seek_base(cfg)
            },
            (Stage::ProbingVariant, Event::Exists(found)) => if found {
                let path = session.variant_path(cfg);
                session.stage = Stage::ReadingVariant;
                (session, Action::Read(path))
            } else {
                session.seek_base(cfg)
            },
            (Stage::ReadingVariant, Event::Contents(data)) => {
                let path = session.variant_path(cfg);
                session.pending = data;
                session.stage = Stage::GuessingVariant;
                (session, Action::Guess(path))
            },
            (Stage::GuessingVariant, Event::Guessed(text)) => {
                session.object.content_type = text;
                let bytes = copy_bytes(&session.pending);
                session.deliver(bytes)
            },
            (Stage::ProbingBase, Event::Exists(found)) => if found {
                let path = session.object.base_path(cfg);
                session.stage = Stage::ReadingBase;
                (session, Action::Read(path))
            } else {
                session.fetch(cfg, Attempt::First)
            },
            (Stage::ReadingBase, Event::Contents(data)) => {
                let path = session.object.base_path(cfg);
                session.object.data = data;
                session.stage = Stage::GuessingBase;
                (session, Action::Guess(path))
            },
            (Stage::GuessingBase, Event::Guessed(text)) => {
                session.object.content_type = text;
                session.present(cfg)
            },
            (
                Stage::Fetching(attempt),
                Event::Received { status, headers, body },
            ) => session.receive(cfg, attempt, status, headers, body),
            (Stage::Fetching(_), Event::Unread { status }) => session.unread(status),
            (Stage::Storing(attempt), Event::Done) => session.stored(cfg, attempt),
            (Stage::Rasterizing, Event::Image(image)) => {
                session.object.data = image;
                session.object.content_type = "image/png".to_owned();
                session.hand_out(cfg)
            },
            (Stage::Scaling, Event::Image(image)) => session.scaled(cfg, image),
            (Stage::Scaling, Event::Rejected(message)) => session.rejected(cfg, message.as_str()),
            (Stage::GuessingFormat, Event::Guessed(text)) => {
                session.object.content_type = text;
                session.deliver_object()
            },
            (Stage::SavingVariant, Event::Done) => {
                let path = session.latest_path(cfg);
                let data = copy_bytes(&session.pending);
                session.stage = Stage::SavingLatest;
                (session, Action::StoreVariant { path, data })
            },
            (Stage::SavingLatest, Event::Done) => {
                let bytes = copy_bytes(&session.pending);
                session.deliver(bytes)
            },
            _ => session.fail(Fault::Reported),
        }
    }
}

} // verus!
