//! What happens while a request for an image is served: the state of the request, the outside
//! work it waits for, and how it goes on with each outcome.
use actix_web::http::header::HeaderMap;
use vstd::prelude::*;

use crate::headers::ContentTypeError;
use crate::object::{DownloadRequest, DownloadRequestView, Object, ObjectView};
use crate::response::{Response, ResponseView};
#[allow(unused_imports)]
use crate::headers;

verus! {

/// Why an object is downloaded.
#[derive(Debug, Clone, Copy, PartialEq, Eq, Structural)]
pub enum Attempt {
    /// It is not in storage, or the client insists.
    First,
    /// The service did not report success.
    Retry,
    /// It was about to be delivered as it is, but is a document.
    Unscaled,
    /// It was about to be scaled, but is a document.
    Document,
    /// It could not be scaled, and may be damaged.
    Damaged,
}

/// What a request waits for.
#[derive(Debug, Clone, Copy, PartialEq, Eq, Structural)]
pub enum Stage {
    Preparing,
    ProbingVariant,
    ReadingVariant,
    GuessingVariant,
    ProbingBase,
    ReadingBase,
    GuessingBase,
    Fetching(Attempt),
    Storing(Attempt),
    Rasterizing,
    Scaling,
    GuessingFormat,
    SavingVariant,
    SavingLatest,
    Finished,
}

/// A request for an image that is being served.
#[derive(Debug)]
pub struct Session {
    pub object: Object,
    pub scale: u32,
    pub force: bool,
    pub engine: u32,
    /// Bytes that are to be delivered once the stage is over.
    pub pending: Vec<u8>,
    pub stage: Stage,
}

/// A request that is being served, with the object and the pending bytes as sequences.
pub struct SessionView {
    pub object: ObjectView,
    pub scale: u32,
    pub force: bool,
    pub engine: u32,
    pub pending: Seq<u8>,
    pub stage: Stage,
}

impl View for Session {
    type V = SessionView;

    open spec fn view(&self) -> SessionView {
        SessionView {
            object: self.object@,
            scale: self.scale,
            force: self.force,
            engine: self.engine,
            pending: self.pending@,
            stage: self.stage,
        }
    }
}

/// The formats that the general scaler writes.
#[derive(Debug, Clone, Copy, PartialEq, Eq, Structural)]
pub enum Format {
    Jpeg,
    Png,
    WebP,
}

/// Work for a scaler.
#[derive(Debug)]
pub enum Job {
    Static { data: Vec<u8>, scale: u32, format: Format },
    Png { data: Vec<u8>, scale: u32 },
    Gif { source: String, target: String, scale: u32 },
    Mp4 { source: String, target: String, scale: u32 },
}

/// Work for a scaler, with texts and bytes as sequences.
pub enum JobView {
    Static { data: Seq<u8>, scale: u32, format: Format },
    Png { data: Seq<u8>, scale: u32 },
    Gif { source: Seq<char>, target: Seq<char>, scale: u32 },
    Mp4 { source: Seq<char>, target: Seq<char>, scale: u32 },
}

impl View for Job {
    type V = JobView;

    open spec fn view(&self) -> JobView {
        match self {
            Job::Static { data, scale, format } => JobView::Static {
                data: data@,
                scale: *scale,
                format: *format,
            },
            Job::Png { data, scale } => JobView::Png { data: data@, scale: *scale },
            Job::Gif { source, target, scale } => JobView::Gif {
                source: source@,
                target: target@,
                scale: *scale,
            },
            Job::Mp4 { source, target, scale } => JobView::Mp4 {
                source: source@,
                target: target@,
                scale: *scale,
            },
        }
    }
}

/// Why a request ends without an answer of its own.
#[derive(Debug, Clone, Copy, PartialEq, Eq, Structural)]
pub enum Fault {
    /// Outside work failed, as reported.
    Reported,
    /// The service's answer names no readable media type.
    ContentType(ContentTypeError),
}

/// Outside work that a request needs done, or how it ends.
#[derive(Debug)]
pub enum Action {
    /// Create the directories, with their parents.
    CreateDirs(Vec<String>),
    /// Find out whether the file exists.
    Probe(String),
    /// Read the file.
    Read(String),
    /// Find out the media type of the file.
    Guess(String),
    /// Ask the service.
    Download(DownloadRequest),
    /// Write what the service sent.
    StoreBase { path: String, data: Vec<u8> },
    /// Write a variant.
    StoreVariant { path: String, data: Vec<u8> },
    /// Convert an SVG drawing to PNG.
    Rasterize(Vec<u8>),
    /// Scale the object down.
    Scale(Job),
    /// Answer the client: the request is over.
    Reply(Response),
    /// Report the fault: the request is over.
    Fail(Fault),
}

/// Outside work or the end of a request, with texts and bytes as sequences.
pub enum ActionView {
    CreateDirs(Seq<Seq<char>>),
    Probe(Seq<char>),
    Read(Seq<char>),
    Guess(Seq<char>),
    Download(DownloadRequestView),
    StoreBase { path: Seq<char>, data: Seq<u8> },
    StoreVariant { path: Seq<char>, data: Seq<u8> },
    Rasterize(Seq<u8>),
    Scale(JobView),
    Reply(ResponseView),
    Fail(Fault),
}

impl View for Action {
    type V = ActionView;

    open spec fn view(&self) -> ActionView {
        match self {
            Action::CreateDirs(paths) => ActionView::CreateDirs(paths.deep_view()),
            Action::Probe(path) => ActionView::Probe(path@),
            Action::Read(path) => ActionView::Read(path@),
            Action::Guess(path) => ActionView::Guess(path@),
            Action::Download(request) => ActionView::Download(request@),
            Action::StoreBase { path, data } => ActionView::StoreBase { path: path@, data: data@ },
            Action::StoreVariant { path, data } => ActionView::StoreVariant {
                path: path@,
                data: data@,
            },
            Action::Rasterize(data) => ActionView::Rasterize(data@),
            Action::Scale(job) => ActionView::Scale(job@),
            Action::Reply(response) => ActionView::Reply(response@),
            Action::Fail(fault) => ActionView::Fail(*fault),
        }
    }
}

/// The outcome of outside work.
#[derive(Debug)]
pub enum Event {
    /// Directories were created, or a file was written.
    Done,
    /// Whether the file exists.
    Exists(bool),
    /// What the file holds.
    Contents(Vec<u8>),
    /// The text of the file's media type.
    Guessed(String),
    /// The service's answer.
    Received { status: u16, headers: HeaderMap, body: Vec<u8> },
    /// The service answered with a status, but its body could not be taken: it is too large or
    /// breaks off.
    Unread { status: u16 },
    /// The converted or scaled image.
    Image(Vec<u8>),
    /// What the scaler objects to.
    Rejected(String),
    /// The work failed, other than a scaler's. Of a download: no answer came.
    Failed,
}

/// The outcome of outside work, with texts and bytes as sequences.
pub enum EventView {
    Done,
    Exists(bool),
    Contents(Seq<u8>),
    Guessed(Seq<char>),
    Received { status: u16, headers: Map<Seq<char>, Seq<Seq<u8>>>, body: Seq<u8> },
    Unread { status: u16 },
    Image(Seq<u8>),
    Rejected(Seq<char>),
    Failed,
}

impl View for Event {
    type V = EventView;

    open spec fn view(&self) -> EventView {
        match self {
            Event::Done => EventView::Done,
            Event::Exists(found) => EventView::Exists(*found),
            Event::Contents(data) => EventView::Contents(data@),
            Event::Guessed(text) => EventView::Guessed(text@),
            Event::Received { status, headers, body } => EventView::Received {
                status: *status,
                headers: headers::header_contents(*headers),
                body: body@,
            },
            Event::Unread { status } => EventView::Unread { status: *status },
            Event::Image(data) => EventView::Image(data@),
            Event::Rejected(message) => EventView::Rejected(message@),
            Event::Failed => EventView::Failed,
        }
    }
}

/// Whether an outcome is one of the work that a stage waits for.
pub open spec fn expected(stage: Stage, event: EventView) -> bool {
    match stage {
        Stage::Preparing | Stage::Storing(_) | Stage::SavingVariant | Stage::SavingLatest => event
            is Done || event is Failed,
        Stage::ProbingVariant | Stage::ProbingBase => event is Exists,
        Stage::ReadingVariant | Stage::ReadingBase => event is Contents || event is Failed,
        Stage::GuessingVariant | Stage::GuessingBase | Stage::GuessingFormat => event is Guessed
            || event is Failed,
        Stage::Fetching(_) => event is Received || event is Unread || event is Failed,
        Stage::Rasterizing => event is Image || event is Failed,
        Stage::Scaling => event is Image || event is Rejected,
        Stage::Finished => false,
    }
}

impl Stage {
    /// Whether an outcome is one of the work that this stage waits for.
    pub fn expects(&self, event: &Event) -> (yes: bool)
        ensures
            yes == expected(*self, event@),
    {
        match self {
            Stage::Preparing
            | Stage::Storing(_)
            | Stage::SavingVariant
            | Stage::SavingLatest => matches!(event, Event::Done | Event::Failed),
            Stage::ProbingVariant | Stage::ProbingBase => matches!(event, Event::Exists(_)),
            Stage::ReadingVariant
            | Stage::ReadingBase => matches!(event, Event::Contents(_) | Event::Failed),
            Stage::GuessingVariant
            | Stage::GuessingBase
            | Stage::GuessingFormat => matches!(event, Event::Guessed(_) | Event::Failed),
            Stage::Fetching(_) => matches!(
                event,
                Event::Received { .. } | Event::Unread { .. } | Event::Failed
            ),
            Stage::Rasterizing => matches!(event, Event::Image(_) | Event::Failed),
            Stage::Scaling => matches!(event, Event::Image(_) | Event::Rejected(_)),
            Stage::Finished => false,
        }
    }
}

} // verus!
