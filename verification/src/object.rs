//! An object on its way from a service to a client.
use actix_web::http::header::HeaderMap;
use vstd::prelude::*;

use crate::config::{AppConfig, AppConfigView, CacheConfig, Service, ServiceView};
use crate::headers::ContentTypeError;
use crate::media::plain_text;
use crate::storage::{base_path, url};
#[allow(unused_imports)]
use crate::{config, headers, storage};

verus! {

/// An object of a service, with what is known of it so far.
#[derive(Debug, Clone)]
pub struct Object {
    pub data: Vec<u8>,
    /// The text of the media type.
    pub content_type: String,
    pub name: String,
    pub service: Service,
    /// A note on why nothing could be asked of the service.
    pub response: Option<String>,
    /// The status of the service's last answer.
    pub status: Option<u16>,
    /// The headers of the service's last answer.
    pub headers: Option<HeaderMap>,
}

/// An object, with its texts and bytes as sequences.
pub struct ObjectView {
    pub data: Seq<u8>,
    pub content_type: Seq<char>,
    pub name: Seq<char>,
    pub service: ServiceView,
    pub response: Option<Seq<char>>,
    pub status: Option<u16>,
    pub headers: Option<Map<Seq<char>, Seq<Seq<u8>>>>,
}

impl View for Object {
    type V = ObjectView;

    open spec fn view(&self) -> ObjectView {
        ObjectView {
            data: self.data@,
            content_type: self.content_type@,
            name: self.name@,
            service: self.service@,
            response: self.response.deep_view(),
            status: self.status,
            headers: match self.headers {
                Some(headers) => Some(headers::header_contents(headers)),
                None => None,
            },
        }
    }
}

/// What is asked of a service.
#[derive(Debug, Clone)]
pub struct DownloadRequest {
    pub url: String,
    /// Seconds that the service has to answer.
    pub timeout_secs: u64,
    /// The largest answer that is taken.
    pub max_body_bytes: usize,
}

/// What is asked of a service, with the address as a character sequence.
pub struct DownloadRequestView {
    pub url: Seq<char>,
    pub timeout_secs: u64,
    pub max_body_bytes: usize,
}

impl View for DownloadRequest {
    type V = DownloadRequestView;

    open spec fn view(&self) -> DownloadRequestView {
        DownloadRequestView {
            url: self.url@,
            timeout_secs: self.timeout_secs,
            max_body_bytes: self.max_body_bytes,
        }
    }
}

impl ObjectView {
    /// Where the object is kept as the service sent it.
    pub open spec fn base_path(self, cfg: AppConfigView) -> Seq<char> {
        storage::base_path_of(cfg.storage_path, self.service.name, self.name)
    }

    /// What is asked of the service to get the object.
    pub open spec fn request(self, cfg: AppConfigView) -> DownloadRequestView {
        DownloadRequestView {
            url: storage::url_of(self.service.endpoint, self.name),
            timeout_secs: cfg.req_timeout,
            max_body_bytes: cfg.max_body_size_bytes,
        }
    }

    /// The object after an answer of the service, with a media type that was read from it.
    pub open spec fn answered(
        self,
        status: u16,
        headers: Map<Seq<char>, Seq<Seq<u8>>>,
        body: Seq<u8>,
        content_type: Seq<char>,
    ) -> ObjectView {
        ObjectView {
            data: body,
            content_type,
            status: Some(status),
            headers: Some(headers),
            ..self
        }
    }
}

impl Object {
    /// An object of which only the name is known.
    pub fn new(name: String) -> (object: Self)
        ensures
            object@.name == name@,
            object@.data == Seq::<u8>::empty(),
            object@.content_type == "text/plain"@,
            object@.service.name == "ipfs"@,
            object@.service.endpoint == "https://ipfs.io/ipfs"@,
            object@.service.cache == Some(
                CacheConfig { max_age: config::default_max_age() },
            ),
            object@.response is None,
            object@.status is None,
            object@.headers is None,
    {
        Object {
            name,
            data: Vec::new(),
            content_type: plain_text(),
            service: Service::default(),
            response: None,
            status: None,
            headers: None,
        }
    }

    /// Where the object is kept as the service sent it.
    pub fn base_path(&self, cfg: &AppConfig) -> (path: String)
        ensures
            path@ == self@.base_path(cfg@),
    {
        base_path(cfg.storage_path.as_str(), self.service.name.as_str(), self.name.as_str())
    }

    /// Starts a download: what is to be asked of the service. There is always an address to ask,
    /// so no note stays behind.
    pub fn download(&mut self, cfg: &AppConfig) -> (request: DownloadRequest)
        ensures
            request@ == old(self)@.request(cfg@),
            request.url@.len() > 0,
            final(self)@ == (ObjectView { response: None, ..old(self)@ }),
    {
        let address = url(self.service.endpoint.as_str(), self.name.as_str());
        self.response = if address.as_str().is_empty() {
            Some("URL not provided".to_owned())
        } else {
            None
        };
        DownloadRequest {
            url: address,
            timeout_secs: cfg.req_timeout,
            max_body_bytes: cfg.max_body_size_bytes,
        }
    }

    /// Takes the status of an answer whose body could not be taken; all else stays.
    pub fn unread(&mut self, status: u16)
        ensures
            final(self)@ == (ObjectView { status: Some(status), ..old(self)@ }),
    {
        self.status = Some(status);
    }

    /// Takes the service's answer with the media type that its headers name. Where they name no
    /// readable one, the one that was known stays.
    pub fn answered(
        &mut self,
        status: u16,
        headers: HeaderMap,
        body: Vec<u8>,
        named: Result<String, ContentTypeError>,
    ) -> (result: Result<(), ContentTypeError>)
        ensures
            match named {
                Ok(text) => {
                    &&& result is Ok
                    &&& final(self)@ == old(self)@.answered(
                        status,
                        headers::header_contents(headers),
                        body@,
                        text@,
                    )
                },
                Err(error) => {
                    &&& result == Err::<(), ContentTypeError>(error)
                    &&& final(self)@ == old(self)@.answered(
                        status,
                        headers::header_contents(headers),
                        body@,
                        old(self)@.content_type,
                    )
                },
            },
    {
        self.status = Some(status);
        self.data = body;
        self.headers = Some(headers);
        match named {
            Ok(text) => {
                self.content_type = text;
                Ok(())
            },
            Err(error) => Err(error),
        }
    }
}

/// Of a new object the name is known and nothing else; it belongs to the service that stands where
/// none is configured.
pub proof fn new_objects_have_a_name(name: String, object: Object, service: Service)
    requires
        call_ensures(Object::new, (name,), object),
        call_ensures(<Service as Default>::default, (), service),
    ensures
        object.name@ == name@,
        object.data@.len() == 0,
        object.content_type@ == "text/plain"@,
        object.service.name@ == service.name@,
        object.service.endpoint@ == service.endpoint@,
        object.service.cache == service.cache,
        object.response is None,
        object.status is None,
        object.headers is None,
{
}

/// An object is kept below `base`, in the directory of its service, under its name.
pub proof fn objects_are_kept_by_service_and_name(object: &Object, cfg: &AppConfig, path: String)
    requires
        call_ensures(Object::base_path, (object, cfg), path),
    ensures
        path@ == cfg.storage_path@ + "/base/"@ + object.service.name@ + "/"@ + object.name@,
{
}

} // verus!
