//! Requests that are passed on to a service as they are.
use vstd::prelude::*;

use crate::config::AppConfig;
use crate::response::{refusal, Response};
#[allow(unused_imports)]
use crate::response::Body;
#[allow(unused_imports)]
use crate::{config, response};

verus! {

/// What is asked of the service on behalf of the client.
#[derive(Debug, Clone)]
pub struct ForwardRequest {
    pub url: String,
    /// Seconds that the service has to answer.
    pub timeout_secs: u64,
}

/// The request to pass on: the image, taken literally, below the endpoint of the named service;
/// or the answer to the client where no service has that name.
pub fn forward(cfg: &AppConfig, service: &str, image: &str) -> (result: Result<
    ForwardRequest,
    Response,
>)
    ensures
        match config::service_named(cfg@.services, service@) {
            Some(found) => {
                &&& result is Ok
                &&& result->Ok_0.url@ == found.endpoint + "/"@ + image@
                &&& result->Ok_0.timeout_secs == 30
            },
            None => result is Err && result->Err_0@ == response::refusal_of(
                "Received endpoint not allowed!"@,
            ),
        },
{
    match cfg.find_service(service) {
        None => Err(refusal("Received endpoint not allowed!")),
        Some(found) => {
            let mut url = found.endpoint.clone();
            url.append("/");
            url.append(image);
            Ok(ForwardRequest { url, timeout_secs: 30 })
        },
    }
}

/// A request is passed on to the first service of that name, with half a minute to answer, at the
/// image's place below its endpoint; where no service has the name the client is told so.
pub proof fn requests_are_passed_on_to_the_named_service(
    cfg: &AppConfig,
    service: &str,
    image: &str,
    result: Result<ForwardRequest, Response>,
)
    requires
        call_ensures(forward, (cfg, service, image), result),
    ensures
        result is Err <==> forall|i: int|
            0 <= i < cfg.services@.len() ==> (#[trigger] cfg.services@[i]).name@ != service@,
        result matches Ok(request) ==> request.timeout_secs == 30 && exists|i: int|
            0 <= i < cfg.services@.len() && (#[trigger] cfg.services@[i]).name@ == service@
                && request.url@ == cfg.services@[i].endpoint@ + "/"@ + image@ && forall|j: int|
                0 <= j < i ==> (#[trigger] cfg.services@[j]).name@ != service@,
        result matches Err(response) ==> {
            &&& response.status == 400
            &&& response.content_type matches Some(text)
            &&& text@ == "text/plain"@
            &&& response.max_age is None
            &&& response.body matches Body::Text(body)
            &&& body@ == "Received endpoint not allowed!"@
        },
{
    config::first_service_by_list(cfg, service@);
    if let Err(response) = result {
        assert(response.content_type.deep_view() == Some("text/plain"@));
    }
}

} // verus!
