//! The profile lookup: what is asked of the profile service and what a client is answered.
use vstd::prelude::*;

use crate::config::AppConfig;
use crate::response::{delivery, refusal, Response};
#[allow(unused_imports)]
use crate::response;
#[allow(unused_imports)]
use crate::response::Body;

verus! {

/// A form to post to the profile service.
#[derive(Debug, Clone)]
pub struct ProfileRequest {
    pub url: String,
    /// The media type that is asked for.
    pub accept: String,
    /// The bearer token.
    pub token: String,
    /// The value of the form's field `screen_name`.
    pub screen_name: String,
}

/// The request for the profile of a handle, or the answer to the client where no token is set.
pub fn twitter(token: &str, handle: &str) -> (result: Result<ProfileRequest, Response>)
    ensures
        token@.len() == 0 <==> result is Err,
        result matches Err(response) ==> response@ == response::refusal_of(
            "Twitter token not found in config file"@,
        ),
        result matches Ok(request) ==> {
            &&& request.url@ == "https://api.twitter.com/1.1/users/lookup.json"@
            &&& request.accept@ == "application/json"@
            &&& request.token@ == token@
            &&& request.screen_name@ == handle@
        },
{
    if token.is_empty() {
        return Err(refusal("Twitter token not found in config file"));
    }
    Ok(
        ProfileRequest {
            url: "https://api.twitter.com/1.1/users/lookup.json".to_owned(),
            accept: "application/json".to_owned(),
            token: token.to_owned(),
            screen_name: handle.to_owned(),
        },
    )
}

/// The answer that passes the profile service's payload on.
pub fn twitter_reply(cfg: &AppConfig, payload: Vec<u8>) -> (response: Response)
    ensures
        response@ == response::delivery_of(
            "application/json"@,
            cfg@.twitter_max_age(),
            payload@,
        ),
{
    delivery("application/json".to_owned(), cfg.twitter_max_age(), payload)
}

/// A profile is asked for with the token and for the handle that were handed in, as JSON, at the
/// address of the lookup; without a token the client is told that none is set.
pub proof fn profiles_are_asked_for_with_the_token(
    token: &str,
    handle: &str,
    result: Result<ProfileRequest, Response>,
)
    requires
        call_ensures(twitter, (token, handle), result),
    ensures
        result is Ok <==> token@.len() > 0,
        result matches Ok(request) ==> {
            &&& request.url@ == "https://api.twitter.com/1.1/users/lookup.json"@
            &&& request.accept@ == "application/json"@
            &&& request.token@ == token@
            &&& request.screen_name@ == handle@
        },
        result matches Err(response) ==> {
            &&& response.status == 400
            &&& response.content_type matches Some(text)
            &&& text@ == "text/plain"@
            &&& response.max_age is None
            &&& response.body matches Body::Text(body)
            &&& body@ == "Twitter token not found in config file"@
        },
{
    if let Err(response) = result {
        assert(response.content_type.deep_view() == Some("text/plain"@));
    }
}

/// The payload of the profile service reaches the client whole, as JSON, with the age that is
/// configured for the lookup, or a year where none is.
pub proof fn profiles_are_passed_on(cfg: &AppConfig, payload: Vec<u8>, response: Response)
    requires
        call_ensures(twitter_reply, (cfg, payload), response),
    ensures
        response.status == 200,
        response.content_type matches Some(text) && text@ == "application/json"@,
        cfg.twitter matches Some(twitter) ==> response.max_age == Some(twitter.cache.max_age),
        cfg.twitter is None ==> response.max_age == Some(31536000u32),
        response.body matches Body::Bytes(body) && body@ == payload@,
{
    assert(response.content_type.deep_view() == Some("application/json"@));
}

} // verus!
