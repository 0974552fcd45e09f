//! Building the requests the client sends and reading the replies it gets
//! back: one fixed JSON shape per mode, and one fixed extraction path each.

use vstd::prelude::*;
use vstd::string::StringExecFns;
use crate::config::Config;
use crate::json::JsonRep;
use crate::json::arr_at;
use crate::json::json_of;
use crate::json::json_quote;
use crate::json::obj_get;
use crate::json::parse_json;
use crate::json::quote_string;
use crate::json::str_of;
use crate::json::value_as_str;
use crate::json::value_at;
use crate::json::value_get;
use crate::json::value_rep;

verus! {

/// Why a call failed.
#[derive(Debug)]
pub enum ApiError {
    /// The request never completed; carries the transport's own description.
    Transport(String),
    /// The reply was not valid JSON; carries the parser's own description.
    BadJson(String),
    /// The reply held no text under `choices[0].message.content`.
    MissingContent,
    /// The reply held no first element under `data`.
    NoImageData,
    /// The reply's first image carried no `url` string.
    NoImageUrl,
    /// Image generation was asked for without an image endpoint configured.
    ImageEndpointMissing,
}

/// The message shown for each failure.
pub open spec fn message_spec(e: ApiError) -> Seq<char> {
    match e {
        ApiError::Transport(s) => "Failed to send request, check config: "@ + s@,
        ApiError::BadJson(s) => s@,
        ApiError::MissingContent => "Failed to parse response"@,
        ApiError::NoImageData => "No image data found in response"@,
        ApiError::NoImageUrl => "No URL found in response"@,
        ApiError::ImageEndpointMissing => "Image endpoint not configured in /etc/grok/config"@,
    }
}

impl ApiError {
    /// The message shown for this failure.
    pub fn message(&self) -> (r: String)
        ensures
            r@ == message_spec(*self),
    {
        match self {
            ApiError::Transport(s) => String::from_str("Failed to send request, check config: ")
                .concat(s.as_str()),
            ApiError::BadJson(s) => s.clone(),
            ApiError::MissingContent => String::from_str("Failed to parse response"),
            ApiError::NoImageData => String::from_str("No image data found in response"),
            ApiError::NoImageUrl => String::from_str("No URL found in response"),
            ApiError::ImageEndpointMissing => String::from_str(
                "Image endpoint not configured in /etc/grok/config",
            ),
        }
    }
}

/// One request, ready to send: where, under which key, and what.
#[derive(Debug)]
pub struct ApiRequest {
    pub endpoint: String,
    pub api_key: String,
    pub payload: String,
}

/// The body of a chat request: a fixed system instruction, the prompt as the
/// user message, and the fixed chat model name.
pub open spec fn chat_payload_spec(p: Seq<char>) -> Seq<char> {
    "{\"messages\":[{\"content\":\"You are Grok, respond to the user's prompt.\",\"role\":\"system\"},{\"content\":"@
        + json_quote(p) + ",\"role\":\"user\"}],\"model\":\"grok-2-latest\"}"@
}

/// The body of an image request: the prompt, the fixed image model name, a
/// URL response format, and one image asked for.
pub open spec fn image_payload_spec(p: Seq<char>) -> Seq<char> {
    "{\"model\":\"grok-2-image\",\"n\":1,\"prompt\":"@ + json_quote(p)
        + ",\"response_format\":\"url\"}"@
}

/// Builds the chat request body for a prompt.
pub fn build_chat_payload(prompt: &str) -> (r: String)
    ensures
        r@ == chat_payload_spec(prompt@),
{
    let mut r = String::new();
    r.append(
        "{\"messages\":[{\"content\":\"You are Grok, respond to the user's prompt.\",\"role\":\"system\"},{\"content\":",
    );
    let q = quote_string(prompt);
    r.append(q.as_str());
    r.append(",\"role\":\"user\"}],\"model\":\"grok-2-latest\"}");
    proof {
        assert(r@ =~= chat_payload_spec(prompt@));
    }
    r
}

/// Builds the image request body for a prompt.
pub fn build_image_payload(prompt: &str) -> (r: String)
    ensures
        r@ == image_payload_spec(prompt@),
{
    let mut r = String::new();
    r.append("{\"model\":\"grok-2-image\",\"n\":1,\"prompt\":");
    let q = quote_string(prompt);
    r.append(q.as_str());
    r.append(",\"response_format\":\"url\"}");
    proof {
        assert(r@ =~= image_payload_spec(prompt@));
    }
    r
}

/// The chat request for a prompt: the configured endpoint and key, and the
/// chat payload.
pub fn chat_request(config: &Config, prompt: &str) -> (r: ApiRequest)
    ensures
        r.endpoint@ == config.endpoint@,
        r.api_key@ == config.key@,
        r.payload@ == chat_payload_spec(prompt@),
{
    ApiRequest {
        endpoint: config.endpoint.clone(),
        api_key: config.key.clone(),
        payload: build_chat_payload(prompt),
    }
}

/// The image request for a prompt, or the configuration error where no image
/// endpoint is set; nothing is to be sent in that case.
pub fn image_request(config: &Config, prompt: &str) -> (r: Result<ApiRequest, ApiError>)
    ensures
        r is Ok <==> config.image_endpoint@.len() != 0,
        r matches Ok(q) ==> q.endpoint@ == config.image_endpoint@ && q.api_key@ == config.key@
            && q.payload@ == image_payload_spec(prompt@),
        r matches Err(e) ==> e is ImageEndpointMissing,
{
    if config.image_endpoint.as_str().is_empty() {
        Err(ApiError::ImageEndpointMissing)
    } else {
        Ok(
            ApiRequest {
                endpoint: config.image_endpoint.clone(),
                api_key: config.key.clone(),
                payload: build_image_payload(prompt),
            },
        )
    }
}

/// The text of a chat reply: the string under `choices[0].message.content`.
pub open spec fn chat_content_spec(v: JsonRep) -> Option<Seq<char>> {
    match obj_get(v, "choices"@) {
        Some(c) => match arr_at(c, 0) {
            Some(first) => match obj_get(first, "message"@) {
                Some(m) => match obj_get(m, "content"@) {
                    Some(x) => str_of(x),
                    None => None,
                },
                None => None,
            },
            None => None,
        },
        None => None,
    }
}

/// Reads the chat reply text out of a parsed reply document.
pub fn chat_content_of(v: &serde_json::Value) -> (r: Option<String>)
    ensures
        match r {
            Some(s) => chat_content_spec(value_rep(*v)) == Some(s@),
            None => chat_content_spec(value_rep(*v)) is None,
        },
{
    match value_get(v, "choices") {
        Some(c) => match value_at(c, 0) {
            Some(first) => match value_get(first, "message") {
                Some(m) => match value_get(m, "content") {
                    Some(x) => match value_as_str(x) {
                        Some(s) => Some(s.to_owned()),
                        None => None,
                    },
                    None => None,
                },
                None => None,
            },
            None => None,
        },
        None => None,
    }
}

/// Reads the chat reply text out of a reply body, as the chat mode does:
/// a body that is not JSON is a parse failure, and a body without the
/// expected text is a missing-content failure.
pub fn extract_chat_content(body: &str) -> (r: Result<String, ApiError>)
    ensures
        match json_of(body@) {
            None => r matches Err(e) && e is BadJson,
            Some(v) => match chat_content_spec(v) {
                Some(t) => r matches Ok(s) && s@ == t,
                None => r matches Err(e) && e is MissingContent,
            },
        },
{
    match parse_json(body) {
        Ok(v) => match chat_content_of(&v) {
            Some(s) => Ok(s),
            None => Err(ApiError::MissingContent),
        },
        Err(e) => Err(ApiError::BadJson(e)),
    }
}

/// One generated image: its URL, and the revised prompt where one was given.
#[derive(Debug)]
pub struct ImageReply {
    pub url: String,
    pub revised_prompt: Option<String>,
}

/// The first element under `data`, if the reply has one.
pub open spec fn image_first_spec(v: JsonRep) -> Option<JsonRep> {
    match obj_get(v, "data"@) {
        Some(d) => arr_at(d, 0),
        None => None,
    }
}

/// The URL string of one image element.
pub open spec fn image_url_spec(first: JsonRep) -> Option<Seq<char>> {
    match obj_get(first, "url"@) {
        Some(u) => str_of(u),
        None => None,
    }
}

/// The revised prompt string of one image element, where one was given.
pub open spec fn image_revised_spec(first: JsonRep) -> Option<Seq<char>> {
    match obj_get(first, "revised_prompt"@) {
        Some(p) => str_of(p),
        None => None,
    }
}

/// Reads the image reply out of a parsed reply document: a reply without a
/// first `data` element has no image; one whose first element carries no URL
/// string has no URL.
pub fn image_reply_of(v: &serde_json::Value) -> (r: Result<ImageReply, ApiError>)
    ensures
        match image_first_spec(value_rep(*v)) {
            None => r matches Err(e) && e is NoImageData,
            Some(first) => match image_url_spec(first) {
                None => r matches Err(e) && e is NoImageUrl,
                Some(u) => r matches Ok(img) && img.url@ == u && (match image_revised_spec(first) {
                    Some(p) => img.revised_prompt matches Some(rp) && rp@ == p,
                    None => img.revised_prompt is None,
                }),
            },
        },
{
    let first = match value_get(v, "data") {
        Some(d) => match value_at(d, 0) {
            Some(f) => f,
            None => {
                return Err(ApiError::NoImageData);
            },
        },
        None => {
            return Err(ApiError::NoImageData);
        },
    };
    let url = match value_get(first, "url") {
        Some(u) => match value_as_str(u) {
            Some(s) => s.to_owned(),
            None => {
                return Err(ApiError::NoImageUrl);
            },
        },
        None => {
            return Err(ApiError::NoImageUrl);
        },
    };
    let revised = match value_get(first, "revised_prompt") {
        Some(p) => match value_as_str(p) {
            Some(s) => Some(s.to_owned()),
            None => None,
        },
        None => None,
    };
    Ok(ImageReply { url, revised_prompt: revised })
}

/// Reads the image reply out of a reply body, as the image mode does.
pub fn extract_image_reply(body: &str) -> (r: Result<ImageReply, ApiError>)
    ensures
        match json_of(body@) {
            None => r matches Err(e) && e is BadJson,
            Some(v) => match image_first_spec(v) {
                None => r matches Err(e) && e is NoImageData,
                Some(first) => match image_url_spec(first) {
                    None => r matches Err(e) && e is NoImageUrl,
                    Some(u) => r matches Ok(img) && img.url@ == u && (match image_revised_spec(
                        first,
                    ) {
                        Some(p) => img.revised_prompt matches Some(rp) && rp@ == p,
                        None => img.revised_prompt is None,
                    }),
                },
            },
        },
{
    match parse_json(body) {
        Ok(v) => image_reply_of(&v),
        Err(e) => Err(ApiError::BadJson(e)),
    }
}

} // verus!
