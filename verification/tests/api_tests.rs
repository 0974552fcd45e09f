use grok_cli::api::build_chat_payload;
use grok_cli::api::build_image_payload;
use grok_cli::api::chat_request;
use grok_cli::api::extract_chat_content;
use grok_cli::api::extract_image_reply;
use grok_cli::api::image_request;
use grok_cli::api::ApiError;
use grok_cli::config::Config;

fn test_config(image_endpoint: &str) -> Config {
    Config {
        endpoint: String::from("https://api.example/chat"),
        key: String::from("SECRET-REDACTED"),
        image_endpoint: String::from(image_endpoint),
    }
}

#[test]
fn chat_payload_carries_model_and_prompt() {
    let payload = build_chat_payload("hello");
    let v: serde_json::Value = serde_json::from_str(&payload).unwrap();
    assert_eq!(v["model"].as_str().unwrap(), "grok-2-latest");
    assert_eq!(v["messages"][1]["content"].as_str().unwrap(), "hello");
    assert_eq!(v["messages"][1]["role"].as_str().unwrap(), "user");
    assert_eq!(v["messages"][0]["role"].as_str().unwrap(), "system");
    assert_eq!(
        v["messages"][0]["content"].as_str().unwrap(),
        "You are Grok, respond to the user's prompt."
    );
}

#[test]
fn chat_payload_escapes_the_prompt() {
    let payload = build_chat_payload("say \"hi\"\nplease");
    let v: serde_json::Value = serde_json::from_str(&payload).unwrap();
    assert_eq!(
        v["messages"][1]["content"].as_str().unwrap(),
        "say \"hi\"\nplease"
    );
}

#[test]
fn image_payload_shape() {
    let payload = build_image_payload("a cat");
    let v: serde_json::Value = serde_json::from_str(&payload).unwrap();
    assert_eq!(v["model"].as_str().unwrap(), "grok-2-image");
    assert_eq!(v["prompt"].as_str().unwrap(), "a cat");
    assert_eq!(v["response_format"].as_str().unwrap(), "url");
    assert_eq!(v["n"].as_i64().unwrap(), 1);
}

#[test]
fn chat_request_uses_configured_endpoint_and_key() {
    let req = chat_request(&test_config(""), "hello");
    assert_eq!(req.endpoint, "https://api.example/chat");
    assert_eq!(req.api_key, "SECRET-REDACTED");
    let v: serde_json::Value = serde_json::from_str(&req.payload).unwrap();
    assert_eq!(v["messages"][1]["content"].as_str().unwrap(), "hello");
}

#[test]
fn chat_content_is_extracted() {
    let body = "{\"choices\":[{\"message\":{\"content\":\"hi there\"}}]}";
    assert_eq!(extract_chat_content(body).unwrap(), "hi there");
}

#[test]
fn chat_content_missing_choices_is_a_parse_error() {
    let r = extract_chat_content("{\"nothing\":true}");
    assert!(matches!(r, Err(ApiError::MissingContent)));
    assert_eq!(r.unwrap_err().message(), "Failed to parse response");
}

#[test]
fn chat_content_non_string_is_a_parse_error() {
    let r = extract_chat_content("{\"choices\":[{\"message\":{\"content\":7}}]}");
    assert!(matches!(r, Err(ApiError::MissingContent)));
}

#[test]
fn chat_body_that_is_not_json_is_a_parse_error() {
    let r = extract_chat_content("not json at all");
    assert!(matches!(r, Err(ApiError::BadJson(_))));
}

#[test]
fn image_url_is_extracted() {
    let body = "{\"data\":[{\"url\":\"http://x/y.png\",\"revised_prompt\":\"a cat\"}]}";
    let img = extract_image_reply(body).unwrap();
    assert_eq!(img.url, "http://x/y.png");
    assert_eq!(img.revised_prompt.as_deref(), Some("a cat"));
}

#[test]
fn image_without_revised_prompt() {
    let body = "{\"data\":[{\"url\":\"http://x/y.png\"}]}";
    let img = extract_image_reply(body).unwrap();
    assert_eq!(img.url, "http://x/y.png");
    assert!(img.revised_prompt.is_none());
}

#[test]
fn image_empty_data_is_no_image_data() {
    let r = extract_image_reply("{\"data\":[]}");
    assert!(matches!(r, Err(ApiError::NoImageData)));
    assert_eq!(r.unwrap_err().message(), "No image data found in response");
}

#[test]
fn image_missing_data_is_no_image_data() {
    let r = extract_image_reply("{}");
    assert!(matches!(r, Err(ApiError::NoImageData)));
}

#[test]
fn image_without_url_is_no_url() {
    let r = extract_image_reply("{\"data\":[{\"revised_prompt\":\"a cat\"}]}");
    assert!(matches!(r, Err(ApiError::NoImageUrl)));
    assert_eq!(r.unwrap_err().message(), "No URL found in response");
}

#[test]
fn image_request_without_endpoint_fails_before_any_send() {
    let r = image_request(&test_config(""), "a cat");
    assert!(matches!(r, Err(ApiError::ImageEndpointMissing)));
    assert_eq!(
        r.unwrap_err().message(),
        "Image endpoint not configured in /etc/grok/config"
    );
}

#[test]
fn image_request_with_endpoint_succeeds() {
    let req = image_request(&test_config("https://api.example/image"), "a cat").unwrap();
    assert_eq!(req.endpoint, "https://api.example/image");
    assert_eq!(req.api_key, "SECRET-REDACTED");
    let v: serde_json::Value = serde_json::from_str(&req.payload).unwrap();
    assert_eq!(v["prompt"].as_str().unwrap(), "a cat");
}

#[test]
fn transport_error_message_wraps_the_cause() {
    let e = ApiError::Transport(String::from("connection refused"));
    assert_eq!(
        e.message(),
        "Failed to send request, check config: connection refused"
    );
}
