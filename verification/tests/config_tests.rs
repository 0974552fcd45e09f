use grok_cli::config::load_config;
use grok_cli::config::parse_config_line;
use grok_cli::config::render_config;
use grok_cli::config::ConfigError;

#[test]
fn parse_line_splits_at_first_equals() {
    let r = parse_config_line("A=B=C").unwrap();
    assert_eq!(r.0, "A");
    assert_eq!(r.1, "B=C");
}

#[test]
fn parse_line_trims_and_unquotes() {
    let r = parse_config_line("  X-AI-KEY  =  \"secret\"  ").unwrap();
    assert_eq!(r.0, "X-AI-KEY");
    assert_eq!(r.1, "secret");
}

#[test]
fn parse_line_strips_one_quote_layer_only() {
    let r = parse_config_line("K=\"\"v\"\"").unwrap();
    assert_eq!(r.0, "K");
    assert_eq!(r.1, "\"v\"");
}

#[test]
fn parse_line_without_equals_is_nothing() {
    assert!(parse_config_line("no separator here").is_none());
    assert!(parse_config_line("").is_none());
}

#[test]
fn load_yields_trimmed_unquoted_values() {
    let text = "X-AI-ENDPOINT=\"https://api.example/chat\"\nX-AI-KEY=\"SECRET-REDACTED\"\nX-AI-IMAGE-ENDPOINT=\"https://api.example/image\"\n";
    let c = load_config(text).unwrap();
    assert_eq!(c.endpoint, "https://api.example/chat");
    assert_eq!(c.key, "SECRET-REDACTED");
    assert_eq!(c.image_endpoint, "https://api.example/image");
}

#[test]
fn load_ignores_lines_without_equals() {
    let text = "just a note\nX-AI-ENDPOINT=\"e\"\n\nX-AI-KEY=\"k\"\n";
    let c = load_config(text).unwrap();
    assert_eq!(c.endpoint, "e");
    assert_eq!(c.key, "k");
    assert_eq!(c.image_endpoint, "");
}

#[test]
fn config_error_messages() {
    assert_eq!(ConfigError::MissingEndpoint.message(), "Missing X-AI-ENDPOINT");
    assert_eq!(ConfigError::MissingKey.message(), "Missing X-AI-KEY");
}

#[test]
fn load_missing_key_fails() {
    let text = "X-AI-ENDPOINT=\"e\"\n";
    match load_config(text) {
        Err(e) => assert_eq!(e, ConfigError::MissingKey),
        Ok(_) => panic!("expected a missing-key error"),
    }
}

#[test]
fn load_missing_endpoint_fails() {
    let text = "X-AI-KEY=\"k\"\n";
    match load_config(text) {
        Err(e) => assert_eq!(e, ConfigError::MissingEndpoint),
        Ok(_) => panic!("expected a missing-endpoint error"),
    }
}

#[test]
fn load_missing_image_endpoint_is_empty_not_error() {
    let text = "X-AI-ENDPOINT=\"e\"\nX-AI-KEY=\"k\"\n";
    let c = load_config(text).unwrap();
    assert_eq!(c.image_endpoint, "");
}

#[test]
fn load_later_line_wins() {
    let text = "X-AI-ENDPOINT=\"first\"\nX-AI-KEY=\"k\"\nX-AI-ENDPOINT=\"second\"\n";
    let c = load_config(text).unwrap();
    assert_eq!(c.endpoint, "second");
}

#[test]
fn render_then_load_round_trips() {
    let text = render_config(
        "https://api.example/chat",
        "SECRET-REDACTED",
        "https://api.example/image",
    );
    let c = load_config(&text).unwrap();
    assert_eq!(c.endpoint, "https://api.example/chat");
    assert_eq!(c.key, "SECRET-REDACTED");
    assert_eq!(c.image_endpoint, "https://api.example/image");
}

#[test]
fn render_then_load_round_trips_with_awkward_values() {
    let text = render_config("https://h/p?a=b&c=d", "k=v=w", "");
    let c = load_config(&text).unwrap();
    assert_eq!(c.endpoint, "https://h/p?a=b&c=d");
    assert_eq!(c.key, "k=v=w");
    assert_eq!(c.image_endpoint, "");
}

#[test]
fn render_writes_quoted_lines() {
    let text = render_config("e", "k", "i");
    assert_eq!(
        text,
        "X-AI-ENDPOINT=\"e\"\nX-AI-KEY=\"k\"\nX-AI-IMAGE-ENDPOINT=\"i\"\n"
    );
}
