use hypr_magic::request::{build_payload, endpoint_for, json_escape, DEFAULT_MODEL, SYSTEM_PROMPT};
use hypr_magic::service::{Config, ConfigError};

#[test]
fn endpoint_substitutes_model() {
    assert_eq!(
        endpoint_for("gemini-3-flash-preview"),
        "https://generativelanguage.googleapis.com/v1beta/models/gemini-3-flash-preview:generateContent"
    );
}

#[test]
fn payload_has_fixed_shape() {
    assert_eq!(
        build_payload("polish it", "hi"),
        "{\"systemInstruction\":{\"parts\":[{\"text\":\"polish it\"}]},\"contents\":[{\"parts\":[{\"text\":\"<raw>hi</raw>\"}]}]}"
    );
}

#[test]
fn payload_escapes_for_json_and_xml() {
    let payload = build_payload("p", "a\"b\n& <c>");
    // the user text is XML-escaped first, then JSON-escaped for embedding
    assert!(payload.contains("<raw>a&quot;b\\n&amp; &lt;c&gt;</raw>"));
    // the result parses back as the expected JSON document
    let v: serde_json::Value = serde_json::from_str(&payload).unwrap();
    assert_eq!(
        v["contents"][0]["parts"][0]["text"].as_str().unwrap(),
        "<raw>a&quot;b\n&amp; &lt;c&gt;</raw>"
    );
    assert_eq!(v["systemInstruction"]["parts"][0]["text"].as_str().unwrap(), "p");
}

#[test]
fn payload_embeds_real_prompt() {
    let payload = build_payload(SYSTEM_PROMPT, "x");
    let v: serde_json::Value = serde_json::from_str(&payload).unwrap();
    assert_eq!(v["systemInstruction"]["parts"][0]["text"].as_str().unwrap(), SYSTEM_PROMPT);
}

#[test]
fn json_escaping_handles_controls() {
    assert_eq!(json_escape("a\"b\\c\nd\re\tf"), "a\\\"b\\\\c\\nd\\re\\tf");
    assert_eq!(json_escape("\u{1}\u{1f}"), "\\u0001\\u001f");
    assert_eq!(json_escape("plain"), "plain");
}

#[test]
fn config_requires_api_key() {
    assert_eq!(
        Config::from_env_values(None, None).unwrap_err(),
        ConfigError::MissingApiKey
    );
    assert_eq!(
        Config::from_env_values(Some(String::new()), None).unwrap_err(),
        ConfigError::MissingApiKey
    );
}

#[test]
fn config_defaults_model() {
    let c = Config::from_env_values(Some("k".to_string()), None).unwrap();
    assert_eq!(c.api_key, "k");
    assert_eq!(c.model, DEFAULT_MODEL);
    let c = Config::from_env_values(Some("k".to_string()), Some(String::new())).unwrap();
    assert_eq!(c.model, DEFAULT_MODEL);
    let c = Config::from_env_values(Some("k".to_string()), Some("other-model".to_string())).unwrap();
    assert_eq!(c.model, "other-model");
}

#[test]
fn config_error_message_is_fatal_text() {
    assert_eq!(
        ConfigError::MissingApiKey.message(),
        "Missing GEMINI_API_KEY. Set it in your shell before starting the app."
    );
}
