use notification_layer::telegram::compose_notification_text;
use notification_layer::{Level, TelegramConfig};

fn config(users: Vec<String>) -> TelegramConfig {
    TelegramConfig::new(
        "testing".to_string(),
        users,
        "TOKEN".to_string(),
        "-100".to_string(),
        reqwest::blocking::Client::new(),
    )
}

#[test]
fn send_url_embeds_the_token() {
    assert_eq!(config(Vec::new()).send_url(), "https://api.telegram.org/botTOKEN/sendMessage");
}

#[test]
fn text_lists_mentions_then_codebase_then_report() {
    let c = config(vec!["@ann".to_string(), "@bob".to_string()]);
    assert_eq!(
        c.notification_text("REPORT"),
        "[\n    \"@ann\",\n    \"@bob\",\n]\ncodebase: testing had a error \nREPORT"
    );
    assert_eq!(config(Vec::new()).notification_text("R"), "[]\ncodebase: testing had a error \nR");
}

#[test]
fn compose_text_is_exact() {
    assert_eq!(compose_notification_text("M", "c", "r"), "M\ncodebase: c had a error \nr");
    assert_eq!(compose_notification_text("", "", ""), "\ncodebase:  had a error \n");
}

#[test]
fn form_params_hold_chat_and_text() {
    let c = config(Vec::new());
    assert_eq!(
        c.form_params("R"),
        vec![
            ("chat_id".to_string(), "-100".to_string()),
            ("text".to_string(), "[]\ncodebase: testing had a error \nR".to_string()),
        ]
    );
}

#[test]
fn built_layer_uses_config_as_context() {
    let c = config(vec!["@ann".to_string()]);
    let layer = c.build_layer(vec![Level::Error], |_: &TelegramConfig, _m: String| {});
    assert!(layer.captures(Level::Error));
    assert!(!layer.captures(Level::Warn));
    assert_eq!(layer.config().send_url(), "https://api.telegram.org/botTOKEN/sendMessage");
}
