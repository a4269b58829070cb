use sentinel::alert::{Alert, AlertSignificance};
use sentinel::discord_sender::{
    discord_payload, truncate_discord_content, DiscordHttpClient, DiscordSender,
    DISCORD_CONTENT_LIMIT, TRUNCATION_SUFFIX,
};
use sentinel::sender::Sender;
use std::cell::RefCell;
use std::rc::Rc;

struct RecordingDiscordHttpClient {
    requests: Rc<RefCell<Vec<(String, String)>>>,
    error: Option<&'static str>,
}

impl DiscordHttpClient for RecordingDiscordHttpClient {
    fn post_json(&mut self, url: &str, body: &str) -> Result<(), String> {
        self.requests
            .borrow_mut()
            .push((url.to_string(), body.to_string()));
        match self.error {
            Some(error) => Err(error.to_string()),
            None => Ok(()),
        }
    }
}

fn test_alert(message_text: String) -> Alert {
    Alert::new(
        "Tornado Warning".to_string(),
        AlertSignificance::Warning,
        "National Weather Service".to_string(),
        "KXYZ".to_string(),
        false,
        Vec::new(),
        Vec::new(),
        message_text,
    )
}

#[test]
fn discord_payload_uses_alert_message_text_as_content() {
    let requests = Rc::new(RefCell::new(Vec::new()));
    let mut sender = DiscordSender::new(
        "https://discord.example/webhook".to_string(),
        Box::new(RecordingDiscordHttpClient {
            requests: Rc::clone(&requests),
            error: None,
        }),
    );

    sender
        .send_alert(&test_alert("alert text".to_string()), 0)
        .unwrap();

    assert_eq!(
        *requests.borrow(),
        vec![(
            "https://discord.example/webhook".to_string(),
            r#"{"content":"alert text"}"#.to_string()
        )]
    );
}

#[test]
fn discord_payload_escapes_json_content() {
    assert_eq!(
        discord_payload("line 1\n\"quoted\" \\ path"),
        r#"{"content":"line 1\n\"quoted\" \\ path"}"#
    );
}

#[test]
fn discord_content_is_truncated_to_limit_with_suffix() {
    let content = truncate_discord_content(&"x".repeat(DISCORD_CONTENT_LIMIT + 1));

    assert_eq!(content.chars().count(), DISCORD_CONTENT_LIMIT);
    assert!(content.ends_with(TRUNCATION_SUFFIX));
}

#[test]
fn discord_send_errors_are_returned_to_best_effort_fanout() {
    let requests = Rc::new(RefCell::new(Vec::new()));
    let mut sender = DiscordSender::new(
        "https://discord.example/webhook".to_string(),
        Box::new(RecordingDiscordHttpClient {
            requests: Rc::clone(&requests),
            error: Some("send failed"),
        }),
    );

    assert!(sender
        .send_alert(&test_alert("alert text".to_string()), 0)
        .is_err());
    assert_eq!(requests.borrow().len(), 1);
}

#[test]
fn content_at_the_limit_is_sent_whole() {
    let text = "é".repeat(DISCORD_CONTENT_LIMIT);
    assert_eq!(truncate_discord_content(&text), text);
}

#[test]
fn long_content_keeps_its_beginning() {
    let text = format!("{}{}", "a".repeat(1985), "b".repeat(100));
    let content = truncate_discord_content(&text);
    assert_eq!(content, format!("{}{}", "a".repeat(1985), TRUNCATION_SUFFIX));
}

#[test]
fn discord_sender_is_named_and_always_ready() {
    let sender = DiscordSender::new(
        "https://discord.example/webhook".to_string(),
        Box::new(RecordingDiscordHttpClient {
            requests: Rc::new(RefCell::new(Vec::new())),
            error: None,
        }),
    );
    assert_eq!(sender.name(), "discord");
    assert!(sender.check_ready().is_ok());
}
