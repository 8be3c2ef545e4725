use pgp_relay::config::Config;
use pgp_relay::error::ErrorKind;
use pgp_relay::ident::{is_msg_id, is_token_str};
use pgp_relay::mail::SmtpRequest;
use pgp_relay::structs::{MessageSubmission, TokenSubmission};
use pgp_relay::workflow::{post_pgp_message, post_pgp_token, status_code, Action, Event, Flow};
use std::collections::HashMap;

const ARMOR: &str = "-----BEGIN PGP MESSAGE-----\n\n-----END PGP MESSAGE-----";

/// A medium and a relay in memory.
struct World {
    records: HashMap<String, String>,
    outbox: Vec<SmtpRequest>,
    relay_up: bool,
    reads: usize,
}

fn world() -> World {
    World { records: HashMap::new(), outbox: Vec::new(), relay_up: true, reads: 0 }
}

fn full_config() -> Config {
    Config {
        storage_path: Some("/spool".to_string()),
        email_from: Some("relay@example.org".to_string()),
        email_recipient: Some("owner@example.org".to_string()),
        smtp_username: Some("user".to_string()),
        smtp_token: Some("secret".to_string()),
        smtp_server: Some("smtp.example.org".to_string()),
    }
}

fn submission(reply_to: &str, pgp_message: &str) -> MessageSubmission {
    MessageSubmission { reply_to: reply_to.to_string(), pgp_message: pgp_message.to_string() }
}

fn encode(payload: &MessageSubmission) -> String {
    let mut object = serde_json::Map::new();
    object.insert("reply_to".to_string(), serde_json::Value::String(payload.reply_to.clone()));
    object.insert("pgp_message".to_string(), serde_json::Value::String(payload.pgp_message.clone()));
    serde_json::to_string(&serde_json::Value::Object(object)).unwrap()
}

fn decode(contents: &str) -> Option<MessageSubmission> {
    let value: serde_json::Value = serde_json::from_str(contents).ok()?;
    Some(MessageSubmission {
        reply_to: value.get("reply_to")?.as_str()?.to_string(),
        pgp_message: value.get("pgp_message")?.as_str()?.to_string(),
    })
}

impl World {
    fn perform(&mut self, action: Action) -> Event {
        match action {
            Action::Encode { payload } => Event::Encoded(encode(&payload)),
            Action::Create { path, contents } => {
                if self.records.contains_key(&path) {
                    Event::Failed
                } else {
                    self.records.insert(path, contents);
                    Event::Created
                }
            }
            Action::Probe { path } => {
                self.reads += 1;
                if self.records.contains_key(&path) {
                    Event::Present
                } else {
                    Event::Absent
                }
            }
            Action::Read { path } => {
                self.reads += 1;
                match self.records.get(&path) {
                    Some(contents) => Event::Contents(contents.clone()),
                    None => Event::Absent,
                }
            }
            Action::Decode { contents } => match decode(&contents) {
                Some(payload) => Event::Decoded(payload),
                None => Event::Failed,
            },
            Action::Remove { path } => match self.records.remove(&path) {
                Some(_) => Event::Removed,
                None => Event::Absent,
            },
            Action::Send { request } => {
                if self.relay_up {
                    self.outbox.push(request);
                    Event::Sent
                } else {
                    Event::Failed
                }
            }
            Action::Respond { .. } => unreachable!(),
        }
    }

    fn turn(&mut self, config: &Config, flow: Flow) -> Flow {
        match flow.action() {
            Action::Respond { .. } => flow,
            action => {
                let event = self.perform(action);
                flow.step(config, event)
            }
        }
    }

    fn drive(&mut self, config: &Config, mut flow: Flow) -> Result<String, ErrorKind> {
        for _ in 0..5 {
            flow = self.turn(config, flow);
        }
        match flow {
            Flow::Finished { outcome } => outcome,
            other => panic!("flow did not finish: {:?}", other),
        }
    }
}

/// The token, as the sender finds it in the mail.
fn token_in(request: &SmtpRequest) -> String {
    let body = &request.mail.body;
    let start = body.find(":\n\n").unwrap() + 3;
    body[start..start + 30].to_string()
}

fn claim(id: &str, token: &str) -> TokenSubmission {
    TokenSubmission { msg_id: id.to_string(), token: token.to_string() }
}

#[test]
fn submit_then_confirm_delivers_the_message() {
    let config = full_config();
    let mut world = world();
    let outcome = world.drive(&config, post_pgp_message(submission("a@b.com", ARMOR)));
    assert_eq!(status_code(&outcome), 200);
    let id = outcome.unwrap();
    assert!(is_msg_id(&id));
    assert!(uuid::Uuid::parse_str(&id).is_ok());
    assert_eq!(world.outbox.len(), 1);
    assert_eq!(world.outbox[0].mail.to, "a@b.com");
    let token = token_in(&world.outbox[0]);
    assert!(is_token_str(&token));
    assert_eq!(world.records.len(), 1);
    assert!(world.records.contains_key(&format!("/spool/{}_{}.pgp_message", id, token)));

    let outcome = world.drive(&config, post_pgp_token(&config, claim(&id, &token)));
    assert_eq!(outcome, Ok(String::new()));
    assert_eq!(status_code(&outcome), 200);
    assert_eq!(world.outbox.len(), 2);
    assert_eq!(world.outbox[1].mail.body, ARMOR);
    assert_eq!(world.outbox[1].mail.reply_to, Some("a@b.com".to_string()));
    assert_eq!(world.outbox[1].mail.to, "Me <owner@example.org>");
    assert!(world.records.is_empty());
}

#[test]
fn second_confirmation_is_not_found() {
    let config = full_config();
    let mut world = world();
    let id = world.drive(&config, post_pgp_message(submission("a@b.com", ARMOR))).unwrap();
    let token = token_in(&world.outbox[0]);
    assert_eq!(world.drive(&config, post_pgp_token(&config, claim(&id, &token))), Ok(String::new()));
    let again = world.drive(&config, post_pgp_token(&config, claim(&id, &token)));
    assert_eq!(again, Err(ErrorKind::NotFound));
    assert_eq!(status_code(&again), 404);
    assert_eq!(world.outbox.len(), 2);
}

#[test]
fn token_is_not_in_the_answer() {
    let config = full_config();
    let mut world = world();
    let id = world.drive(&config, post_pgp_message(submission("a@b.com", ARMOR))).unwrap();
    let token = token_in(&world.outbox[0]);
    assert!(!id.contains(&token));
    assert_eq!(id.len(), 36);
}

#[test]
fn stored_record_reads_back_unchanged() {
    let config = full_config();
    let mut world = world();
    let payload = submission("weird+\"quoted\"@b.com", "-----BEGIN PGP MESSAGE-----\n\nab+/=\n-----END PGP MESSAGE-----\n");
    let text = encode(&payload);
    assert_eq!(decode(&text), Some(payload.duplicate()));
    let id = world.drive(&config, post_pgp_message(submission("a@b.com", "-----BEGIN PGP MESSAGE-----\r\n\r\nab+/=\r\n-----END PGP MESSAGE-----\r\n"))).unwrap();
    let token = token_in(&world.outbox[0]);
    let stored = world.records.values().next().unwrap().clone();
    assert_eq!(stored, encode(&submission("a@b.com", "-----BEGIN PGP MESSAGE-----\r\n\r\nab+/=\r\n-----END PGP MESSAGE-----\r\n")));
    world.drive(&config, post_pgp_token(&config, claim(&id, &token))).unwrap();
    assert_eq!(world.outbox[1].mail.body, "-----BEGIN PGP MESSAGE-----\r\n\r\nab+/=\r\n-----END PGP MESSAGE-----\r\n");
    assert_eq!(world.outbox[1].mail.reply_to, Some("a@b.com".to_string()));
}

#[test]
fn invalid_payload_is_rejected_and_nothing_is_stored() {
    let config = full_config();
    let long_line = format!("-----BEGIN PGP MESSAGE-----\n\n{}\n-----END PGP MESSAGE-----", "a".repeat(61));
    let many_lines = format!("-----BEGIN PGP MESSAGE-----\n\n{}-----END PGP MESSAGE-----", "ab\n".repeat(198));
    let payloads = [
        "-----BEGIN PGP MESSAGES-----\n\n-----END PGP MESSAGE-----",
        "-----BEGIN PGP MESSAGE-----\nx\n-----END PGP MESSAGE-----",
        long_line.as_str(),
        "-----BEGIN PGP MESSAGE-----\n\nab!cd\n-----END PGP MESSAGE-----",
        "-----BEGIN PGP MESSAGE-----\n\nabcd\n-----END PGP MESSAGE",
        many_lines.as_str(),
    ];
    for payload in payloads {
        let mut world = world();
        let flow = post_pgp_message(submission("a@b.com", payload));
        assert_eq!(flow, Flow::Finished { outcome: Err(ErrorKind::InvalidInput) });
        let outcome = world.drive(&config, flow);
        assert_eq!(outcome, Err(ErrorKind::InvalidInput));
        assert_eq!(status_code(&outcome), 400);
        assert!(world.records.is_empty());
        assert!(world.outbox.is_empty());
    }
}

#[test]
fn malformed_reply_to_is_rejected() {
    for address in ["", "no-at-sign", "nobody@", "two@@signs.org"] {
        let flow = post_pgp_message(submission(address, ARMOR));
        assert_eq!(flow, Flow::Finished { outcome: Err(ErrorKind::InvalidInput) });
    }
}

#[test]
fn unknown_pair_is_not_found() {
    let config = full_config();
    let mut world = world();
    let outcome = world.drive(
        &config,
        post_pgp_token(&config, claim("67e55044-10b1-426f-9247-bb680e5fe0c8", "abcdefghijklmnopqrstuvwxyzABCD")),
    );
    assert_eq!(outcome, Err(ErrorKind::NotFound));
    assert_eq!(status_code(&outcome), 404);
}

#[test]
fn right_identifier_with_wrong_token_is_not_found() {
    let config = full_config();
    let mut world = world();
    let id = world.drive(&config, post_pgp_message(submission("a@b.com", ARMOR))).unwrap();
    let token = token_in(&world.outbox[0]);
    let other = if token.starts_with('a') { token.replacen('a', "b", 1) } else { format!("a{}", &token[1..]) };
    assert_eq!(world.drive(&config, post_pgp_token(&config, claim(&id, &other))), Err(ErrorKind::NotFound));
    assert_eq!(world.records.len(), 1);
    assert_eq!(world.drive(&config, post_pgp_token(&config, claim(&id, &token))), Ok(String::new()));
}

#[test]
fn short_token_is_rejected_without_storage_access() {
    let config = full_config();
    let mut world = world();
    let flow = post_pgp_token(&config, claim("67e55044-10b1-426f-9247-bb680e5fe0c8", "abcdefghijklmnopqrstuvwxyzABC"));
    assert!(flow.is_finished());
    assert_eq!(flow.action(), Action::Respond { outcome: Err(ErrorKind::InvalidInput) });
    let outcome = world.drive(&config, flow);
    assert_eq!(status_code(&outcome), 400);
    assert_eq!(world.reads, 0);
}

#[test]
fn malformed_identifier_is_rejected_without_storage_access() {
    let config = full_config();
    let flow = post_pgp_token(&config, claim("../../etc/passwd", "abcdefghijklmnopqrstuvwxyzABCD"));
    assert_eq!(flow, Flow::Finished { outcome: Err(ErrorKind::InvalidInput) });
}

#[test]
fn racing_confirmations_have_one_winner() {
    let config = full_config();
    for turns in 0u32..1024 {
        let mut world = world();
        let id = world.drive(&config, post_pgp_message(submission("a@b.com", ARMOR))).unwrap();
        let token = token_in(&world.outbox[0]);
        let mut first = post_pgp_token(&config, claim(&id, &token));
        let mut second = post_pgp_token(&config, claim(&id, &token));
        for turn in 0..10 {
            if turns >> turn & 1 == 1 {
                first = world.turn(&config, first);
            } else {
                second = world.turn(&config, second);
            }
        }
        for _ in 0..5 {
            first = world.turn(&config, first);
            second = world.turn(&config, second);
        }
        let won = Flow::Finished { outcome: Ok(String::new()) };
        let lost = Flow::Finished { outcome: Err(ErrorKind::NotFound) };
        assert!((first == won && second == lost) || (first == lost && second == won));
        assert_eq!(world.outbox.len(), 2);
        assert!(world.records.is_empty());
    }
}

#[test]
fn missing_storage_path_is_a_configuration_failure() {
    let mut config = full_config();
    config.storage_path = None;
    let mut world = world();
    let outcome = world.drive(&config, post_pgp_message(submission("a@b.com", ARMOR)));
    assert_eq!(outcome, Err(ErrorKind::ConfigurationMissing));
    assert_eq!(status_code(&outcome), 500);
    assert!(world.records.is_empty());
    let outcome = world.drive(
        &config,
        post_pgp_token(&config, claim("67e55044-10b1-426f-9247-bb680e5fe0c8", "abcdefghijklmnopqrstuvwxyzABCD")),
    );
    assert_eq!(outcome, Err(ErrorKind::ConfigurationMissing));
}

#[test]
fn validation_comes_before_configuration() {
    let mut config = full_config();
    config.storage_path = None;
    let flow = post_pgp_token(&config, claim("x", "y"));
    assert_eq!(flow, Flow::Finished { outcome: Err(ErrorKind::InvalidInput) });
}

#[test]
fn failed_encoding_is_a_storage_failure() {
    let config = full_config();
    let flow = post_pgp_message(submission("a@b.com", ARMOR));
    let flow = flow.step(&config, Event::Failed);
    assert_eq!(flow, Flow::Finished { outcome: Err(ErrorKind::StorageFailure) });
}

#[test]
fn existing_record_is_not_overwritten() {
    let config = full_config();
    let mut world = world();
    let flow = post_pgp_message(submission("a@b.com", ARMOR));
    let flow = world.turn(&config, flow);
    let path = match flow.action() {
        Action::Create { path, .. } => path,
        other => panic!("unexpected action {:?}", other),
    };
    world.records.insert(path.clone(), "earlier".to_string());
    let outcome = world.drive(&config, flow);
    assert_eq!(outcome, Err(ErrorKind::StorageFailure));
    assert_eq!(status_code(&outcome), 500);
    assert_eq!(world.records.get(&path), Some(&"earlier".to_string()));
    assert!(world.outbox.is_empty());
}

#[test]
fn record_stays_when_the_token_mail_fails() {
    let config = full_config();
    let mut world = world();
    world.relay_up = false;
    let outcome = world.drive(&config, post_pgp_message(submission("a@b.com", ARMOR)));
    assert_eq!(outcome, Err(ErrorKind::NotifierFailure));
    assert_eq!(status_code(&outcome), 500);
    assert_eq!(world.records.len(), 1);
}

#[test]
fn record_stays_when_the_sender_is_not_configured() {
    let mut config = full_config();
    config.email_from = None;
    let mut world = world();
    let outcome = world.drive(&config, post_pgp_message(submission("a@b.com", ARMOR)));
    assert_eq!(outcome, Err(ErrorKind::ConfigurationMissing));
    assert_eq!(world.records.len(), 1);
}

#[test]
fn record_is_gone_when_the_delivery_fails() {
    let config = full_config();
    let mut world = world();
    let id = world.drive(&config, post_pgp_message(submission("a@b.com", ARMOR))).unwrap();
    let token = token_in(&world.outbox[0]);
    world.relay_up = false;
    let outcome = world.drive(&config, post_pgp_token(&config, claim(&id, &token)));
    assert_eq!(outcome, Err(ErrorKind::NotifierFailure));
    assert!(world.records.is_empty());
    world.relay_up = true;
    assert_eq!(world.drive(&config, post_pgp_token(&config, claim(&id, &token))), Err(ErrorKind::NotFound));
}

#[test]
fn corrupt_record_is_reported_and_kept() {
    let config = full_config();
    let mut world = world();
    let id = "67e55044-10b1-426f-9247-bb680e5fe0c8";
    let token = "abcdefghijklmnopqrstuvwxyzABCD";
    let path = format!("/spool/{}_{}.pgp_message", id, token);
    world.records.insert(path.clone(), "{ not json".to_string());
    let outcome = world.drive(&config, post_pgp_token(&config, claim(id, token)));
    assert_eq!(outcome, Err(ErrorKind::CorruptRecord));
    assert_eq!(status_code(&outcome), 500);
    assert!(world.records.contains_key(&path));
    assert!(world.outbox.is_empty());
}

#[test]
fn failures_of_the_medium_are_storage_failures() {
    let config = full_config();
    let start = || post_pgp_token(&config, claim("67e55044-10b1-426f-9247-bb680e5fe0c8", "abcdefghijklmnopqrstuvwxyzABCD"));
    let failure = Flow::Finished { outcome: Err(ErrorKind::StorageFailure) };
    let missing = Flow::Finished { outcome: Err(ErrorKind::NotFound) };
    assert_eq!(start().step(&config, Event::Failed), failure);
    assert_eq!(start().step(&config, Event::Absent), missing);
    let reading = start().step(&config, Event::Present);
    assert_eq!(reading.action(), Action::Read { path: "/spool/67e55044-10b1-426f-9247-bb680e5fe0c8_abcdefghijklmnopqrstuvwxyzABCD.pgp_message".to_string() });
    assert_eq!(start().step(&config, Event::Present).step(&config, Event::Failed), failure);
    assert_eq!(start().step(&config, Event::Present).step(&config, Event::Absent), missing);
    let removing = || {
        start()
            .step(&config, Event::Present)
            .step(&config, Event::Contents("text".to_string()))
            .step(&config, Event::Decoded(submission("a@b.com", ARMOR)))
    };
    assert_eq!(removing().action(), Action::Remove { path: "/spool/67e55044-10b1-426f-9247-bb680e5fe0c8_abcdefghijklmnopqrstuvwxyzABCD.pgp_message".to_string() });
    assert_eq!(removing().step(&config, Event::Failed), failure);
    assert_eq!(removing().step(&config, Event::Absent), missing);
    let submitting = post_pgp_message(submission("a@b.com", ARMOR)).step(&config, Event::Encoded("text".to_string()));
    assert_eq!(submitting.step(&config, Event::Failed), failure);
}

#[test]
fn delivery_needs_recipient_after_removal() {
    let mut config = full_config();
    config.email_recipient = None;
    let mut world = world();
    let id = world.drive(&config, post_pgp_message(submission("a@b.com", ARMOR))).unwrap();
    let token = token_in(&world.outbox[0]);
    let outcome = world.drive(&config, post_pgp_token(&config, claim(&id, &token)));
    assert_eq!(outcome, Err(ErrorKind::ConfigurationMissing));
    assert!(world.records.is_empty());
}

#[test]
fn event_that_answers_nothing_is_ignored() {
    let config = full_config();
    let start = post_pgp_token(&config, claim("67e55044-10b1-426f-9247-bb680e5fe0c8", "abcdefghijklmnopqrstuvwxyzABCD"));
    let same = post_pgp_token(&config, claim("67e55044-10b1-426f-9247-bb680e5fe0c8", "abcdefghijklmnopqrstuvwxyzABCD"));
    assert_eq!(start.step(&config, Event::Sent).step(&config, Event::Removed).step(&config, Event::Created), same);
    let done = Flow::Finished { outcome: Ok("id".to_string()) };
    assert_eq!(done.step(&config, Event::Failed), Flow::Finished { outcome: Ok("id".to_string()) });
}

#[test]
fn actions_follow_the_states() {
    let config = full_config();
    let flow = post_pgp_message(submission("a@b.com", ARMOR));
    assert!(!flow.is_finished());
    assert_eq!(flow.action(), Action::Encode { payload: submission("a@b.com", ARMOR) });
    let flow = flow.step(&config, Event::Encoded("text".to_string()));
    match flow.action() {
        Action::Create { path, contents } => {
            assert!(path.starts_with("/spool/"));
            assert!(path.ends_with(".pgp_message"));
            assert_eq!(path.len(), "/spool/".len() + 36 + 1 + 30 + ".pgp_message".len());
            assert_eq!(contents, "text");
        }
        other => panic!("unexpected action {:?}", other),
    }
    let flow = flow.step(&config, Event::Created);
    match flow.action() {
        Action::Send { request } => assert_eq!(request.mail.subject, "Your submission token"),
        other => panic!("unexpected action {:?}", other),
    }
    let flow = flow.step(&config, Event::Sent);
    assert!(flow.is_finished());
    match flow.action() {
        Action::Respond { outcome } => assert!(is_msg_id(&outcome.unwrap())),
        other => panic!("unexpected action {:?}", other),
    }
}
