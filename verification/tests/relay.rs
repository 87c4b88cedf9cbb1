use std::io::Write;

use flate2::write::GzEncoder;
use flate2::Compression;
use slack_relay::config::{resolve, DeliveryConfig, Environment};
use slack_relay::decode::decode_event;
use slack_relay::error::{ConfigError, CustomError, DecodeError, DeliveryError, RelayError};
use slack_relay::event::RawEvent;
use slack_relay::notify::{build_payload, delivery_result, ChatPayload};
use slack_relay::relay::{RelayAction, RelayEvent, RelayState};

fn valid_environment() -> Environment {
    Environment {
        slack_webhook: Some("https://hooks.example/services/T000/B000/XXXX".to_string()),
        channel_name: Some("#ops".to_string()),
        username: None,
        log_level: None,
    }
}

fn valid_config() -> DeliveryConfig {
    resolve(&valid_environment()).unwrap()
}

fn payload(text: &str) -> ChatPayload {
    ChatPayload {
        text: text.to_string(),
        channel: "#ops".to_string(),
        username: "SnsToSlackLambda".to_string(),
        icon_emoji: ":bomb:".to_string(),
    }
}

fn raw_log_data(json: &str) -> String {
    let mut encoder = GzEncoder::new(Vec::new(), Compression::default());
    encoder.write_all(json.as_bytes()).unwrap();
    base64::encode(&encoder.finish().unwrap())
}

/// Runs one invocation as a host would, answering each delivery with the
/// next of `outcomes`. Returns what the host reports and what it posted.
fn invoke(
    env: &Environment,
    event: &RawEvent,
    outcomes: Vec<Result<(), String>>,
) -> (Result<(), CustomError>, Vec<(String, ChatPayload)>) {
    let mut outcomes = outcomes.into_iter();
    let mut posted = Vec::new();
    let mut state = RelayState::new();
    loop {
        let reported = match state.action() {
            RelayAction::Configure => RelayEvent::Configured(resolve(env)),
            RelayAction::Decode => RelayEvent::Decoded(decode_event(event)),
            RelayAction::Deliver { webhook_url, payload } => {
                posted.push((webhook_url, payload));
                let outcome = outcomes.next().expect("a delivery that no outcome was planned for");
                RelayEvent::Delivered(delivery_result(outcome))
            }
            RelayAction::Succeed => return (Ok(()), posted),
            RelayAction::Fail { error } => return (Err(error.report()), posted),
        };
        state = state.step(reported);
    }
}

fn notifying(messages: &[&str]) -> RelayState {
    RelayState::new()
        .step(RelayEvent::Configured(Ok(valid_config())))
        .step(RelayEvent::Decoded(Ok(messages.iter().map(|m| m.to_string()).collect())))
}

#[test]
fn payload_carries_message_and_configuration() {
    let config = DeliveryConfig {
        webhook_url: "https://hooks.example/x".to_string(),
        channel: "#alerts".to_string(),
        display_name: "relay-bot".to_string(),
        icon_tag: ":bomb:".to_string(),
    };
    assert_eq!(
        build_payload("disk is full", &config),
        ChatPayload {
            text: "disk is full".to_string(),
            channel: "#alerts".to_string(),
            username: "relay-bot".to_string(),
            icon_emoji: ":bomb:".to_string(),
        }
    );
}

#[test]
fn delivery_outcome_is_named() {
    assert_eq!(delivery_result(Ok(())), Ok(()));
    assert_eq!(
        delivery_result(Err("HTTP error 500 Internal Server Error".to_string())),
        Err(DeliveryError::SendFailed("HTTP error 500 Internal Server Error".to_string()))
    );
}

#[test]
fn machine_starts_by_asking_for_configuration() {
    let state = RelayState::new();
    assert_eq!(state, RelayState::Start);
    assert_eq!(state.action(), RelayAction::Configure);
}

#[test]
fn configuration_leads_to_decoding() {
    let state = RelayState::new().step(RelayEvent::Configured(Ok(valid_config())));
    assert_eq!(state, RelayState::Decoding { config: valid_config() });
    assert_eq!(state.action(), RelayAction::Decode);
}

#[test]
fn configuration_error_fails_the_invocation() {
    let error = ConfigError::MissingRequired("CHANNEL_NAME".to_string());
    let state = RelayState::new().step(RelayEvent::Configured(Err(error.clone())));
    assert_eq!(state, RelayState::Failed { error: RelayError::Config(error.clone()) });
    assert_eq!(state.action(), RelayAction::Fail { error: RelayError::Config(error) });
}

#[test]
fn decode_error_fails_the_invocation() {
    let state = RelayState::new()
        .step(RelayEvent::Configured(Ok(valid_config())))
        .step(RelayEvent::Decoded(Err(DecodeError::MalformedPayload)));
    assert_eq!(
        state,
        RelayState::Failed { error: RelayError::Decode(DecodeError::MalformedPayload) }
    );
}

#[test]
fn no_messages_means_done_at_once() {
    let state = notifying(&[]);
    assert_eq!(state, RelayState::Done);
    assert_eq!(state.action(), RelayAction::Succeed);
}

#[test]
fn messages_are_delivered_one_at_a_time_in_order() {
    let mut state = notifying(&["one", "two", "three"]);
    for (i, text) in ["one", "two", "three"].iter().enumerate() {
        assert_eq!(
            state,
            RelayState::Notifying {
                config: valid_config(),
                messages: vec!["one".to_string(), "two".to_string(), "three".to_string()],
                next: i,
            }
        );
        assert_eq!(
            state.action(),
            RelayAction::Deliver {
                webhook_url: "https://hooks.example/services/T000/B000/XXXX".to_string(),
                payload: payload(text),
            }
        );
        state = state.step(RelayEvent::Delivered(Ok(())));
    }
    assert_eq!(state, RelayState::Done);
    assert_eq!(state.action(), RelayAction::Succeed);
}

#[test]
fn asking_twice_changes_nothing() {
    let state = notifying(&["only"]);
    assert_eq!(state.action(), state.action());
    assert_eq!(state.action(), RelayAction::Deliver {
        webhook_url: "https://hooks.example/services/T000/B000/XXXX".to_string(),
        payload: payload("only"),
    });
}

#[test]
fn failed_delivery_fails_the_invocation() {
    let state = notifying(&["one", "two"])
        .step(RelayEvent::Delivered(Err(DeliveryError::SendFailed("refused".to_string()))));
    let error = RelayError::Delivery(DeliveryError::SendFailed("refused".to_string()));
    assert_eq!(state, RelayState::Failed { error: error.clone() });
    assert_eq!(state.action(), RelayAction::Fail { error });
}

#[test]
fn finished_invocations_take_no_more_events() {
    let failure = RelayError::Decode(DecodeError::InvalidEncoding);
    let failed = RelayState::Failed { error: failure.clone() };
    for state in [RelayState::Done, failed] {
        let after = state.clone().step(RelayEvent::Configured(Ok(valid_config())));
        assert_eq!(after, state);
        let after = state.clone().step(RelayEvent::Decoded(Ok(vec!["late".to_string()])));
        assert_eq!(after, state);
        let after = state.clone().step(RelayEvent::Delivered(Ok(())));
        assert_eq!(after, state);
        let after = state
            .clone()
            .step(RelayEvent::Delivered(Err(DeliveryError::SendFailed("late".to_string()))));
        assert_eq!(after, state);
    }
}

#[test]
fn events_that_were_not_asked_for_are_ignored() {
    let start = RelayState::new();
    assert_eq!(start.clone().step(RelayEvent::Decoded(Ok(vec!["x".to_string()]))), start);
    assert_eq!(start.clone().step(RelayEvent::Delivered(Ok(()))), start);
    let decoding = RelayState::Decoding { config: valid_config() };
    assert_eq!(decoding.clone().step(RelayEvent::Delivered(Ok(()))), decoding);
    assert_eq!(
        decoding.clone().step(RelayEvent::Configured(Err(ConfigError::MissingRequired(
            "SLACK_WEBHOOK".to_string()
        )))),
        decoding
    );
    let delivering = notifying(&["x"]);
    assert_eq!(delivering.clone().step(RelayEvent::Decoded(Ok(Vec::new()))), delivering);
    assert_eq!(
        delivering.clone().step(RelayEvent::Configured(Ok(valid_config()))),
        delivering
    );
}

#[test]
fn notifying_past_the_last_message_counts_as_done() {
    let state = RelayState::Notifying {
        config: valid_config(),
        messages: vec!["x".to_string()],
        next: 1,
    };
    assert_eq!(state.action(), RelayAction::Succeed);
    assert_eq!(state.step(RelayEvent::Delivered(Ok(()))), RelayState::Done);
    let state = RelayState::Notifying { config: valid_config(), messages: Vec::new(), next: usize::MAX };
    assert_eq!(state.action(), RelayAction::Succeed);
    assert_eq!(state.step(RelayEvent::Delivered(Ok(()))), RelayState::Done);
}

#[test]
fn notification_is_posted_once_and_the_invocation_succeeds() {
    let event = RawEvent::Notifications { records: vec![Some("hello".to_string())] };
    let (result, posted) = invoke(&valid_environment(), &event, vec![Ok(())]);
    assert_eq!(result, Ok(()));
    assert_eq!(
        posted,
        vec![("https://hooks.example/services/T000/B000/XXXX".to_string(), payload("hello"))]
    );
    assert_eq!(posted[0].1.text, "hello");
}

#[test]
fn second_of_three_failing_stops_the_batch() {
    let data = raw_log_data(
        r#"{"logEvents":[{"message":"first"},{"message":"second"},{"message":"third"}]}"#,
    );
    let event = RawEvent::Logs { data: Some(data) };
    let outcomes = vec![Ok(()), Err("HTTP error 503 Service Unavailable".to_string()), Ok(())];
    let (result, posted) = invoke(&valid_environment(), &event, outcomes);
    assert_eq!(
        result,
        Err(CustomError::new("HTTP error 503 Service Unavailable".to_string()))
    );
    let texts: Vec<&str> = posted.iter().map(|(_, p)| p.text.as_str()).collect();
    assert_eq!(texts, vec!["first", "second"]);
    assert!(!texts.contains(&"third"));
}

#[test]
fn second_of_three_failing_step_by_step() {
    let state = notifying(&["first", "second", "third"]);
    assert_eq!(state.action(), RelayAction::Deliver {
        webhook_url: "https://hooks.example/services/T000/B000/XXXX".to_string(),
        payload: payload("first"),
    });
    let state = state.step(RelayEvent::Delivered(Ok(())));
    assert_eq!(state.action(), RelayAction::Deliver {
        webhook_url: "https://hooks.example/services/T000/B000/XXXX".to_string(),
        payload: payload("second"),
    });
    let failure = DeliveryError::SendFailed("second was refused".to_string());
    let state = state.step(RelayEvent::Delivered(Err(failure.clone())));
    assert_eq!(state, RelayState::Failed { error: RelayError::Delivery(failure.clone()) });
    assert_eq!(state.action(), RelayAction::Fail { error: RelayError::Delivery(failure) });
    let state = state.step(RelayEvent::Delivered(Ok(())));
    assert!(!matches!(state.action(), RelayAction::Deliver { .. }));
}

#[test]
fn first_failing_posts_only_the_first() {
    let event = RawEvent::Notifications {
        records: vec![Some("a".to_string()), Some("b".to_string())],
    };
    let (result, posted) = invoke(&valid_environment(), &event, vec![Err("no route".to_string())]);
    assert_eq!(result, Err(CustomError::new("no route".to_string())));
    assert_eq!(posted.len(), 1);
    assert_eq!(posted[0].1, payload("a"));
}

#[test]
fn all_succeeding_posts_every_message() {
    let data = raw_log_data(r#"{"logEvents":[{"message":"a"},{},{"message":"b"}]}"#);
    let event = RawEvent::Logs { data: Some(data) };
    let (result, posted) = invoke(&valid_environment(), &event, vec![Ok(()), Ok(())]);
    assert_eq!(result, Ok(()));
    let payloads: Vec<ChatPayload> = posted.into_iter().map(|(_, p)| p).collect();
    assert_eq!(payloads, vec![payload("a"), payload("b")]);
}

#[test]
fn batch_without_messages_succeeds_without_a_post() {
    let event = RawEvent::Logs { data: Some(raw_log_data(r#"{"logEvents":[]}"#)) };
    let (result, posted) = invoke(&valid_environment(), &event, Vec::new());
    assert_eq!(result, Ok(()));
    assert!(posted.is_empty());
    let (result, posted) = invoke(&valid_environment(), &RawEvent::Logs { data: None }, Vec::new());
    assert_eq!(result, Ok(()));
    assert!(posted.is_empty());
}

#[test]
fn missing_configuration_fails_without_a_post() {
    let event = RawEvent::Notifications { records: vec![Some("hello".to_string())] };
    let mut env = valid_environment();
    env.slack_webhook = None;
    let (result, posted) = invoke(&env, &event, Vec::new());
    assert_eq!(
        result,
        Err(CustomError::new("missing required variable SLACK_WEBHOOK".to_string()))
    );
    assert!(posted.is_empty());
    let mut env = valid_environment();
    env.channel_name = None;
    let (result, posted) = invoke(&env, &event, Vec::new());
    assert_eq!(
        result,
        Err(CustomError::new("missing required variable CHANNEL_NAME".to_string()))
    );
    assert!(posted.is_empty());
}

#[test]
fn missing_configuration_is_reported_before_a_bad_payload() {
    let event = RawEvent::Logs { data: Some("%%%".to_string()) };
    let mut env = valid_environment();
    env.channel_name = None;
    let (result, posted) = invoke(&env, &event, Vec::new());
    assert_eq!(
        result,
        Err(CustomError::new("missing required variable CHANNEL_NAME".to_string()))
    );
    assert!(posted.is_empty());
}

#[test]
fn undecodable_payload_fails_without_a_post() {
    let event = RawEvent::Logs { data: Some("%%%".to_string()) };
    let (result, posted) = invoke(&valid_environment(), &event, Vec::new());
    assert_eq!(result, Err(CustomError::new("log data is not valid base64".to_string())));
    assert!(posted.is_empty());
}

#[test]
fn test_send_slack_msg() {
    let event = RawEvent::Notifications {
        records: vec![Some("Successfully executed Unit Test".to_string())],
    };
    let (result, posted) = invoke(&valid_environment(), &event, vec![Ok(())]);
    assert!(result.is_ok());
    assert_eq!(posted.len(), 1);
    assert_eq!(posted[0].1.text, "Successfully executed Unit Test");
}
