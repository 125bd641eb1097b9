use cordyceps_api::chat::{
    Message, Model, Payload, PayloadBuilder, Role, Scalar, ValidationError,
};
use std::collections::HashMap;

fn number(scalar: Scalar) -> f64 {
    f64::from_bits(scalar.to_bits())
}

fn scalar(number: f64) -> Scalar {
    Scalar::from_bits(number.to_bits())
}

#[test]
fn scalar_constants_are_the_numbers_they_name() {
    assert_eq!(number(Scalar::one()), 1.0);
    assert_eq!(number(Scalar::zero()), 0.0);
    assert_eq!(Scalar::one().bits, 0x3FF0_0000_0000_0000);
    assert_eq!(Scalar::zero().bits, 0);
    assert_eq!(number(scalar(0.7)), 0.7);
    assert_eq!(scalar(-2.0).to_bits(), (-2.0f64).to_bits());
}

#[test]
fn message_new_keeps_role_and_content() {
    let message = Message::new(Role::Assistant, "Hello there");
    assert_eq!(message.role, Role::Assistant);
    assert_eq!(message.content, "Hello there");
    assert_eq!(Message::new(Role::System, "").content, "");
}

#[test]
fn builder_default_payload() {
    let payload = Payload::builder().user_message("x").build().unwrap();
    assert_eq!(payload.model, Model::Gpt35Turbo);
    assert_eq!(number(payload.temperature), 1.0);
    assert_eq!(number(payload.top_p), 1.0);
    assert_eq!(payload.n, 1);
    assert!(payload.stream);
    assert_eq!(payload.stop, None);
    assert_eq!(payload.max_tokens, 1024);
    assert_eq!(number(payload.presence_penalty), 0.0);
    assert_eq!(number(payload.frequency_penalty), 0.0);
    assert!(payload.logit_bias.is_empty());
    assert_eq!(payload.user, "Rust Openai Developer");
    assert_eq!(
        payload.messages,
        vec![Message { role: Role::User, content: "x".to_string() }]
    );
}

#[test]
fn default_builder_is_the_fresh_builder() {
    let payload = PayloadBuilder::default().system_message("s").build().unwrap();
    assert_eq!(payload.model, Model::Gpt35Turbo);
    assert_eq!(payload.n, 1);
    assert_eq!(payload.max_tokens, 1024);
    assert_eq!(payload.messages.len(), 1);
}

#[test]
fn build_without_messages_fails() {
    assert_eq!(Payload::builder().build().unwrap_err(), ValidationError::MissingField);
    let configured = Payload::builder()
        .model(Model::Gpt35Turbo0301)
        .temperature(scalar(0.2))
        .n(3)
        .stop("\n")
        .user("someone");
    assert_eq!(configured.build().unwrap_err(), ValidationError::MissingField);
    assert_eq!(
        Payload::builder().messages(Vec::new()).build().unwrap_err(),
        ValidationError::MissingField
    );
    assert_eq!(ValidationError::MissingField.message(), "messages are not set");
}

#[test]
fn one_message_of_any_role_is_enough() {
    assert!(Payload::builder().system_message("a").build().is_ok());
    assert!(Payload::builder().user_message("a").build().is_ok());
    assert!(Payload::builder().assistant_message("a").build().is_ok());
    assert!(Payload::builder().message(Message::new(Role::User, "")).build().is_ok());
    assert!(Payload::builder()
        .messages(vec![Message::new(Role::Assistant, "a")])
        .build()
        .is_ok());
}

#[test]
fn message_order_is_preserved() {
    let payload = Payload::builder()
        .system_message("a")
        .user_message("b")
        .assistant_message("c")
        .build()
        .unwrap();
    assert_eq!(
        payload.messages,
        vec![
            Message { role: Role::System, content: "a".to_string() },
            Message { role: Role::User, content: "b".to_string() },
            Message { role: Role::Assistant, content: "c".to_string() },
        ]
    );
}

#[test]
fn messages_are_appended_after_those_staged() {
    let payload = Payload::builder()
        .user_message("first")
        .messages(vec![
            Message::new(Role::Assistant, "second"),
            Message::new(Role::User, "third"),
        ])
        .message(Message::new(Role::System, "fourth"))
        .messages(vec![Message::new(Role::User, "fifth")])
        .build()
        .unwrap();
    let contents: Vec<&str> = payload.messages.iter().map(|m| m.content.as_str()).collect();
    assert_eq!(contents, vec!["first", "second", "third", "fourth", "fifth"]);
    let roles: Vec<Role> = payload.messages.iter().map(|m| m.role).collect();
    assert_eq!(
        roles,
        vec![Role::User, Role::Assistant, Role::User, Role::System, Role::User]
    );
}

#[test]
fn every_staged_field_is_handed_on() {
    let mut bias = HashMap::new();
    bias.insert("50256".to_string(), scalar(-100.0));
    bias.insert("1234".to_string(), scalar(2.5));
    let payload = Payload::builder()
        .model(Model::Gpt35Turbo0301)
        .temperature(scalar(0.25))
        .top_p(scalar(0.5))
        .n(4)
        .stream(false)
        .stop("END")
        .max_tokens(64)
        .presence_penalty(scalar(-1.5))
        .frequency_penalty(scalar(1.75))
        .logit_bias(bias)
        .user("tester")
        .user_message("hi")
        .build()
        .unwrap();
    assert_eq!(payload.model, Model::Gpt35Turbo0301);
    assert_eq!(number(payload.temperature), 0.25);
    assert_eq!(number(payload.top_p), 0.5);
    assert_eq!(payload.n, 4);
    assert!(!payload.stream);
    assert_eq!(payload.stop, Some("END".to_string()));
    assert_eq!(payload.max_tokens, 64);
    assert_eq!(number(payload.presence_penalty), -1.5);
    assert_eq!(number(payload.frequency_penalty), 1.75);
    assert_eq!(payload.logit_bias.len(), 2);
    assert_eq!(number(payload.logit_bias["50256"]), -100.0);
    assert_eq!(number(payload.logit_bias["1234"]), 2.5);
    assert_eq!(payload.user, "tester");
    assert_eq!(payload.messages.len(), 1);
}

#[test]
fn a_setter_changes_its_own_field_only() {
    let payload = Payload::builder().user_message("x").n(7).build().unwrap();
    assert_eq!(payload.n, 7);
    assert_eq!(payload.max_tokens, 1024);
    assert_eq!(payload.model, Model::Gpt35Turbo);
    assert_eq!(number(payload.temperature), 1.0);
    assert!(payload.stream);
    assert_eq!(payload.stop, None);
    assert_eq!(payload.user, "Rust Openai Developer");
    assert_eq!(payload.messages.len(), 1);
}

#[test]
fn values_the_service_would_refuse_are_staged_as_given() {
    let payload = Payload::builder()
        .n(-1)
        .max_tokens(-5)
        .temperature(scalar(-40.0))
        .top_p(scalar(f64::INFINITY))
        .user_message("x")
        .build()
        .unwrap();
    assert_eq!(payload.n, -1);
    assert_eq!(payload.max_tokens, -5);
    assert_eq!(number(payload.temperature), -40.0);
    assert_eq!(number(payload.top_p), f64::INFINITY);
}

#[test]
fn the_last_setting_wins() {
    let mut first = HashMap::new();
    first.insert("1".to_string(), scalar(1.0));
    let payload = Payload::builder()
        .stop("a")
        .stop("b")
        .user("u1")
        .user("u2")
        .logit_bias(first)
        .logit_bias(HashMap::new())
        .user_message("x")
        .build()
        .unwrap();
    assert_eq!(payload.stop, Some("b".to_string()));
    assert_eq!(payload.user, "u2");
    assert!(payload.logit_bias.is_empty());
}
