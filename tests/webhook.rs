use std::collections::HashMap;

use forex_notify::notify::webhook::{Method, Webhook};
use forex_notify::rate::Rate;

#[test]
fn test_generate_message() {
    let webhook = Webhook::new(
        "http://example.com",
        HashMap::new(),
        Some("CNH/CNY is below the warning threshold: {rate}".to_string()),
        Method::Post,
    );

    let message = webhook.generate_message(true, Rate::from_micros(6_500_000));
    assert_eq!(message, "CNH/CNY is below the warning threshold: 6.5");
}

#[test]
fn test_generate_message_default() {
    let webhook = Webhook::new("http://example.com", HashMap::new(), None, Method::Post);

    let message = webhook.generate_message(true, Rate::from_micros(6_500_000));
    assert_eq!(message, "");
}

#[test]
fn test_into_reqwest_method() {
    let method = reqwest::Method::from_bytes(Method::Get.as_str().as_bytes()).unwrap();
    assert_eq!(method, reqwest::Method::GET);

    let method = reqwest::Method::from_bytes(Method::Post.as_str().as_bytes()).unwrap();
    assert_eq!(method, reqwest::Method::POST);

    let method = reqwest::Method::from_bytes(Method::Put.as_str().as_bytes()).unwrap();
    assert_eq!(method, reqwest::Method::PUT);
}

#[test]
fn render_rate_placeholder() {
    let webhook = Webhook::new("http://example.com", HashMap::new(), Some("rate={rate}".to_string()), Method::Get);
    assert_eq!(webhook.generate_message(true, Rate::from_micros(6_500_000)), "rate=6.5");
}

#[test]
fn render_both_placeholders() {
    let webhook = Webhook::new(
        "http://example.com",
        HashMap::new(),
        Some("{\"under_threshold\": {under_threshold}, \"rate\": {rate}}".to_string()),
        Method::Put,
    );
    assert_eq!(
        webhook.generate_message(false, Rate::from_micros(998_700)),
        "{\"under_threshold\": false, \"rate\": 0.9987}"
    );
    assert_eq!(
        webhook.generate_message(true, Rate::from_micros(7_000_000)),
        "{\"under_threshold\": true, \"rate\": 7}"
    );
}

#[test]
fn render_repeated_placeholder() {
    let webhook = Webhook::new("u", HashMap::new(), Some("{rate}/{rate}{rate".to_string()), Method::Post);
    assert_eq!(webhook.generate_message(true, Rate::from_micros(65_000)), "0.065/0.065{rate");
}

#[test]
fn method_verbs() {
    assert_eq!(Method::Get.as_str(), "GET");
    assert_eq!(Method::Post.as_str(), "POST");
    assert_eq!(Method::Put.as_str(), "PUT");
}

#[test]
fn webhook_accessors() {
    let headers = HashMap::from([("content-type".to_string(), "application/json".to_string())]);
    let webhook = Webhook::new("http://example.com/hook", headers.clone(), None, Method::Put);
    assert_eq!(webhook.url(), "http://example.com/hook");
    assert_eq!(webhook.headers(), &headers);
    assert_eq!(webhook.template(), &None);
    assert_eq!(webhook.method(), Method::Put);
}
