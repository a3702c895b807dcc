use std::collections::HashMap;

use forex_notify::monitor::{Monitor, Tick};
use forex_notify::notify::ntfy::Ntfy;
use forex_notify::notify::telegram::Telegram;
use forex_notify::notify::webhook::{Method, Webhook};
use forex_notify::notify::NotifyType;
use forex_notify::rate::{Price, Rate};

fn price(micros: u64) -> Price {
    Price::from_micros(micros).unwrap()
}

fn tick(leg1: u64, leg2: u64) -> Tick {
    Tick::Prices { leg1: price(leg1), leg2: price(leg2) }
}

#[test]
fn zero_is_no_price() {
    assert!(Price::from_micros(0).is_none());
    assert_eq!(price(7_123_400).micros(), 7_123_400);
}

#[test]
fn alerts_once_per_excursion() {
    // threshold 0.998; leg1 fixed at 1.0, so the cross-rate is leg2
    let mut monitor = Monitor::new(price(998_000));
    let legs = [999_000u64, 997_000, 996_000, 997_999, 998_000, 999_500, 990_000, 998_000];
    let mut seen = Vec::new();
    for leg2 in legs {
        seen.push(monitor.on_tick(&tick(1_000_000, leg2)).map(|a| a.under_threshold));
    }
    assert_eq!(seen, vec![None, Some(true), None, None, Some(false), None, Some(true), Some(false)]);
    assert!(!monitor.under_threshold());
}

#[test]
fn failed_tick_changes_nothing() {
    let mut monitor = Monitor::new(price(998_000));
    assert!(monitor.on_tick(&tick(1_000_000, 990_000)).is_some());
    assert!(monitor.under_threshold());
    assert!(monitor.on_tick(&Tick::Failed).is_none());
    assert!(monitor.under_threshold());
    assert!(monitor.on_tick(&tick(1_000_000, 980_000)).is_none());
    let mut fresh = Monitor::new(price(998_000));
    assert!(fresh.on_tick(&Tick::Failed).is_none());
    assert!(!fresh.under_threshold());
}

#[test]
fn cross_rate_is_leg2_over_leg1() {
    // 7.2 / 7.25 = 0.99310..., below 0.998
    let mut monitor = Monitor::new(price(998_000));
    let alert = monitor.on_tick(&tick(7_250_000, 7_200_000)).unwrap();
    assert!(alert.under_threshold);
    assert_eq!(alert.rate, Rate::from_micros(993_103));
    assert_eq!(alert.scaled, 99_310);
    assert_eq!(alert.message(), "CNH/CNY低于预设值，为:99.310");
}

#[test]
fn fixed_message_scales_by_hundred() {
    let mut monitor = Monitor::new(price(998_000));
    let alert = monitor.on_tick(&tick(1_000_000, 65_000)).unwrap();
    assert_eq!(alert.message(), "CNH/CNY低于预设值，为:6.500");
    let back = monitor.on_tick(&tick(1_000_000, 1_000_000)).unwrap();
    assert!(!back.under_threshold);
    assert_eq!(back.message(), "CNH/CNY高于预设值，为:100.000");
}

#[test]
fn one_message_per_notifier() {
    let notifiers = vec![
        NotifyType::Telegram(Telegram::new("token", "chat_id")),
        NotifyType::Webhook(Webhook::new(
            "http://unreachable.invalid",
            HashMap::new(),
            Some("{under_threshold}:{rate}".to_string()),
            Method::Post,
        )),
        NotifyType::Ntfy(Ntfy::new("url", None, None, None)),
    ];
    let mut monitor = Monitor::new(price(998_000));
    let alert = monitor.on_tick(&tick(1_000_000, 65_000)).unwrap();
    let messages = alert.messages(&notifiers);
    assert_eq!(
        messages,
        vec![
            "CNH/CNY低于预设值，为:6.500".to_string(),
            "true:0.065".to_string(),
            "CNH/CNY低于预设值，为:6.500".to_string(),
        ]
    );
}

#[test]
fn rate_text_forms() {
    assert_eq!(Rate::from_micros(7_000_000).to_text(), "7");
    assert_eq!(Rate::from_micros(0).to_text(), "0");
    assert_eq!(Rate::from_micros(65_000).to_text(), "0.065");
    assert_eq!(Rate::from_micros(1_234_567).to_text(), "1.234567");
    assert_eq!(Rate::from_micros(10_000_001).to_text(), "10.000001");
}

#[test]
fn largest_prices_do_not_overflow() {
    let mut monitor = Monitor::new(price(u64::MAX));
    let alert = monitor.on_tick(&tick(u64::MAX, 1)).unwrap();
    assert!(alert.under_threshold);
    assert_eq!(alert.rate, Rate::from_micros(0));
    assert_eq!(alert.message(), "CNH/CNY低于预设值，为:0.000");
    let mut top = Monitor::new(price(u64::MAX));
    top.on_tick(&tick(u64::MAX, 1));
    let back = top.on_tick(&tick(1, u64::MAX)).unwrap();
    assert!(!back.under_threshold);
    assert_eq!(back.rate, Rate::from_micros(18_446_744_073_709_551_615_000_000));
}

#[test]
fn parse_price_texts() {
    assert_eq!(Price::parse("7.12340").map(|p| p.micros()), Some(7_123_400));
    assert_eq!(Price::parse("7").map(|p| p.micros()), Some(7_000_000));
    assert_eq!(Price::parse("0.998").map(|p| p.micros()), Some(998_000));
    assert_eq!(Price::parse("1.23456789").map(|p| p.micros()), Some(1_234_567));
    assert_eq!(Price::parse("0.0000001").map(|p| p.micros()), None);
    assert_eq!(Price::parse("0").map(|p| p.micros()), None);
    assert_eq!(Price::parse("").map(|p| p.micros()), None);
    assert_eq!(Price::parse(".5").map(|p| p.micros()), Some(500_000));
    assert_eq!(Price::parse("5.").map(|p| p.micros()), Some(5_000_000));
    assert_eq!(Price::parse("1.2.3").map(|p| p.micros()), None);
    assert_eq!(Price::parse("-1.5").map(|p| p.micros()), None);
    assert_eq!(Price::parse("1e3").map(|p| p.micros()), Some(1_000_000_000));
    assert_eq!(Price::parse("+7.1").map(|p| p.micros()), Some(7_100_000));
    assert_eq!(Price::parse("7.1E-2").map(|p| p.micros()), Some(71_000));
    assert_eq!(Price::parse("65e-3").map(|p| p.micros()), Some(65_000));
    assert_eq!(Price::parse("0.5e+1").map(|p| p.micros()), Some(5_000_000));
    assert_eq!(Price::parse("1e-7").map(|p| p.micros()), None);
    assert_eq!(Price::parse("1e30").map(|p| p.micros()), None);
    assert_eq!(Price::parse("0e999999").map(|p| p.micros()), None);
    assert_eq!(Price::parse("1e").map(|p| p.micros()), None);
    assert_eq!(Price::parse("1e+").map(|p| p.micros()), None);
    assert_eq!(Price::parse(".").map(|p| p.micros()), None);
    assert_eq!(Price::parse("+").map(|p| p.micros()), None);
    assert_eq!(Price::parse("inf").map(|p| p.micros()), None);
    assert_eq!(Price::parse("NaN").map(|p| p.micros()), None);
    assert_eq!(Price::parse(" 7.1").map(|p| p.micros()), None);
    assert_eq!(Price::parse("18446744073709.551615").map(|p| p.micros()), Some(u64::MAX));
    assert_eq!(Price::parse("18446744073709.551616").map(|p| p.micros()), None);
    assert_eq!(Price::parse("99999999999999999999999999").map(|p| p.micros()), None);
}
