use forex_notify::forex::{price_from_body, price_from_member, Error, ParseFailure};

fn micros(body: &str) -> Result<u64, ParseFailure> {
    match price_from_body(body) {
        Ok(p) => Ok(p.micros()),
        Err(Error::ParseJson { reason, text }) => {
            assert_eq!(text, body);
            Err(reason)
        }
        Err(Error::GetRealtimeApi { .. }) => panic!("no request was made"),
    }
}

#[test]
fn body_with_price() {
    assert_eq!(micros("{\"price\":\"7.12340\"}"), Ok(7_123_400));
    assert_eq!(micros("{ \"symbol\": \"USD/CNY\", \"price\": \"7.2\" }"), Ok(7_200_000));
}

#[test]
fn body_not_json() {
    assert_eq!(micros("<html>busy</html>"), Err(ParseFailure::NotJson));
    assert_eq!(micros(""), Err(ParseFailure::NotJson));
}

#[test]
fn body_price_not_string() {
    assert_eq!(micros("{\"price\": 7.1}"), Err(ParseFailure::PriceNotString));
    assert_eq!(micros("{\"code\": 429, \"message\": \"limit\"}"), Err(ParseFailure::PriceNotString));
    assert_eq!(micros("[1, 2]"), Err(ParseFailure::PriceNotString));
}

#[test]
fn body_price_not_number() {
    assert_eq!(micros("{\"price\": \"n/a\"}"), Err(ParseFailure::PriceNotNumber));
    assert_eq!(micros("{\"price\": \"0.0\"}"), Err(ParseFailure::PriceNotNumber));
}

#[test]
fn member_outcomes() {
    assert_eq!(price_from_member(None).err(), Some(ParseFailure::NotJson));
    assert_eq!(price_from_member(Some(None)).err(), Some(ParseFailure::PriceNotString));
    assert_eq!(price_from_member(Some(Some("6.5"))).ok().map(|p| p.micros()), Some(6_500_000));
    assert_eq!(price_from_member(Some(Some("6,5"))).err(), Some(ParseFailure::PriceNotNumber));
}
