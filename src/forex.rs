//! Reading a quote from the price service's response body.
use vstd::prelude::*;
use crate::rate::{parse_micros, Price};

verus! {

/// What the JSON reader finds in a response body: none where the body is not JSON;
/// otherwise the text of its `price` member where that member is a string.
pub uninterp spec fn json_price_text(body: Seq<char>) -> Option<Option<Seq<char>>>;

/// Relies on `serde_json::from_str` to parse the body as one JSON value, then on
/// `Value::get` and `Value::as_str` to read its `price` member where it is a string.
#[verifier::external_body]
fn json_price(body: &str) -> (r: Option<Option<String>>)
    ensures
        match json_price_text(body@) {
            None => r is None,
            Some(None) => r == Some(None::<String>),
            Some(Some(t)) => r matches Some(Some(s)) && s@ == t,
        },
{
    match serde_json::from_str::<serde_json::Value>(body) {
        Ok(v) => Some(v.get("price").and_then(serde_json::Value::as_str).map(String::from)),
        Err(_) => None,
    }
}

/// Why a response body gave no price.
#[derive(Clone, Copy, Debug, PartialEq, Eq, Structural)]
pub enum ParseFailure {
    /// The body is not JSON.
    NotJson,
    /// The body has no `price` member that is a string.
    PriceNotString,
    /// The `price` text is no positive decimal amount that a price can hold.
    PriceNotNumber,
}

/// Why a quote could not be had.
#[derive(Debug)]
pub enum Error {
    /// The request failed; `message` is the transport's own account of it.
    GetRealtimeApi { message: String },
    /// The response could not be read; `text` is the body as it came.
    ParseJson { reason: ParseFailure, text: String },
}

/// The price in a `price` text, or why there is none.
pub open spec fn text_outcome(t: Seq<char>) -> Result<nat, ParseFailure> {
    match parse_micros(t) {
        Some(m) => if 0 < m <= u64::MAX {
            Ok(m)
        } else {
            Err(ParseFailure::PriceNotNumber)
        },
        None => Err(ParseFailure::PriceNotNumber),
    }
}

/// The price that a response body gives, or why it gives none.
pub open spec fn body_outcome(body: Seq<char>) -> Result<nat, ParseFailure> {
    match json_price_text(body) {
        None => Err(ParseFailure::NotJson),
        Some(None) => Err(ParseFailure::PriceNotString),
        Some(Some(t)) => text_outcome(t),
    }
}

/// The price that the `price` member read from a body gives: `member` is none for
/// a body that is not JSON, and holds none where the member is missing or no string.
pub fn price_from_member(member: Option<Option<&str>>) -> (r: Result<Price, ParseFailure>)
    ensures
        member is None ==> r == Err::<Price, ParseFailure>(ParseFailure::NotJson),
        member == Some(None::<&str>) ==> r == Err::<Price, ParseFailure>(
            ParseFailure::PriceNotString,
        ),
        member matches Some(Some(t)) ==> match r {
            Ok(p) => text_outcome(t@) == Ok::<nat, ParseFailure>(p@),
            Err(e) => text_outcome(t@) == Err::<nat, ParseFailure>(e),
        },
{
    match member {
        None => Err(ParseFailure::NotJson),
        Some(None) => Err(ParseFailure::PriceNotString),
        Some(Some(t)) => match Price::parse(t) {
            Some(p) => Ok(p),
            None => Err(ParseFailure::PriceNotNumber),
        },
    }
}

/// The price in a response body of the price service: its `price` member, a string
/// holding a positive decimal amount.
pub fn price_from_body(body: &str) -> (r: Result<Price, Error>)
    ensures
        match r {
            Ok(p) => body_outcome(body@) == Ok::<nat, ParseFailure>(p@),
            Err(Error::ParseJson { reason, text }) => body_outcome(body@) == Err::<
                nat,
                ParseFailure,
            >(reason) && text@ == body@,
            Err(Error::GetRealtimeApi { .. }) => false,
        },
{
    let member = json_price(body);
    let found = match &member {
        None => None,
        Some(None) => Some(None),
        Some(Some(s)) => Some(Some(s.as_str())),
    };
    match price_from_member(found) {
        Ok(p) => Ok(p),
        Err(reason) => Err(Error::ParseJson { reason, text: String::from_str(body) }),
    }
}

} // verus!
