//! Notification channels: their configuration, and what each sends.
use vstd::prelude::*;
use vstd::string::*;

pub mod ntfy;
pub mod telegram;
pub mod webhook;

verus! {

#[verifier::external_type_specification]
#[verifier::external_body]
pub struct ExHeaderValue(reqwest::header::HeaderValue);

#[verifier::external_type_specification]
#[verifier::external_body]
pub struct ExInvalidHeaderValue(reqwest::header::InvalidHeaderValue);

/// Whether a header value may hold this text: no control character but tab.
pub open spec fn valid_header_text(s: Seq<char>) -> bool {
    forall|i: int|
        0 <= i < s.len() ==> {
            let c = #[trigger] s[i] as u32;
            c == 9 || (c >= 32 && c != 127)
        }
}

/// Whether a configured value is fit for a header: tab or visible ASCII only.
pub open spec fn visible_ascii_text(s: Seq<char>) -> bool {
    forall|i: int|
        0 <= i < s.len() ==> {
            let c = #[trigger] s[i] as u32;
            c == 9 || (32 <= c && c <= 126)
        }
}

/// Whether `s` holds only tab and visible ASCII characters.
pub fn is_visible_ascii(s: &str) -> (r: bool)
    ensures
        r == visible_ascii_text(s@),
{
    let n = s.unicode_len();
    let mut i: usize = 0;
    while i < n
        invariant
            n == s@.len(),
            i <= n,
            forall|j: int|
                0 <= j < i ==> {
                    let c = #[trigger] s@[j] as u32;
                    c == 9 || (32 <= c && c <= 126)
                },
        decreases n - i,
    {
        let c = s.get_char(i) as u32;
        if !(c == 9 || (32 <= c && c <= 126)) {
            assert(!visible_ascii_text(s@)) by {
                assert(s@[i as int] as u32 == c);
            }
            return false;
        }
        i = i + 1;
    }
    true
}

/// Relies on `HeaderValue::from_str` of the http crate, re-exported by reqwest: it
/// fails exactly when a byte of the UTF-8 text is below 32 (tab excepted) or is 127.
/// Bytes of non-ASCII characters are all 128 or above, so only characters below 128
/// can make it fail.
pub assume_specification[ reqwest::header::HeaderValue::from_str ](src: &str) -> (r: Result<
    reqwest::header::HeaderValue,
    reqwest::header::InvalidHeaderValue,
>)
    ensures
        r is Ok <==> valid_header_text(src@),
;

/// Why a message could not be delivered.
#[derive(Debug)]
pub enum Error {
    /// The request failed, or the channel answered with a status that is no success;
    /// `message` is the transport's own account of it.
    Network { message: String },
    /// A configured value cannot stand in a header: it holds a character that is
    /// neither tab nor visible ASCII. `source` is the header library's refusal, where
    /// it refused too.
    HeaderValue {
        source: Option<reqwest::header::InvalidHeaderValue>,
        header: String,
        value: String,
    },
}

/// A configured channel.
pub enum NotifyType {
    Telegram(telegram::Telegram),
    Ntfy(ntfy::Ntfy),
    Webhook(webhook::Webhook),
}

} // verus!
