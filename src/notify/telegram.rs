//! The Telegram bot channel.
use vstd::prelude::*;
use vstd::string::*;

verus! {

/// Sends through a Telegram bot to one chat.
pub struct Telegram {
    token: String,
    chat_id: String,
}

/// The Bot API address before the token.
pub open spec fn api_prefix() -> Seq<char> {
    seq!['h', 't', 't', 'p', 's', ':', '/', '/', 'a', 'p', 'i', '.', 't', 'e', 'l', 'e', 'g', 'r', 'a', 'm',
        '.', 'o', 'r', 'g', '/', 'b', 'o', 't']
}

/// The Bot API method after the token.
pub open spec fn send_suffix() -> Seq<char> {
    seq!['/', 's', 'e', 'n', 'd', 'M', 'e', 's', 's', 'a', 'g', 'e']
}

impl Telegram {
    pub closed spec fn spec_token(&self) -> Seq<char> {
        self.token@
    }

    pub closed spec fn spec_chat_id(&self) -> Seq<char> {
        self.chat_id@
    }

    pub fn new(token: &str, chat_id: &str) -> (r: Self)
        ensures
            r.spec_token() == token@,
            r.spec_chat_id() == chat_id@,
    {
        Telegram { token: String::from_str(token), chat_id: String::from_str(chat_id) }
    }

    pub fn token(&self) -> (r: &str)
        ensures
            r@ == self.spec_token(),
    {
        self.token.as_str()
    }

    pub fn chat_id(&self) -> (r: &str)
        ensures
            r@ == self.spec_chat_id(),
    {
        self.chat_id.as_str()
    }

    /// The address that a message is posted to: the bot's `sendMessage` method.
    pub fn send_url(&self) -> (r: String)
        ensures
            r@ == api_prefix() + self.spec_token() + send_suffix(),
    {
        let mut url = String::from_str("https://api.telegram.org/bot");
        url.append(self.token.as_str());
        url.append("/sendMessage");
        proof {
            reveal_strlit("https://api.telegram.org/bot");
            reveal_strlit("/sendMessage");
            assert("https://api.telegram.org/bot"@ =~= api_prefix());
            assert("/sendMessage"@ =~= send_suffix());
        }
        url
    }
}

} // verus!
