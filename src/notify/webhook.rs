//! The user-defined webhook channel, with its message template.
use std::collections::HashMap;
use vstd::prelude::*;
use vstd::string::*;
use crate::rate::{rate_text, Rate};
use crate::text::{bool_text, push_bool, replace, replace_all};

verus! {

/// The HTTP method of a webhook call.
#[derive(Clone, Copy, Debug, PartialEq, Eq, Structural)]
pub enum Method {
    Get,
    Post,
    Put,
}

/// The HTTP verb of each method.
pub open spec fn method_name(m: Method) -> Seq<char> {
    match m {
        Method::Get => seq!['G', 'E', 'T'],
        Method::Post => seq!['P', 'O', 'S', 'T'],
        Method::Put => seq!['P', 'U', 'T'],
    }
}

impl Method {
    /// The HTTP verb, as a request line writes it.
    pub fn as_str(&self) -> (r: &'static str)
        ensures
            r@ == method_name(*self),
    {
        match self {
            Method::Get => {
                proof {
                    reveal_strlit("GET");
                }
                "GET"
            },
            Method::Post => {
                proof {
                    reveal_strlit("POST");
                }
                "POST"
            },
            Method::Put => {
                proof {
                    reveal_strlit("PUT");
                }
                "PUT"
            },
        }
    }
}

/// Two methods have one verb only if they are the same method.
pub proof fn lemma_method_names_distinct(a: Method, b: Method)
    ensures
        method_name(a) == method_name(b) <==> a == b,
{
    if a != b {
        assert(method_name(a).len() != method_name(b).len() || method_name(a)[1] != method_name(
            b,
        )[1]);
    }
}

/// The placeholder for the crossing state.
pub open spec fn under_placeholder() -> Seq<char> {
    seq!['{', 'u', 'n', 'd', 'e', 'r', '_', 't', 'h', 'r', 'e', 's', 'h', 'o', 'l', 'd', '}']
}

/// The placeholder for the rate.
pub open spec fn rate_placeholder() -> Seq<char> {
    seq!['{', 'r', 'a', 't', 'e', '}']
}

/// The text of an optional template; none reads as empty.
pub open spec fn template_text(t: Option<String>) -> Seq<char> {
    match t {
        Some(s) => s@,
        None => Seq::empty(),
    }
}

/// A template with its placeholders filled: first the crossing state as `true` or
/// `false`, then the rate as its shortest decimal text.
pub open spec fn render(template: Seq<char>, under_threshold: bool, rate_micros: nat) -> Seq<char> {
    replace_all(
        replace_all(template, under_placeholder(), bool_text(under_threshold)),
        rate_placeholder(),
        rate_text(rate_micros),
    )
}

/// Calls an address of the user's choice.
pub struct Webhook {
    url: String,
    headers: HashMap<String, String>,
    template: Option<String>,
    method: Method,
}

impl Webhook {
    pub closed spec fn spec_url(&self) -> Seq<char> {
        self.url@
    }

    pub closed spec fn spec_template(&self) -> Option<String> {
        self.template
    }

    pub closed spec fn spec_method(&self) -> Method {
        self.method
    }

    pub closed spec fn spec_headers(&self) -> HashMap<String, String> {
        self.headers
    }

    pub fn new(
        url: &str,
        headers: HashMap<String, String>,
        template: Option<String>,
        method: Method,
    ) -> (r: Self)
        ensures
            r.spec_url() == url@,
            r.spec_headers() == headers,
            r.spec_template() == template,
            r.spec_method() == method,
    {
        Webhook { url: String::from_str(url), headers, template, method }
    }

    pub fn url(&self) -> (r: &str)
        ensures
            r@ == self.spec_url(),
    {
        self.url.as_str()
    }

    /// The extra headers, sent as they stand.
    pub fn headers(&self) -> (r: &HashMap<String, String>)
        ensures
            *r == self.spec_headers(),
    {
        &self.headers
    }

    pub fn template(&self) -> (r: &Option<String>)
        ensures
            *r == self.spec_template(),
    {
        &self.template
    }

    pub fn method(&self) -> (r: Method)
        ensures
            r == self.spec_method(),
    {
        self.method
    }

    /// The message body: the template with its placeholders filled, or the empty text
    /// where no template is configured.
    pub fn generate_message(&self, under_threshold: bool, rate: Rate) -> (r: String)
        ensures
            r@ == render(template_text(self.spec_template()), under_threshold, rate.micros as nat),
    {
        let base: &str = match &self.template {
            Some(t) => t.as_str(),
            None => {
                proof {
                    reveal_strlit("");
                }
                ""
            },
        };
        assert(base@ =~= template_text(self.template));
        let mut state = String::new();
        push_bool(&mut state, under_threshold);
        let rate_str = rate.to_text();
        proof {
            reveal_strlit("{under_threshold}");
            reveal_strlit("{rate}");
            assert("{under_threshold}"@ =~= under_placeholder());
            assert("{rate}"@ =~= rate_placeholder());
            assert(state@ =~= bool_text(under_threshold));
        }
        let first = replace(base, "{under_threshold}", state.as_str());
        replace(first.as_str(), "{rate}", rate_str.as_str())
    }
}

} // verus!
