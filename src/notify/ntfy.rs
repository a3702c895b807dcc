//! The ntfy-style push channel and its once-built headers.
use vstd::prelude::*;
use vstd::string::*;
use crate::notify::{is_visible_ascii, valid_header_text, visible_ascii_text, Error};
use crate::text::{digits_of, push_digits};

verus! {

/// One header line: a name and its value.
pub struct Header {
    pub name: String,
    pub value: String,
}

/// The name and value of a header, as text.
pub open spec fn header_view(h: Header) -> (Seq<char>, Seq<char>) {
    (h.name@, h.value@)
}

pub open spec fn headers_view(hs: Seq<Header>) -> Seq<(Seq<char>, Seq<char>)> {
    hs.map_values(|h: Header| header_view(h))
}

pub open spec fn authorization_name() -> Seq<char> {
    seq!['A', 'u', 't', 'h', 'o', 'r', 'i', 'z', 'a', 't', 'i', 'o', 'n']
}

pub open spec fn bearer_prefix() -> Seq<char> {
    seq!['B', 'e', 'a', 'r', 'e', 'r', ' ']
}

pub open spec fn title_name() -> Seq<char> {
    seq!['X', '-', 'T', 'i', 't', 'l', 'e']
}

pub open spec fn priority_name() -> Seq<char> {
    seq!['X', '-', 'P', 'r', 'i', 'o', 'r', 'i', 't', 'y']
}

/// The headers of a configuration, in order: authorization with the bearer token,
/// title, priority; each only where it is configured.
pub open spec fn expected_headers(
    token: Option<Seq<char>>,
    title: Option<Seq<char>>,
    priority: Option<u8>,
) -> Seq<(Seq<char>, Seq<char>)> {
    (match token {
        Some(t) => seq![(authorization_name(), bearer_prefix() + t)],
        None => Seq::empty(),
    }) + (match title {
        Some(t) => seq![(title_name(), t)],
        None => Seq::empty(),
    }) + (match priority {
        Some(p) => seq![(priority_name(), digits_of(p as nat))],
        None => Seq::empty(),
    })
}

/// The first configured header whose value holds a character other than tab and
/// visible ASCII, with the configured text
/// that it came from (the token, not the whole bearer value).
pub open spec fn first_invalid(
    token: Option<Seq<char>>,
    title: Option<Seq<char>>,
    priority: Option<u8>,
) -> Option<(Seq<char>, Seq<char>)> {
    if token is Some && !visible_ascii_text(bearer_prefix() + token->0) {
        Some((authorization_name(), token->0))
    } else if title is Some && !visible_ascii_text(title->0) {
        Some((title_name(), title->0))
    } else if priority is Some && !visible_ascii_text(digits_of(priority->0 as nat)) {
        Some((priority_name(), digits_of(priority->0 as nat)))
    } else {
        None
    }
}

pub open spec fn opt_view(s: Option<String>) -> Option<Seq<char>> {
    match s {
        Some(t) => Some(t@),
        None => None,
    }
}

/// Posts the raw message to a push service address.
pub struct Ntfy {
    url: String,
    token: Option<String>,
    title: Option<String>,
    priority: Option<u8>,
    cache: HeaderCache,
}

/// The built headers, and how many times they were built.
struct HeaderCache {
    headers: Option<Vec<Header>>,
    builds: Ghost<nat>,
}

/// A copy of a header list.
fn copy_headers(hs: &Vec<Header>) -> (r: Vec<Header>)
    ensures
        headers_view(r@) == headers_view(hs@),
{
    let mut r: Vec<Header> = Vec::new();
    let mut i: usize = 0;
    while i < hs.len()
        invariant
            i <= hs@.len(),
            headers_view(r@) == headers_view(hs@.take(i as int)),
        decreases hs@.len() - i,
    {
        let h = &hs[i];
        let ghost before = r@;
        r.push(Header { name: h.name.clone(), value: h.value.clone() });
        proof {
            assert(hs@.take(i + 1) =~= hs@.take(i as int).push(hs@[i as int]));
            assert(headers_view(r@) =~= headers_view(before).push(header_view(hs@[i as int])));
            assert(headers_view(hs@.take(i + 1)) =~= headers_view(hs@.take(i as int)).push(
                header_view(hs@[i as int]),
            ));
        }
        i = i + 1;
    }
    assert(hs@.take(hs@.len() as int) =~= hs@);
    r
}

/// Checks that `value` may stand in the header `header`; the error reports `reported`,
/// the configured text that the value came from.
fn check_value(header: &str, value: &str, reported: &String) -> (r: Result<(), Error>)
    ensures
        r is Ok <==> visible_ascii_text(value@),
        r matches Err(e) ==> e matches Error::HeaderValue { header: h, value: v, .. } && h@
            == header@ && v@ == reported@,
{
    if !is_visible_ascii(value) {
        return Err(
            Error::HeaderValue {
                source: None,
                header: String::from_str(header),
                value: reported.clone(),
            },
        );
    }
    match reqwest::header::HeaderValue::from_str(value) {
        Ok(_) => Ok(()),
        Err(e) => {
            assert(valid_header_text(value@)) by {
                assert forall|i: int| 0 <= i < value@.len() implies {
                    let c = #[trigger] value@[i] as u32;
                    c == 9 || (c >= 32 && c != 127)
                } by {
                    let c = value@[i] as u32;
                    assert(c == 9 || (32 <= c && c <= 126));
                }
            }
            Err(
                Error::HeaderValue {
                    source: Some(e),
                    header: String::from_str(header),
                    value: reported.clone(),
                },
            )
        },
    }
}

impl Ntfy {
    pub closed spec fn spec_url(&self) -> Seq<char> {
        self.url@
    }

    pub closed spec fn spec_token(&self) -> Option<Seq<char>> {
        opt_view(self.token)
    }

    pub closed spec fn spec_title(&self) -> Option<Seq<char>> {
        opt_view(self.title)
    }

    pub closed spec fn spec_priority(&self) -> Option<u8> {
        self.priority
    }

    /// Whether the headers have been built; once built they are kept.
    pub closed spec fn headers_built(&self) -> bool {
        self.cache.headers is Some
    }

    /// How many times the headers have been built successfully.
    pub closed spec fn spec_builds(&self) -> nat {
        self.cache.builds@
    }

    /// The headers that this configuration sends.
    pub open spec fn spec_headers(&self) -> Seq<(Seq<char>, Seq<char>)> {
        expected_headers(self.spec_token(), self.spec_title(), self.spec_priority())
    }

    /// The header that cannot be built, if any.
    pub open spec fn spec_invalid(&self) -> Option<(Seq<char>, Seq<char>)> {
        first_invalid(self.spec_token(), self.spec_title(), self.spec_priority())
    }

    #[verifier::type_invariant]
    spec fn cache_holds_config(&self) -> bool {
        &&& self.cache.headers matches Some(hs) ==> headers_view(hs@) == self.spec_headers()
            && self.spec_invalid() is None
        &&& self.cache.builds@ == (if self.cache.headers is Some { 1nat } else { 0nat })
    }

    pub fn new(url: &str, token: Option<&str>, title: Option<&str>, priority: Option<u8>) -> (r:
        Self)
        ensures
            r.spec_url() == url@,
            r.spec_token() == (match token {
                Some(t) => Some(t@),
                None => None::<Seq<char>>,
            }),
            r.spec_title() == (match title {
                Some(t) => Some(t@),
                None => None::<Seq<char>>,
            }),
            r.spec_priority() == priority,
            !r.headers_built(),
            r.spec_builds() == 0,
    {
        let token = match token {
            Some(t) => Some(String::from_str(t)),
            None => None,
        };
        let title = match title {
            Some(t) => Some(String::from_str(t)),
            None => None,
        };
        Ntfy {
            url: String::from_str(url),
            token,
            title,
            priority,
            cache: HeaderCache { headers: None, builds: Ghost(0) },
        }
    }

    /// Builds the headers of this configuration; fails on the first value that a
    /// header cannot hold.
    fn build_headers(&self) -> (r: Result<Vec<Header>, Error>)
        ensures
            r is Ok <==> self.spec_invalid() is None,
            r matches Ok(hs) ==> headers_view(hs@) == self.spec_headers(),
            r matches Err(e) ==> e matches Error::HeaderValue { header, value, .. } && (header@, value@)
                == self.spec_invalid()->0,
    {
        proof {
            reveal_strlit("Bearer ");
            reveal_strlit("Authorization");
            reveal_strlit("X-Title");
            reveal_strlit("X-Priority");
            assert("Bearer "@ =~= bearer_prefix());
            assert("Authorization"@ =~= authorization_name());
            assert("X-Title"@ =~= title_name());
            assert("X-Priority"@ =~= priority_name());
        }
        let ghost tok = self.spec_token();
        let ghost tit = self.spec_title();
        let ghost pri = self.spec_priority();
        let mut hs: Vec<Header> = Vec::new();
        if let Some(token) = &self.token {
            let mut value = String::from_str("Bearer ");
            value.append(token.as_str());
            match check_value("Authorization", value.as_str(), token) {
                Ok(()) => {
                    hs.push(Header { name: String::from_str("Authorization"), value });
                },
                Err(e) => {
                    return Err(e);
                },
            }
        }
        assert(headers_view(hs@) =~= expected_headers(tok, None, None));
        if let Some(title) = &self.title {
            match check_value("X-Title", title.as_str(), title) {
                Ok(()) => {
                    let ghost before = hs@;
                    hs.push(Header { name: String::from_str("X-Title"), value: title.clone() });
                    assert(headers_view(hs@) =~= headers_view(before).push(
                        (title_name(), title@),
                    ));
                },
                Err(e) => {
                    return Err(e);
                },
            }
        }
        assert(headers_view(hs@) =~= expected_headers(tok, tit, None));
        if let Some(priority) = self.priority {
            let mut text = String::new();
            push_digits(&mut text, priority as u128);
            assert(text@ =~= digits_of(priority as nat));
            match check_value("X-Priority", text.as_str(), &text) {
                Ok(()) => {
                    let ghost before = hs@;
                    hs.push(Header { name: String::from_str("X-Priority"), value: text });
                    assert(headers_view(hs@) =~= headers_view(before).push(
                        (priority_name(), digits_of(priority as nat)),
                    ));
                },
                Err(e) => {
                    return Err(e);
                },
            }
        }
        assert(headers_view(hs@) =~= expected_headers(tok, tit, pri));
        Ok(hs)
    }

    /// The headers to send: built on the first successful use and kept, so that
    /// later calls return them without building them again.
    pub fn get_headers(&mut self) -> (r: Result<Vec<Header>, Error>)
        ensures
            final(self).spec_url() == old(self).spec_url(),
            final(self).spec_token() == old(self).spec_token(),
            final(self).spec_title() == old(self).spec_title(),
            final(self).spec_priority() == old(self).spec_priority(),
            r is Ok <==> old(self).spec_invalid() is None,
            r matches Ok(hs) ==> headers_view(hs@) == old(self).spec_headers(),
            r matches Err(e) ==> e matches Error::HeaderValue { header, value, .. } && (header@, value@)
                == old(self).spec_invalid()->0,
            final(self).headers_built() == (old(self).headers_built() || r is Ok),
            old(self).headers_built() ==> *final(self) == *old(self),
            final(self).spec_builds() == old(self).spec_builds() + (if !old(self).headers_built()
                && r is Ok {
                1nat
            } else {
                0nat
            }),
            final(self).spec_builds() <= 1,
    {
        proof {
            use_type_invariant(&*self);
        }
        let r = match &self.cache.headers {
            Some(hs) => Ok(copy_headers(hs)),
            None => match self.build_headers() {
                Ok(hs) => {
                    let copy = copy_headers(&hs);
                    self.cache = HeaderCache { headers: Some(hs), builds: Ghost(1) };
                    Ok(copy)
                },
                Err(e) => Err(e),
            },
        };
        proof {
            use_type_invariant(&*self);
        }
        r
    }

    pub fn url(&self) -> (r: &str)
        ensures
            r@ == self.spec_url(),
    {
        self.url.as_str()
    }

    pub fn token(&self) -> (r: Option<&str>)
        ensures
            r is Some == self.spec_token() is Some,
            r matches Some(t) ==> t@ == self.spec_token()->0,
    {
        match &self.token {
            Some(t) => Some(t.as_str()),
            None => None,
        }
    }

    pub fn title(&self) -> (r: Option<&str>)
        ensures
            r is Some == self.spec_title() is Some,
            r matches Some(t) ==> t@ == self.spec_title()->0,
    {
        match &self.title {
            Some(t) => Some(t.as_str()),
            None => None,
        }
    }

    pub fn priority(&self) -> (r: Option<u8>)
        ensures
            r == self.spec_priority(),
    {
        self.priority
    }
}

} // verus!
