//! Authentication: the capability contract a scheme satisfies, the no-op
//! scheme, and HTTP Basic authentication, whose header value is stated
//! exactly over the base64 encoding of the credentials.

use vstd::prelude::*;

use base64::Engine;

verus! {

/// What the base64 crate's standard engine yields for a string's bytes.
/// The result depends on the input alone.
pub uninterp spec fn base64_standard(s: Seq<char>) -> Seq<char>;

/// Relies on the `STANDARD` engine of the base64 crate: encodes the bytes
/// of the string in base64 with padding; on ASCII input, every three bytes
/// (rounded up) become four characters of the base64 alphabet.
#[verifier::external_body]
fn b64_encode(s: &str) -> (r: String)
    ensures
        r@ == base64_standard(s@),
        s.is_ascii() ==> r@.len() == 4 * ((s@.len() + 2) / 3),
{
    base64::engine::general_purpose::STANDARD.encode(s.as_bytes())
}

/// The capability any authentication scheme offers: an optional username
/// and password, and an optional header to attach to outgoing requests. A
/// scheme returns `None` from `as_header` to signal that no header should
/// be attached.
pub trait Authentication {
    fn username(&self) -> Option<String>;

    fn password(&self) -> Option<String>;

    fn as_header(&self) -> Option<(String, String)>;
}

/// No authentication: no username, no password, no header.
#[derive(Debug)]
pub struct NoAuth;

impl Authentication for NoAuth {
    fn username(&self) -> (r: Option<String>)
        ensures
            r is None,
    {
        None
    }

    fn password(&self) -> (r: Option<String>)
        ensures
            r is None,
    {
        None
    }

    fn as_header(&self) -> (r: Option<(String, String)>)
        ensures
            r is None,
    {
        None
    }
}

/// HTTP Basic authentication: a username and an optional password.
#[derive(Debug)]
pub struct BasicAuth {
    username: String,
    password: Option<String>,
}

impl BasicAuth {
    /// The username.
    pub closed spec fn username_spec(&self) -> Seq<char> {
        self.username@
    }

    /// The password, if one was given.
    pub closed spec fn password_spec(&self) -> Option<Seq<char>> {
        match self.password {
            Some(p) => Some(p@),
            None => None,
        }
    }

    /// The credential string that Basic authentication encodes:
    /// `username:password`, with an absent password read as empty.
    pub open spec fn credentials_spec(&self) -> Seq<char> {
        self.username_spec() + ":"@ + match self.password_spec() {
            Some(p) => p,
            None => Seq::<char>::empty(),
        }
    }

    /// A Basic authentication scheme for the given username and optional
    /// password.
    pub fn new(username: String, password: Option<String>) -> (r: BasicAuth)
        ensures
            r.username_spec() == username@,
            r.password_spec() == match password {
                Some(p) => Some(p@),
                None => None::<Seq<char>>,
            },
    {
        BasicAuth { username, password }
    }
}

impl Authentication for BasicAuth {
    fn username(&self) -> (r: Option<String>)
        ensures
            r matches Some(u) && u@ == self.username_spec(),
    {
        Some(self.username.clone())
    }

    fn password(&self) -> (r: Option<String>)
        ensures
            match r {
                Some(p) => self.password_spec() == Some(p@),
                None => self.password_spec() is None,
            },
    {
        match &self.password {
            Some(p) => Some(p.clone()),
            None => None,
        }
    }

    /// The Basic authentication header: always attached, named
    /// `Authorization`, valued `Basic ` followed by the base64 encoding of
    /// `username:password` (an absent password reads as empty).
    fn as_header(&self) -> (r: Option<(String, String)>)
        ensures
            r matches Some(h) && h.0@ == "Authorization"@ && h.1@ == "Basic "@ + base64_standard(
                self.credentials_spec(),
            ),
    {
        let mut creds = self.username.clone();
        creds.append(":");
        match &self.password {
            Some(p) => {
                creds.append(p.as_str());
            },
            None => {},
        }
        proof {
            assert(creds@ =~= self.credentials_spec());
        }
        let encoded = b64_encode(creds.as_str());
        let mut value = "Basic ".to_owned();
        value.append(encoded.as_str());
        Some(("Authorization".to_owned(), value))
    }
}

/// The authentication handle a client holds: one of the schemes this crate
/// offers, chosen at construction time.
#[derive(Debug)]
pub enum AuthHandle {
    Anonymous(NoAuth),
    Basic(BasicAuth),
}

impl AuthHandle {
    /// The header the held scheme attaches, if any.
    pub open spec fn header_spec(&self) -> Option<(Seq<char>, Seq<char>)> {
        match self {
            AuthHandle::Anonymous(_) => None,
            AuthHandle::Basic(b) => Some(
                ("Authorization"@, "Basic "@ + base64_standard(b.credentials_spec())),
            ),
        }
    }

    /// The header to attach to outgoing requests, by the held scheme.
    pub fn as_header(&self) -> (r: Option<(String, String)>)
        ensures
            match r {
                Some(h) => self.header_spec() == Some((h.0@, h.1@)),
                None => self.header_spec() is None,
            },
    {
        match self {
            AuthHandle::Anonymous(a) => a.as_header(),
            AuthHandle::Basic(b) => b.as_header(),
        }
    }
}

} // verus!
