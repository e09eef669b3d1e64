//! Credential model: which authentication scheme a client holds and which
//! authorization level it grants.

use vstd::prelude::*;
use vstd::string::StringExecFns;
use crate::oauth::build_oauth_header;
use crate::oauth::spec_nonce_wf;
use crate::oauth::spec_oauth_header;

verus! {

/// Capability tier granted by a credential and demanded by an operation.
/// The tiers are totally ordered: `Anonymous < Consumer < User`.
#[derive(Debug, Clone, Copy, PartialEq, Eq, PartialOrd, Ord, Structural)]
pub enum AuthLevel {
    Anonymous,
    Consumer,
    User,
}

impl AuthLevel {
    /// Position of the level in the `Anonymous < Consumer < User` order.
    pub open spec fn rank(self) -> int {
        match self {
            AuthLevel::Anonymous => 0,
            AuthLevel::Consumer => 1,
            AuthLevel::User => 2,
        }
    }

    /// True when a credential of level `self` is allowed to perform an
    /// operation that demands level `required`.
    pub fn satisfies(self, required: AuthLevel) -> (r: bool)
        ensures
            r == (self.rank() >= required.rank()),
    {
        let own: u8 = match self {
            AuthLevel::Anonymous => 0,
            AuthLevel::Consumer => 1,
            AuthLevel::User => 2,
        };
        let need: u8 = match required {
            AuthLevel::Anonymous => 0,
            AuthLevel::Consumer => 1,
            AuthLevel::User => 2,
        };
        own >= need
    }
}

/// The authentication scheme a client was built with.
#[derive(Debug, Clone)]
pub enum Auth {
    Anonymous,
    UserToken { token: String },
    Discogs { consumer_key: String, consumer_secret: String },
    OAuth {
        consumer_key: String,
        consumer_secret: String,
        access_token: String,
        access_token_secret: String,
    },
}

impl Auth {
    /// The authorization level this credential grants.
    pub open spec fn spec_level(&self) -> AuthLevel {
        match self {
            Auth::Anonymous => AuthLevel::Anonymous,
            Auth::Discogs { .. } => AuthLevel::Consumer,
            Auth::UserToken { .. } => AuthLevel::User,
            Auth::OAuth { .. } => AuthLevel::User,
        }
    }

    pub fn level(&self) -> (l: AuthLevel)
        ensures
            l == self.spec_level(),
    {
        match self {
            Auth::Anonymous => AuthLevel::Anonymous,
            Auth::Discogs { .. } => AuthLevel::Consumer,
            Auth::UserToken { .. } => AuthLevel::User,
            Auth::OAuth { .. } => AuthLevel::User,
        }
    }
}

/// The Authorization header value a user-token credential sends.
pub open spec fn spec_user_token_header(token: Seq<char>) -> Seq<char> {
    "Discogs token="@ + token
}

/// The Authorization header value a consumer-pair credential sends.
pub open spec fn spec_consumer_header(consumer_key: Seq<char>, consumer_secret: Seq<char>) -> Seq<
    char,
> {
    "Discogs key="@ + consumer_key + ", secret="@ + consumer_secret
}

/// Relates a credential to the Authorization header value it produces:
/// nothing for the anonymous credential, the exact literal formats for the
/// token and consumer-pair credentials, and a PLAINTEXT-signed OAuth header
/// (for some fresh nonce and timestamp) for the full OAuth credential.
pub open spec fn spec_auth_header_matches(a: Auth, h: Option<Seq<char>>) -> bool {
    match a {
        Auth::Anonymous => h is None,
        Auth::UserToken { token } => h == Option::Some(spec_user_token_header(token@)),
        Auth::Discogs { consumer_key, consumer_secret } => h == Option::Some(
            spec_consumer_header(consumer_key@, consumer_secret@),
        ),
        Auth::OAuth { consumer_key, consumer_secret, access_token, access_token_secret } => {
            &&& h is Some
            &&& exists|nonce: Seq<char>, ts: u64|
                spec_nonce_wf(nonce) && h->0 == spec_oauth_header(
                    consumer_key@,
                    consumer_secret@,
                    access_token@,
                    access_token_secret@,
                    nonce,
                    ts,
                )
        },
    }
}

/// The character view of an optional header value.
pub open spec fn spec_opt_str_view(h: Option<String>) -> Option<Seq<char>> {
    match h {
        Option::Some(s) => Option::Some(s@),
        Option::None => Option::None,
    }
}

impl Auth {
    /// The literal Authorization header value this credential sends, or
    /// nothing for the anonymous credential. The exact formats are a wire
    /// contract with the service's parser.
    pub fn authorization_header(&self) -> (h: Option<String>)
        ensures
            h is Some <==> !(self is Anonymous),
            spec_auth_header_matches(*self, spec_opt_str_view(h)),
    {
        match self {
            Auth::Anonymous => Option::None,
            Auth::UserToken { token } => {
                let out = String::from_str("Discogs token=").concat(token.as_str());
                proof {
                    assert(out@ =~= spec_user_token_header(token@));
                }
                Some(out)
            },
            Auth::Discogs { consumer_key, consumer_secret } => {
                let mut out = String::from_str("Discogs key=");
                out.append(consumer_key.as_str());
                out.append(", secret=");
                out.append(consumer_secret.as_str());
                proof {
                    assert(out@ =~= spec_consumer_header(consumer_key@, consumer_secret@));
                }
                Some(out)
            },
            Auth::OAuth { consumer_key, consumer_secret, access_token, access_token_secret } => {
                let out = build_oauth_header(
                    consumer_key.as_str(),
                    consumer_secret.as_str(),
                    access_token.as_str(),
                    access_token_secret.as_str(),
                );
                Some(out)
            },
        }
    }
}

impl Default for Auth {
    fn default() -> (r: Self)
        ensures
            r is Anonymous,
    {
        Auth::Anonymous
    }
}

/// Response shape requested from the service through the `Accept` header.
#[derive(Debug, Clone, Copy, PartialEq, Eq, Structural)]
pub enum OutputFormat {
    Discogs,
    Plaintext,
    Html,
}

impl Default for OutputFormat {
    fn default() -> (r: Self)
        ensures
            r is Discogs,
    {
        OutputFormat::Discogs
    }
}

/// The `Accept` header value that selects this response shape.
pub open spec fn spec_accept_header_value(f: OutputFormat) -> Seq<char> {
    match f {
        OutputFormat::Discogs => "application/vnd.discogs.v2.discogs+json"@,
        OutputFormat::Plaintext => "application/vnd.discogs.v2.plaintext+json"@,
        OutputFormat::Html => "application/vnd.discogs.v2.html+json"@,
    }
}

impl OutputFormat {
    pub fn accept_header_value(self) -> (r: &'static str)
        ensures
            r@ == spec_accept_header_value(self),
    {
        match self {
            OutputFormat::Discogs => "application/vnd.discogs.v2.discogs+json",
            OutputFormat::Plaintext => "application/vnd.discogs.v2.plaintext+json",
            OutputFormat::Html => "application/vnd.discogs.v2.html+json",
        }
    }
}

} // verus!
