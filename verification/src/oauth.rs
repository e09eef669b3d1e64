//! The OAuth 1.0-style token exchange: PLAINTEXT-signed header construction
//! for both handshake steps and for full-OAuth API calls, and the parsing of
//! the provider's URL-encoded responses.

use vstd::prelude::*;
use vstd::string::StringExecFns;
use vstd::string::StrSliceExecFns;
use rand::Rng;
use crate::error::DiscogsError;
use crate::strutil::spec_dec_digits;
use crate::strutil::string_push;
use crate::strutil::u64_to_dec_string;

verus! {

/// A request token returned by the first handshake step, together with the
/// URL at which the user authorizes it.
#[derive(Debug, Clone)]
pub struct RequestToken {
    pub token: String,
    pub token_secret: String,
    pub callback_confirmed: bool,
    pub authorize_url: String,
}

/// The final access credential returned by the second handshake step.
#[derive(Debug, Clone)]
pub struct AccessToken {
    pub access_token: String,
    pub access_token_secret: String,
}

/// ASCII letters and digits: the only characters allowed into a nonce.
pub open spec fn spec_is_alnum(c: char) -> bool {
    (48 <= c as u32 <= 57) || (65 <= c as u32 <= 90) || (97 <= c as u32 <= 122)
}

/// What a freshly generated nonce looks like: 64 ASCII alphanumeric
/// characters.
pub open spec fn spec_nonce_wf(n: Seq<char>) -> bool {
    n.len() == 64 && forall|i: int| 0 <= i < n.len() ==> spec_is_alnum(#[trigger] n[i])
}

/// A string with everything but ASCII letters and digits filtered out.
pub open spec fn spec_nonce_safe(s: Seq<char>) -> Seq<char>
    decreases s.len(),
{
    if s.len() == 0 {
        seq![]
    } else {
        spec_nonce_safe(s.drop_last()) + (if spec_is_alnum(s.last()) {
            seq![s.last()]
        } else {
            seq![]
        })
    }
}

/// Keeps only the ASCII alphanumeric characters of a nonce, as
/// `spec_nonce_safe` describes.
pub fn nonce_safe(nonce: &str) -> (r: String)
    ensures
        r@ == spec_nonce_safe(nonce@),
{
    let len = nonce.unicode_len();
    let mut out = String::new();
    let mut i: usize = 0;
    while i < len
        invariant
            0 <= i <= len,
            len == nonce@.len(),
            out@ == spec_nonce_safe(nonce@.subrange(0, i as int)),
        decreases len - i,
    {
        let c = nonce.get_char(i);
        let u = c as u32;
        let ghost pre = nonce@.subrange(0, i as int);
        let ghost pre1 = nonce@.subrange(0, i as int + 1);
        proof {
            assert(pre1.drop_last() =~= pre);
        }
        if (48 <= u && u <= 57) || (65 <= u && u <= 90) || (97 <= u && u <= 122) {
            string_push(&mut out, c);
            proof {
                assert(out@ =~= spec_nonce_safe(pre1));
            }
        } else {
            proof {
                assert(out@ =~= spec_nonce_safe(pre1));
            }
        }
        i = i + 1;
    }
    proof {
        assert(nonce@.subrange(0, len as int) =~= nonce@);
    }
    out
}

/// Relies on rand's `Alphanumeric` distribution: each sampled byte is an
/// ASCII letter or digit, and exactly 64 are taken.
#[verifier::external_body]
fn oauth_nonce() -> (r: String)
    ensures
        spec_nonce_wf(r@),
{
    rand::rng().sample_iter(&rand::distr::Alphanumeric).take(64).map(char::from).collect()
}

/// Relies on std's `SystemTime`: the system clock's seconds since the Unix
/// epoch, or zero when the clock reads before the epoch. Nothing is promised
/// of the value.
#[verifier::external_body]
fn oauth_timestamp_seconds() -> (r: u64) {
    match std::time::SystemTime::now().duration_since(std::time::UNIX_EPOCH) {
        Ok(d) => d.as_secs(),
        _ => 0,
    }
}

/// The www-form-urlencoded percent-encoding of a string's UTF-8 bytes, as
/// the url crate computes it.
pub uninterp spec fn spec_url_encoded(s: Seq<char>) -> Seq<char>;

/// Relies on `form_urlencoded::byte_serialize` of the url crate: the
/// percent-encoding of the string's bytes, a function of the string alone;
/// an empty string stays empty.
#[verifier::external_body]
fn url_encode(s: &str) -> (r: String)
    ensures
        r@ == spec_url_encoded(s@),
        s@.len() == 0 ==> r@.len() == 0,
{
    url::form_urlencoded::byte_serialize(s.as_bytes()).collect()
}

/// The (name, value) pairs that the www-form-urlencoded parse of a string
/// yields, in order, percent-decoded, as the url crate computes them.
pub uninterp spec fn spec_form_pairs(s: Seq<char>) -> Seq<(Seq<char>, Seq<char>)>;

/// Relies on `form_urlencoded::parse` of the url crate: splits the input on
/// `'&'` into pairs and each pair on the first `'='`, percent-decoding both
/// sides; a function of the input alone.
#[verifier::external_body]
fn form_decode(s: &str) -> (r: Vec<(String, String)>)
    ensures
        r.deep_view() == spec_form_pairs(s@),
{
    url::form_urlencoded::parse(s.as_bytes()).into_owned().collect()
}

/// The value under a key among decoded form pairs; when the key repeats,
/// the value that arrived last wins.
pub open spec fn spec_form_lookup(pairs: Seq<(Seq<char>, Seq<char>)>, key: Seq<char>) -> Option<
    Seq<char>,
>
    decreases pairs.len(),
{
    if pairs.len() == 0 {
        Option::None
    } else if pairs.last().0 == key {
        Option::Some(pairs.last().1)
    } else {
        spec_form_lookup(pairs.drop_last(), key)
    }
}

/// Finds a key among decoded form pairs, exactly as `spec_form_lookup`
/// describes.
fn form_lookup(pairs: &Vec<(String, String)>, key: &str) -> (r: Option<String>)
    ensures
        r is Some <==> spec_form_lookup(pairs.deep_view(), key@) is Some,
        r is Some ==> r->0@ == spec_form_lookup(pairs.deep_view(), key@)->0,
{
    let key_string = String::from_str(key);
    let mut i: usize = pairs.len();
    proof {
        assert(pairs.deep_view().subrange(0, i as int) =~= pairs.deep_view());
    }
    while i > 0
        invariant
            0 <= i <= pairs.len(),
            key_string@ == key@,
            spec_form_lookup(pairs.deep_view(), key@) == spec_form_lookup(
                pairs.deep_view().subrange(0, i as int),
                key@,
            ),
        decreases i,
    {
        i = i - 1;
        let ghost sub1 = pairs.deep_view().subrange(0, i as int + 1);
        let ghost sub = pairs.deep_view().subrange(0, i as int);
        proof {
            assert(sub1.drop_last() =~= sub);
            assert(sub1.last() == pairs.deep_view()[i as int]);
        }
        let entry = &pairs[i];
        if entry.0 == key_string {
            return Some(entry.1.clone());
        }
    }
    proof {
        assert(pairs.deep_view().subrange(0, 0) =~= Seq::<(Seq<char>, Seq<char>)>::empty());
    }
    Option::None
}

/// The signed Authorization header sent with every full-OAuth API call.
pub open spec fn spec_oauth_header(
    consumer_key: Seq<char>,
    consumer_secret: Seq<char>,
    access_token: Seq<char>,
    access_token_secret: Seq<char>,
    nonce: Seq<char>,
    timestamp: u64,
) -> Seq<char> {
    "OAuth oauth_consumer_key=\""@ + consumer_key + "\", oauth_token=\""@ + access_token
        + "\", oauth_signature_method=\"PLAINTEXT\", oauth_signature=\""@ + consumer_secret + "&"@
        + access_token_secret + "\", oauth_timestamp=\""@ + spec_dec_digits(timestamp as nat)
        + "\", oauth_nonce=\""@ + nonce + "\", oauth_token_secret=\""@ + access_token_secret
        + "\", oauth_version=\"1.0\""@
}

/// Writes the full-OAuth Authorization header for the given nonce and
/// timestamp, exactly as `spec_oauth_header` describes.
pub fn format_oauth_header(
    consumer_key: &str,
    consumer_secret: &str,
    access_token: &str,
    access_token_secret: &str,
    nonce: &str,
    timestamp: u64,
) -> (r: String)
    ensures
        r@ == spec_oauth_header(
            consumer_key@,
            consumer_secret@,
            access_token@,
            access_token_secret@,
            nonce@,
            timestamp,
        ),
{
    let mut out = String::from_str("OAuth oauth_consumer_key=\"");
    out.append(consumer_key);
    out.append("\", oauth_token=\"");
    out.append(access_token);
    out.append("\", oauth_signature_method=\"PLAINTEXT\", oauth_signature=\"");
    out.append(consumer_secret);
    out.append("&");
    out.append(access_token_secret);
    out.append("\", oauth_timestamp=\"");
    let ts = u64_to_dec_string(timestamp);
    out.append(ts.as_str());
    out.append("\", oauth_nonce=\"");
    out.append(nonce);
    out.append("\", oauth_token_secret=\"");
    out.append(access_token_secret);
    out.append("\", oauth_version=\"1.0\"");
    proof {
        assert(out@ =~= spec_oauth_header(
            consumer_key@,
            consumer_secret@,
            access_token@,
            access_token_secret@,
            nonce@,
            timestamp,
        ));
    }
    out
}

/// Builds the Authorization header for a full-OAuth API call with a fresh
/// nonce and the current clock; the header has the shape `spec_oauth_header`
/// gives it, for some well-formed nonce and some timestamp.
pub fn build_oauth_header(
    consumer_key: &str,
    consumer_secret: &str,
    access_token: &str,
    access_token_secret: &str,
) -> (r: String)
    ensures
        exists|nonce: Seq<char>, ts: u64|
            spec_nonce_wf(nonce) && r@ == spec_oauth_header(
                consumer_key@,
                consumer_secret@,
                access_token@,
                access_token_secret@,
                nonce,
                ts,
            ),
{
    let nonce = oauth_nonce();
    let timestamp = oauth_timestamp_seconds();
    let out = format_oauth_header(
        consumer_key,
        consumer_secret,
        access_token,
        access_token_secret,
        nonce.as_str(),
        timestamp,
    );
    proof {
        assert(spec_nonce_wf(nonce@) && out@ == spec_oauth_header(
            consumer_key@,
            consumer_secret@,
            access_token@,
            access_token_secret@,
            nonce@,
            timestamp,
        ));
    }
    out
}

/// The signed header of the first handshake step, which asks for a request
/// token: signed with the consumer secret alone (no token has been issued
/// yet) and carrying the percent-encoded callback URL.
pub open spec fn spec_request_token_header(
    consumer_key: Seq<char>,
    consumer_secret: Seq<char>,
    callback_encoded: Seq<char>,
    nonce: Seq<char>,
    timestamp: u64,
) -> Seq<char> {
    "OAuth oauth_consumer_key=\""@ + consumer_key + "\", oauth_nonce=\""@ + spec_nonce_safe(nonce)
        + "\", oauth_signature=\""@ + consumer_secret
        + "&\", oauth_signature_method=\"PLAINTEXT\", oauth_timestamp=\""@ + spec_dec_digits(
        timestamp as nat,
    ) + "\", oauth_callback=\""@ + callback_encoded + "\""@
}

/// Writes the request-token header for the given nonce and timestamp,
/// exactly as `spec_request_token_header` describes; the nonce is filtered
/// to ASCII alphanumeric characters before use.
pub fn format_request_token_header(
    consumer_key: &str,
    consumer_secret: &str,
    callback_encoded: &str,
    nonce: &str,
    timestamp: u64,
) -> (r: String)
    ensures
        r@ == spec_request_token_header(
            consumer_key@,
            consumer_secret@,
            callback_encoded@,
            nonce@,
            timestamp,
        ),
{
    let mut out = String::from_str("OAuth oauth_consumer_key=\"");
    out.append(consumer_key);
    out.append("\", oauth_nonce=\"");
    let safe = nonce_safe(nonce);
    out.append(safe.as_str());
    out.append("\", oauth_signature=\"");
    out.append(consumer_secret);
    out.append("&\", oauth_signature_method=\"PLAINTEXT\", oauth_timestamp=\"");
    let ts = u64_to_dec_string(timestamp);
    out.append(ts.as_str());
    out.append("\", oauth_callback=\"");
    out.append(callback_encoded);
    out.append("\"");
    proof {
        assert(out@ =~= spec_request_token_header(
            consumer_key@,
            consumer_secret@,
            callback_encoded@,
            nonce@,
            timestamp,
        ));
    }
    out
}

/// Builds the request-token header with a fresh nonce, the current clock,
/// and the percent-encoded callback URL.
pub fn request_token_header(consumer_key: &str, consumer_secret: &str, callback_url: &str) -> (r:
    String)
    ensures
        exists|nonce: Seq<char>, ts: u64|
            spec_nonce_wf(nonce) && r@ == spec_request_token_header(
                consumer_key@,
                consumer_secret@,
                spec_url_encoded(callback_url@),
                nonce,
                ts,
            ),
{
    let nonce = oauth_nonce();
    let timestamp = oauth_timestamp_seconds();
    let callback_encoded = url_encode(callback_url);
    let out = format_request_token_header(
        consumer_key,
        consumer_secret,
        callback_encoded.as_str(),
        nonce.as_str(),
        timestamp,
    );
    proof {
        assert(spec_nonce_wf(nonce@) && out@ == spec_request_token_header(
            consumer_key@,
            consumer_secret@,
            spec_url_encoded(callback_url@),
            nonce@,
            timestamp,
        ));
    }
    out
}

/// The signed header of the second handshake step, which trades the request
/// token and the user's verifier for an access token: signed with the
/// consumer secret and the request token's secret.
pub open spec fn spec_access_token_header(
    consumer_key: Seq<char>,
    consumer_secret: Seq<char>,
    request_token: Seq<char>,
    request_token_secret: Seq<char>,
    verifier: Seq<char>,
    nonce: Seq<char>,
    timestamp: u64,
) -> Seq<char> {
    "OAuth oauth_consumer_key=\""@ + consumer_key + "\", oauth_nonce=\""@ + spec_nonce_safe(nonce)
        + "\", oauth_token=\""@ + request_token + "\", oauth_signature=\""@ + consumer_secret
        + "&"@ + request_token_secret
        + "\", oauth_signature_method=\"PLAINTEXT\", oauth_timestamp=\""@ + spec_dec_digits(
        timestamp as nat,
    ) + "\", oauth_verifier=\""@ + verifier + "\""@
}

/// Writes the access-token header for the given nonce and timestamp,
/// exactly as `spec_access_token_header` describes.
pub fn format_access_token_header(
    consumer_key: &str,
    consumer_secret: &str,
    request_token: &str,
    request_token_secret: &str,
    verifier: &str,
    nonce: &str,
    timestamp: u64,
) -> (r: String)
    ensures
        r@ == spec_access_token_header(
            consumer_key@,
            consumer_secret@,
            request_token@,
            request_token_secret@,
            verifier@,
            nonce@,
            timestamp,
        ),
{
    let mut out = String::from_str("OAuth oauth_consumer_key=\"");
    out.append(consumer_key);
    out.append("\", oauth_nonce=\"");
    let safe = nonce_safe(nonce);
    out.append(safe.as_str());
    out.append("\", oauth_token=\"");
    out.append(request_token);
    out.append("\", oauth_signature=\"");
    out.append(consumer_secret);
    out.append("&");
    out.append(request_token_secret);
    out.append("\", oauth_signature_method=\"PLAINTEXT\", oauth_timestamp=\"");
    let ts = u64_to_dec_string(timestamp);
    out.append(ts.as_str());
    out.append("\", oauth_verifier=\"");
    out.append(verifier);
    out.append("\"");
    proof {
        assert(out@ =~= spec_access_token_header(
            consumer_key@,
            consumer_secret@,
            request_token@,
            request_token_secret@,
            verifier@,
            nonce@,
            timestamp,
        ));
    }
    out
}

/// Builds the access-token header with a fresh nonce and the current clock.
pub fn access_token_header(
    consumer_key: &str,
    consumer_secret: &str,
    request_token: &str,
    request_token_secret: &str,
    verifier: &str,
) -> (r: String)
    ensures
        exists|nonce: Seq<char>, ts: u64|
            spec_nonce_wf(nonce) && r@ == spec_access_token_header(
                consumer_key@,
                consumer_secret@,
                request_token@,
                request_token_secret@,
                verifier@,
                nonce,
                ts,
            ),
{
    let nonce = oauth_nonce();
    let timestamp = oauth_timestamp_seconds();
    let out = format_access_token_header(
        consumer_key,
        consumer_secret,
        request_token,
        request_token_secret,
        verifier,
        nonce.as_str(),
        timestamp,
    );
    proof {
        assert(spec_nonce_wf(nonce@) && out@ == spec_access_token_header(
            consumer_key@,
            consumer_secret@,
            request_token@,
            request_token_secret@,
            verifier@,
            nonce@,
            timestamp,
        ));
    }
    out
}

/// Decides what becomes of one handshake response before its body is
/// interpreted: a success status hands the body text on to the parsing
/// step; any other status is an `Http` error carrying the status and the
/// body text verbatim, or a fixed fallback where the body could not be
/// read; an unreadable body of a success response is the transport's
/// failure. `body` carries the response text, or the transport's account of
/// why it could not be read. No retries here: throttling handling belongs
/// to the main dispatcher alone.
pub fn handshake_response_outcome(status: u16, body: Result<String, String>) -> (r: Result<
    String,
    DiscogsError,
>)
    ensures
        (200 <= status < 300 && body is Ok) ==> r is Ok && r->Ok_0@ == body->Ok_0@,
        (200 <= status < 300 && body is Err) ==> r is Err && (r->Err_0 matches
            DiscogsError::Request(m) && m@ == body->Err_0@),
        !(200 <= status < 300) ==> r is Err && (r->Err_0 matches (DiscogsError::Http {
            status: st,
            message: m,
        }) && st == status && (body is Ok ==> m@ == body->Ok_0@) && (body is Err ==> m@
            == "unknown error"@)),
{
    if 200 <= status && status < 300 {
        match body {
            Ok(text) => Ok(text),
            Err(transport) => Err(DiscogsError::Request(transport)),
        }
    } else {
        let message = match body {
            Ok(text) => text,
            Err(_) => String::from_str("unknown error"),
        };
        Err(DiscogsError::Http { status, message })
    }
}

/// The authorize endpoint that a fresh request token is appended to.
pub open spec fn spec_authorize_url_prefix() -> Seq<char> {
    "https://discogs.com/oauth/authorize?oauth_token="@
}

/// Interprets the body of a request-token response: URL-encoded pairs that
/// must carry `oauth_token` and `oauth_token_secret`. A missing token field
/// is an `InvalidOAuthResponse` carrying the raw body; the
/// callback-confirmed flag is true exactly when the provider sent
/// `oauth_callback_confirmed=true`; the authorize URL is the authorize
/// endpoint with the fresh token appended.
pub fn parse_request_token_response(text: &str) -> (r: Result<RequestToken, DiscogsError>)
    ensures
        ({
            let pairs = spec_form_pairs(text@);
            let tok = spec_form_lookup(pairs, "oauth_token"@);
            let sec = spec_form_lookup(pairs, "oauth_token_secret"@);
            &&& r is Ok <==> (tok is Some && sec is Some)
            &&& r is Ok ==> {
                &&& r->Ok_0.token@ == tok->0
                &&& r->Ok_0.token_secret@ == sec->0
                &&& r->Ok_0.callback_confirmed <==> spec_form_lookup(
                    pairs,
                    "oauth_callback_confirmed"@,
                ) == Option::Some("true"@)
                &&& r->Ok_0.authorize_url@ == spec_authorize_url_prefix() + tok->0
            }
            &&& r is Err ==> (r->Err_0 matches DiscogsError::InvalidOAuthResponse(raw) && raw@
                == text@)
        }),
{
    let pairs = form_decode(text);
    let token = match form_lookup(&pairs, "oauth_token") {
        Some(t) => t,
        _ => {
            return Err(DiscogsError::InvalidOAuthResponse(text.to_owned()));
        },
    };
    let token_secret = match form_lookup(&pairs, "oauth_token_secret") {
        Some(t) => t,
        _ => {
            return Err(DiscogsError::InvalidOAuthResponse(text.to_owned()));
        },
    };
    let confirmed_flag = String::from_str("true");
    let callback_confirmed = match form_lookup(&pairs, "oauth_callback_confirmed") {
        Some(v) => v == confirmed_flag,
        _ => false,
    };
    let mut authorize_url = String::from_str("https://discogs.com/oauth/authorize?oauth_token=");
    authorize_url.append(token.as_str());
    Ok(RequestToken { token, token_secret, callback_confirmed, authorize_url })
}

/// Interprets the body of an access-token response: URL-encoded pairs that
/// must carry `oauth_token` and `oauth_token_secret`, which become the final
/// access credential. A missing field is an `InvalidOAuthResponse` carrying
/// the raw body.
pub fn parse_access_token_response(text: &str) -> (r: Result<AccessToken, DiscogsError>)
    ensures
        ({
            let pairs = spec_form_pairs(text@);
            let tok = spec_form_lookup(pairs, "oauth_token"@);
            let sec = spec_form_lookup(pairs, "oauth_token_secret"@);
            &&& r is Ok <==> (tok is Some && sec is Some)
            &&& r is Ok ==> r->Ok_0.access_token@ == tok->0 && r->Ok_0.access_token_secret@
                == sec->0
            &&& r is Err ==> (r->Err_0 matches DiscogsError::InvalidOAuthResponse(raw) && raw@
                == text@)
        }),
{
    let pairs = form_decode(text);
    let access_token = match form_lookup(&pairs, "oauth_token") {
        Some(t) => t,
        _ => {
            return Err(DiscogsError::InvalidOAuthResponse(text.to_owned()));
        },
    };
    let access_token_secret = match form_lookup(&pairs, "oauth_token_secret") {
        Some(t) => t,
        _ => {
            return Err(DiscogsError::InvalidOAuthResponse(text.to_owned()));
        },
    };
    Ok(AccessToken { access_token, access_token_secret })
}

} // verus!
