use discogs_rs::DiscogsError;
use discogs_rs::access_token_header;
use discogs_rs::build_oauth_header;
use discogs_rs::format_access_token_header;
use discogs_rs::format_oauth_header;
use discogs_rs::format_request_token_header;
use discogs_rs::handshake_response_outcome;
use discogs_rs::nonce_safe;
use discogs_rs::parse_access_token_response;
use discogs_rs::parse_request_token_response;
use discogs_rs::request_token_header;

#[test]
fn request_token_round_trip() {
    let token = parse_request_token_response(
        "oauth_token=T&oauth_token_secret=S&oauth_callback_confirmed=true",
    )
    .expect("handshake response parses");

    assert_eq!(token.token, "T");
    assert_eq!(token.token_secret, "S");
    assert!(token.callback_confirmed);
    assert_eq!(
        token.authorize_url,
        "https://discogs.com/oauth/authorize?oauth_token=T"
    );
    assert!(token.authorize_url.contains("T"));
}

#[test]
fn request_token_response_without_confirmation_flag() {
    let token = parse_request_token_response("oauth_token=T&oauth_token_secret=S")
        .expect("handshake response parses");
    assert!(!token.callback_confirmed);

    let unconfirmed = parse_request_token_response(
        "oauth_token=T&oauth_token_secret=S&oauth_callback_confirmed=false",
    )
    .expect("handshake response parses");
    assert!(!unconfirmed.callback_confirmed);
}

#[test]
fn request_token_response_missing_fields_is_invalid() {
    let body = "oauth_token_secret=S";
    let error = parse_request_token_response(body).expect_err("token field missing");
    match error {
        DiscogsError::InvalidOAuthResponse(raw) => assert_eq!(raw, body),
        other => panic!("expected InvalidOAuthResponse, got {other:?}"),
    }

    let body = "oauth_token=T";
    let error = parse_request_token_response(body).expect_err("secret field missing");
    match error {
        DiscogsError::InvalidOAuthResponse(raw) => assert_eq!(raw, body),
        other => panic!("expected InvalidOAuthResponse, got {other:?}"),
    }
}

#[test]
fn form_values_are_percent_decoded_and_last_duplicate_wins() {
    let token = parse_request_token_response(
        "oauth_token=a%20b&oauth_token=c%2Bd&oauth_token_secret=s+t",
    )
    .expect("handshake response parses");
    // The percent-decoded last occurrence of a repeated key wins, and '+'
    // decodes to a space.
    assert_eq!(token.token, "c+d");
    assert_eq!(token.token_secret, "s t");
}

#[test]
fn access_token_round_trip() {
    let token = parse_access_token_response("oauth_token=AT&oauth_token_secret=AS")
        .expect("handshake response parses");
    assert_eq!(token.access_token, "AT");
    assert_eq!(token.access_token_secret, "AS");

    let body = "unrelated=1";
    let error = parse_access_token_response(body).expect_err("fields missing");
    match error {
        DiscogsError::InvalidOAuthResponse(raw) => assert_eq!(raw, body),
        other => panic!("expected InvalidOAuthResponse, got {other:?}"),
    }
}

#[test]
fn full_oauth_header_layout_is_exact() {
    let header = format_oauth_header("ck", "cs", "at", "ats", "N0NCE", 1234567890);
    assert_eq!(
        header,
        "OAuth oauth_consumer_key=\"ck\", oauth_token=\"at\", \
         oauth_signature_method=\"PLAINTEXT\", oauth_signature=\"cs&ats\", \
         oauth_timestamp=\"1234567890\", oauth_nonce=\"N0NCE\", \
         oauth_token_secret=\"ats\", oauth_version=\"1.0\""
    );
}

#[test]
fn request_token_header_layout_is_exact() {
    let header = format_request_token_header("ck", "cs", "http%3A%2F%2Fcb", "n!o#n_ce", 7);
    assert_eq!(
        header,
        "OAuth oauth_consumer_key=\"ck\", oauth_nonce=\"nonce\", \
         oauth_signature=\"cs&\", oauth_signature_method=\"PLAINTEXT\", \
         oauth_timestamp=\"7\", oauth_callback=\"http%3A%2F%2Fcb\""
    );
}

#[test]
fn access_token_header_layout_is_exact() {
    let header = format_access_token_header("ck", "cs", "rt", "rts", "ver1", "abc", 42);
    assert_eq!(
        header,
        "OAuth oauth_consumer_key=\"ck\", oauth_nonce=\"abc\", \
         oauth_token=\"rt\", oauth_signature=\"cs&rts\", \
         oauth_signature_method=\"PLAINTEXT\", oauth_timestamp=\"42\", \
         oauth_verifier=\"ver1\""
    );
}

#[test]
fn callback_url_is_percent_encoded_into_the_header() {
    let header = request_token_header("ck", "cs", "http://cb/?x=1 2");
    assert!(header.contains("oauth_callback=\"http%3A%2F%2Fcb%2F%3Fx%3D1+2\""));
    assert!(header.contains("oauth_signature=\"cs&\""));

    let nonce = header_segment(&header, "oauth_nonce=\"");
    assert_eq!(nonce.len(), 64);
    assert!(nonce.chars().all(|c| c.is_ascii_alphanumeric()));
}

#[test]
fn fresh_headers_use_distinct_nonces() {
    let first = build_oauth_header("ck", "cs", "at", "ats");
    let second = build_oauth_header("ck", "cs", "at", "ats");
    let n1 = header_segment(&first, "oauth_nonce=\"");
    let n2 = header_segment(&second, "oauth_nonce=\"");
    assert_eq!(n1.len(), 64);
    assert_eq!(n2.len(), 64);
    // 64 characters of fresh randomness never collide in practice.
    assert_ne!(n1, n2);

    let header = access_token_header("ck", "cs", "rt", "rts", "v");
    let n3 = header_segment(&header, "oauth_nonce=\"");
    assert_eq!(n3.len(), 64);
    assert!(n3.chars().all(|c| c.is_ascii_alphanumeric()));
}

#[test]
fn nonce_filter_keeps_only_ascii_alphanumerics() {
    assert_eq!(nonce_safe("ab!@cd"), "abcd");
    assert_eq!(nonce_safe(""), "");
    assert_eq!(nonce_safe("A1b2"), "A1b2");
    assert_eq!(nonce_safe("\u{e9}\u{4e16}x"), "x");
}

fn header_segment(header: &str, tag: &str) -> String {
    let start = header.find(tag).expect("tag present") + tag.len();
    let rest = &header[start..];
    let end = rest.find('"').expect("closing quote");
    rest[..end].to_string()
}

#[test]
fn handshake_outcome_hands_success_bodies_through() {
    let body = handshake_response_outcome(200, Ok("oauth_token=T".to_string()))
        .expect("success body passes through");
    assert_eq!(body, "oauth_token=T");

    let error = handshake_response_outcome(401, Ok("denied".to_string()))
        .expect_err("non-success status fails");
    match error {
        DiscogsError::Http { status, message } => {
            assert_eq!(status, 401);
            assert_eq!(message, "denied");
        }
        other => panic!("expected Http error, got {other:?}"),
    }

    let unreadable = handshake_response_outcome(500, Err("connection reset".to_string()))
        .expect_err("non-success status fails");
    match unreadable {
        DiscogsError::Http { status, message } => {
            assert_eq!(status, 500);
            assert_eq!(message, "unknown error");
        }
        other => panic!("expected Http error, got {other:?}"),
    }

    let transport = handshake_response_outcome(204, Err("connection reset".to_string()))
        .expect_err("unreadable success body is a transport failure");
    match transport {
        DiscogsError::Request(m) => assert_eq!(m, "connection reset"),
        other => panic!("expected Request error, got {other:?}"),
    }
}
