use discogs_rs::Auth;
use discogs_rs::AuthLevel;
use discogs_rs::Currency;
use discogs_rs::OutputFormat;

#[test]
fn auth_levels_match_expected_capabilities() {
    assert_eq!(Auth::Anonymous.level(), AuthLevel::Anonymous);
    assert_eq!(
        Auth::Discogs {
            consumer_key: "k".into(),
            consumer_secret: "s".into(),
        }
        .level(),
        AuthLevel::Consumer
    );
    assert_eq!(
        Auth::UserToken { token: "t".into() }.level(),
        AuthLevel::User
    );
}

#[test]
fn output_accept_header_is_stable() {
    assert_eq!(
        OutputFormat::Discogs.accept_header_value(),
        "application/vnd.discogs.v2.discogs+json"
    );
    assert_eq!(
        OutputFormat::Plaintext.accept_header_value(),
        "application/vnd.discogs.v2.plaintext+json"
    );
    assert_eq!(
        OutputFormat::Html.accept_header_value(),
        "application/vnd.discogs.v2.html+json"
    );
}

#[test]
fn user_token_auth_header_format_is_stable() {
    let header = Auth::UserToken {
        token: "abc123".into(),
    }
    .authorization_header()
    .expect("header should exist");

    assert_eq!(header, "Discogs token=abc123");
}

#[test]
fn consumer_pair_auth_header_format_is_stable() {
    let header = Auth::Discogs {
        consumer_key: "my-key".into(),
        consumer_secret: "my-secret".into(),
    }
    .authorization_header()
    .expect("header should exist");

    assert_eq!(header, "Discogs key=my-key, secret=my-secret");
}

#[test]
fn anonymous_credential_sends_no_authorization_header() {
    assert!(Auth::Anonymous.authorization_header().is_none());
    assert_eq!(Auth::default().level(), AuthLevel::Anonymous);
}

#[test]
fn oauth_credential_header_is_plaintext_signed() {
    let header = Auth::OAuth {
        consumer_key: "ck".into(),
        consumer_secret: "cs".into(),
        access_token: "at".into(),
        access_token_secret: "ats".into(),
    }
    .authorization_header()
    .expect("header should exist");

    assert!(header.starts_with("OAuth oauth_consumer_key=\"ck\", oauth_token=\"at\", "));
    assert!(header.contains("oauth_signature_method=\"PLAINTEXT\""));
    assert!(header.contains("oauth_signature=\"cs&ats\""));
    assert!(header.contains("oauth_token_secret=\"ats\""));
    assert!(header.ends_with("oauth_version=\"1.0\""));

    let nonce = segment(&header, "oauth_nonce=\"");
    assert_eq!(nonce.len(), 64);
    assert!(nonce.chars().all(|c| c.is_ascii_alphanumeric()));

    let timestamp = segment(&header, "oauth_timestamp=\"");
    assert!(!timestamp.is_empty());
    assert!(timestamp.chars().all(|c| c.is_ascii_digit()));
}

#[test]
fn auth_levels_are_totally_ordered() {
    assert!(AuthLevel::Anonymous < AuthLevel::Consumer);
    assert!(AuthLevel::Consumer < AuthLevel::User);
    assert!(AuthLevel::User.satisfies(AuthLevel::Anonymous));
    assert!(AuthLevel::User.satisfies(AuthLevel::User));
    assert!(!AuthLevel::Anonymous.satisfies(AuthLevel::Consumer));
    assert!(!AuthLevel::Consumer.satisfies(AuthLevel::User));
}

#[test]
fn currency_codes_are_stable() {
    let cases = [
        (Currency::Usd, "USD"),
        (Currency::Gbp, "GBP"),
        (Currency::Eur, "EUR"),
        (Currency::Cad, "CAD"),
        (Currency::Aud, "AUD"),
        (Currency::Jpy, "JPY"),
        (Currency::Chf, "CHF"),
        (Currency::Mxn, "MXN"),
        (Currency::Brl, "BRL"),
        (Currency::Nzd, "NZD"),
        (Currency::Sek, "SEK"),
        (Currency::Zar, "ZAR"),
    ];
    for (currency, code) in cases {
        assert_eq!(currency.as_code(), code);
    }
}

fn segment(header: &str, tag: &str) -> String {
    let start = header.find(tag).expect("tag present") + tag.len();
    let rest = &header[start..];
    let end = rest.find('"').expect("closing quote");
    rest[..end].to_string()
}
