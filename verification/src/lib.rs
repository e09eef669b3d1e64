//! Typed client core for the Discogs web API: credential model,
//! authorization-level admission, request dispatch decisions with
//! retry/backoff on throttling, rate-limit telemetry extraction, and the
//! OAuth 1.0-style token exchange protocol.

mod auth;
mod client;
mod error;
mod models;
mod oauth;
mod strutil;
pub use auth::Auth;
pub use auth::AuthLevel;
pub use auth::OutputFormat;
pub use auth::spec_accept_header_value;
pub use auth::spec_auth_header_matches;
pub use auth::spec_consumer_header;
pub use auth::spec_opt_str_view;
pub use auth::spec_user_token_header;
pub use client::ClientConfig;
pub use client::PreparedRequest;
pub use client::RetryConfig;
pub use client::RetryDecision;
pub use client::lemma_retry_bound;
pub use client::next_action;
pub use client::parse_rate_limit;
pub use client::retry_delay;
pub use client::spec_absolute_url;
pub use client::spec_backoff_fits;
pub use client::spec_backoff_ms;
pub use client::spec_backoff_numer;
pub use client::spec_header_parses;
pub use client::spec_header_value;
pub use client::spec_next_action_is;
pub use client::spec_retry_delay;
pub use client::spec_trim_leading_slashes;
pub use client::spec_trim_trailing_slashes;
pub use error::DiscogsError;
pub use error::error_message;
pub use error::http_error;
pub use error::spec_json_message;
pub use error::spec_json_parses;
pub use error::spec_json_rendered;
pub use models::AboutStatistics;
pub use models::AddFolderRequest;
pub use models::AddOrderMessageRequest;
pub use models::ApiResponse;
pub use models::ArtistReleasesQuery;
pub use models::CollectionReleasesQuery;
pub use models::CollectionStats;
pub use models::Currency;
pub use models::EditCollectionReleaseRequest;
pub use models::EditInstanceNoteRequest;
pub use models::EditProfileRequest;
pub use models::MasterVersionStats;
pub use models::MasterVersionsQuery;
pub use models::MediaCondition;
pub use models::NumberOrAuto;
pub use models::OrderStatus;
pub use models::OrdersQuery;
pub use models::Pagination;
pub use models::PaginationParams;
pub use models::PaginationUrls;
pub use models::RateLimit;
pub use models::SaleStatus;
pub use models::SearchQuery;
pub use models::SearchResultCommunity;
pub use models::SearchResultUserData;
pub use models::SearchType;
pub use models::SleeveCondition;
pub use models::SortOrder;
pub use models::UserContributionsQuery;
pub use models::UserInventoryQuery;
pub use models::WantlistUpdateRequest;
pub use models::spec_currency_code;
pub use oauth::AccessToken;
pub use oauth::RequestToken;
pub use oauth::access_token_header;
pub use oauth::build_oauth_header;
pub use oauth::format_access_token_header;
pub use oauth::handshake_response_outcome;
pub use oauth::format_oauth_header;
pub use oauth::format_request_token_header;
pub use oauth::nonce_safe;
pub use oauth::parse_access_token_response;
pub use oauth::parse_request_token_response;
pub use oauth::request_token_header;
pub use oauth::spec_access_token_header;
pub use oauth::spec_authorize_url_prefix;
pub use oauth::spec_form_lookup;
pub use oauth::spec_form_pairs;
pub use oauth::spec_is_alnum;
pub use oauth::spec_nonce_safe;
pub use oauth::spec_nonce_wf;
pub use oauth::spec_oauth_header;
pub use oauth::spec_request_token_header;
pub use oauth::spec_url_encoded;
pub use strutil::all_digits;
pub use strutil::parse_u32;
pub use strutil::spec_dec_body;
pub use strutil::spec_dec_digits;
pub use strutil::spec_dec_value;
pub use strutil::spec_digit_char;
pub use strutil::spec_digit_val;
pub use strutil::spec_has_prefix;
pub use strutil::spec_is_digit;
pub use strutil::spec_parses_as_u32;
pub use strutil::str_has_prefix;
pub use strutil::u64_to_dec_string;
