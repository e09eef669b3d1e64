//! Plain data carried between the caller, the dispatcher and the service:
//! rate-limit telemetry, the success envelope, pagination, and the query and
//! request shapes of the resource endpoints.

use vstd::prelude::*;

verus! {

/// Usage counters read from a response's rate-limit headers.
#[derive(Debug, Clone, Copy, PartialEq, Eq, Structural)]
pub struct RateLimit {
    pub limit: u32,
    pub used: u32,
    pub remaining: u32,
}

/// A successful call's decoded payload together with the rate-limit
/// telemetry of the response that carried it, when present.
#[derive(Debug, Clone)]
pub struct ApiResponse<T> {
    pub data: T,
    pub rate_limit: Option<RateLimit>,
}

#[derive(Debug, Clone)]
pub struct PaginationUrls {
    pub first: Option<String>,
    pub prev: Option<String>,
    pub next: Option<String>,
    pub last: Option<String>,
}

#[derive(Debug, Clone)]
pub struct Pagination {
    pub per_page: u32,
    pub pages: u32,
    pub page: u32,
    pub items: u32,
    pub urls: Option<PaginationUrls>,
}

#[derive(Debug, Clone, Copy, PartialEq, Eq, Structural)]
pub struct AboutStatistics {
    pub releases: u64,
    pub artists: u64,
    pub labels: u64,
}

#[derive(Debug, Clone, Copy, PartialEq, Eq, Structural)]
pub struct CollectionStats {
    pub in_collection: u64,
    pub in_wantlist: u64,
}

#[derive(Debug, Clone, Copy)]
pub struct MasterVersionStats {
    pub user: Option<CollectionStats>,
    pub community: Option<CollectionStats>,
}

#[derive(Debug, Clone, Copy)]
pub struct SearchResultUserData {
    pub in_wantlist: Option<bool>,
    pub in_collection: Option<bool>,
}

#[derive(Debug, Clone, Copy)]
pub struct SearchResultCommunity {
    pub want: Option<u64>,
    pub have: Option<u64>,
}

/// Currencies the marketplace accepts.
#[derive(Debug, Clone, Copy, PartialEq, Eq, Structural)]
pub enum Currency {
    Usd,
    Gbp,
    Eur,
    Cad,
    Aud,
    Jpy,
    Chf,
    Mxn,
    Brl,
    Nzd,
    Sek,
    Zar,
}

/// The ISO 4217 code of a currency, as the wire format writes it.
pub open spec fn spec_currency_code(c: Currency) -> Seq<char> {
    match c {
        Currency::Usd => "USD"@,
        Currency::Gbp => "GBP"@,
        Currency::Eur => "EUR"@,
        Currency::Cad => "CAD"@,
        Currency::Aud => "AUD"@,
        Currency::Jpy => "JPY"@,
        Currency::Chf => "CHF"@,
        Currency::Mxn => "MXN"@,
        Currency::Brl => "BRL"@,
        Currency::Nzd => "NZD"@,
        Currency::Sek => "SEK"@,
        Currency::Zar => "ZAR"@,
    }
}

impl Currency {
    pub fn as_code(self) -> (r: &'static str)
        ensures
            r@ == spec_currency_code(self),
    {
        match self {
            Currency::Usd => "USD",
            Currency::Gbp => "GBP",
            Currency::Eur => "EUR",
            Currency::Cad => "CAD",
            Currency::Aud => "AUD",
            Currency::Jpy => "JPY",
            Currency::Chf => "CHF",
            Currency::Mxn => "MXN",
            Currency::Brl => "BRL",
            Currency::Nzd => "NZD",
            Currency::Sek => "SEK",
            Currency::Zar => "ZAR",
        }
    }
}

#[derive(Debug, Clone, Copy, Default)]
pub struct PaginationParams {
    pub page: Option<u32>,
    pub per_page: Option<u32>,
}

#[derive(Debug, Clone, Copy, PartialEq, Eq, Structural)]
pub enum SortOrder {
    Asc,
    Desc,
}

#[derive(Debug, Clone, Copy, PartialEq, Eq, Structural)]
pub enum SearchType {
    Release,
    Master,
    Artist,
    Label,
}

#[derive(Debug, Clone, Copy, PartialEq, Eq, Structural)]
pub enum DatabaseStatus {
    Accepted,
    Draft,
    Deleted,
    Rejected,
}

#[derive(Debug, Clone, Copy, PartialEq, Eq, Structural)]
pub enum SaleStatus {
    Draft,
    ForSale,
    Expired,
}

#[derive(Debug, Clone, Copy, PartialEq, Eq, Structural)]
pub enum MediaCondition {
    Mint,
    NearMint,
    VeryGoodPlus,
    VeryGood,
    GoodPlus,
    Good,
    Fair,
    Poor,
}

#[derive(Debug, Clone, Copy, PartialEq, Eq, Structural)]
pub enum SleeveCondition {
    Mint,
    NearMint,
    VeryGoodPlus,
    VeryGood,
    GoodPlus,
    Good,
    Fair,
    Poor,
    Generic,
    NotGraded,
    NoCover,
}

#[derive(Debug, Clone, Copy, PartialEq, Eq, Structural)]
pub enum OrderStatus {
    NewOrder,
    BuyerContacted,
    InvoiceSent,
    PaymentPending,
    PaymentReceived,
    Shipped,
    RefundSent,
    CancelledNonPayingBuyer,
    CancelledItemUnavailable,
    CancelledByBuyerRequest,
}

/// A numeric setting, or the service's automatic choice.
#[derive(Debug, Clone)]
pub enum NumberOrAuto {
    Number(u32),
    Auto(String),
}

#[derive(Debug, Clone, Default)]
pub struct ArtistReleasesQuery {
    pub pagination: PaginationParams,
    pub sort: Option<String>,
    pub sort_order: Option<SortOrder>,
}

#[derive(Debug, Clone, Default)]
pub struct MasterVersionsQuery {
    pub pagination: PaginationParams,
    pub format: Option<String>,
    pub label: Option<String>,
    pub released: Option<String>,
    pub country: Option<String>,
    pub sort: Option<String>,
    pub sort_order: Option<SortOrder>,
}

#[derive(Debug, Clone, Default)]
pub struct SearchQuery {
    pub query: Option<String>,
    pub query_type: Option<SearchType>,
    pub title: Option<String>,
    pub release_title: Option<String>,
    pub credit: Option<String>,
    pub artist: Option<String>,
    pub anv: Option<String>,
    pub label: Option<String>,
    pub genre: Option<String>,
    pub style: Option<String>,
    pub country: Option<String>,
    pub year: Option<String>,
    pub format: Option<String>,
    pub catno: Option<String>,
    pub barcode: Option<String>,
    pub track: Option<String>,
    pub submitter: Option<String>,
    pub contributor: Option<String>,
    pub pagination: PaginationParams,
}

#[derive(Debug, Clone, Default)]
pub struct OrdersQuery {
    pub status: Option<OrderStatus>,
    pub created_after: Option<String>,
    pub created_before: Option<String>,
    pub archived: Option<bool>,
    pub pagination: PaginationParams,
    pub sort: Option<String>,
    pub sort_order: Option<SortOrder>,
}

#[derive(Debug, Clone, Default)]
pub struct AddOrderMessageRequest {
    pub message: Option<String>,
    pub status: Option<OrderStatus>,
}

#[derive(Debug, Clone, Default)]
pub struct EditProfileRequest {
    pub name: Option<String>,
    pub home_page: Option<String>,
    pub location: Option<String>,
    pub profile: Option<String>,
    pub curr_abbr: Option<Currency>,
}

#[derive(Debug, Clone, Default)]
pub struct UserInventoryQuery {
    pub status: Option<String>,
    pub pagination: PaginationParams,
    pub sort: Option<String>,
    pub sort_order: Option<SortOrder>,
}

#[derive(Debug, Clone, Default)]
pub struct UserContributionsQuery {
    pub pagination: PaginationParams,
    pub sort: Option<String>,
    pub sort_order: Option<SortOrder>,
}

#[derive(Debug, Clone)]
pub struct AddFolderRequest {
    pub name: String,
}

#[derive(Debug, Clone, Default)]
pub struct CollectionReleasesQuery {
    pub pagination: PaginationParams,
    pub sort: Option<String>,
    pub sort_order: Option<SortOrder>,
}

#[derive(Debug, Clone, Default)]
pub struct EditCollectionReleaseRequest {
    pub rating: Option<u8>,
    pub folder_id: Option<u64>,
}

#[derive(Debug, Clone)]
pub struct EditInstanceNoteRequest {
    pub value: String,
}

#[derive(Debug, Clone, Default)]
pub struct WantlistUpdateRequest {
    pub notes: Option<String>,
    pub rating: Option<u8>,
}

} // verus!
