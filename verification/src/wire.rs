//! Plain mirrors of the protocol messages the clients exchange: each struct
//! holds exactly the fields of the corresponding wire message, as plain
//! values, so that the conversion layer over them can be verified.

use vstd::prelude::*;

verus! {

/// A point in time: non-leap seconds since the Unix epoch, plus nanoseconds
/// within the second.
#[derive(Debug, Clone, Copy, PartialEq, Eq, Structural)]
pub struct Timestamp {
    pub seconds: i64,
    pub nanos: i32,
}

/// A fixed-point amount of money: integer part in `units`, fractional part in
/// `nano`, in the currency named by `currency`.
#[derive(Debug, Clone)]
pub struct MoneyValue {
    pub currency: String,
    pub units: i64,
    pub nano: i32,
}

/// A fixed-point quotation: integer part in `units`, fractional part in
/// `nano`.
#[derive(Debug, Clone, Copy, PartialEq, Eq, Structural)]
pub struct Quotation {
    pub units: i64,
    pub nano: i32,
}

/// A user's account as the wire carries it.
#[derive(Debug, Clone)]
pub struct Account {
    pub id: String,
    pub account_type: i32,
    pub name: String,
    pub status: i32,
    pub opened_date: Option<Timestamp>,
    pub closed_date: Option<Timestamp>,
    pub access_level: i32,
}

/// A bond instrument as the wire carries it.
#[derive(Debug, Clone)]
pub struct Bond {
    pub figi: String,
    pub ticker: String,
    pub class_code: String,
    pub isin: String,
    pub lot: i32,
    pub currency: String,
    pub klong: Option<Quotation>,
    pub kshort: Option<Quotation>,
    pub dlong: Option<Quotation>,
    pub dshort: Option<Quotation>,
    pub dlong_min: Option<Quotation>,
    pub dshort_min: Option<Quotation>,
    pub short_enabled_flag: bool,
    pub name: String,
    pub coupon_quantity_per_year: i32,
    pub maturity_date: Option<Timestamp>,
    pub nominal: Option<MoneyValue>,
    pub state_reg_date: Option<Timestamp>,
    pub placement_date: Option<Timestamp>,
    pub placement_price: Option<MoneyValue>,
    pub aci_value: Option<MoneyValue>,
    pub country_of_risk: String,
    pub country_of_risk_name: String,
    pub sector: String,
    pub issue_kind: String,
    pub issue_size: i64,
    pub issue_size_plan: i64,
    pub trading_status: i32,
    pub otc_flag: bool,
    pub buy_available_flag: bool,
    pub sell_available_flag: bool,
    pub floating_coupon_flag: bool,
    pub perpetual_flag: bool,
    pub amortization_flag: bool,
    pub min_price_increment: Option<Quotation>,
    pub api_trade_available_flag: bool,
    pub uid: String,
    pub real_exchange: i32,
    pub position_uid: String,
    pub for_iis_flag: bool,
    pub first_1min_candle_date: Option<Timestamp>,
    pub first_1day_candle_date: Option<Timestamp>,
}

/// The response carrying a user's accounts.
#[derive(Debug, Clone)]
pub struct GetAccountsResponse {
    pub accounts: Vec<Account>,
}

/// The response describing the user.
#[derive(Debug, Clone)]
pub struct GetInfoResponse {
    pub prem_status: bool,
    pub qual_status: bool,
    pub qualified_for_work_with: Vec<String>,
    pub tariff: String,
}

/// A per-minute limit on unary calls, with the methods it covers.
#[derive(Debug, Clone)]
pub struct UnaryLimit {
    pub limit_per_minute: i32,
    pub methods: Vec<String>,
}

/// A limit on open streams, with the stream methods it covers.
#[derive(Debug, Clone)]
pub struct StreamLimit {
    pub limit: i32,
    pub streams: Vec<String>,
}

/// The response describing the user's tariff limits.
#[derive(Debug, Clone)]
pub struct GetUserTariffResponse {
    pub unary_limits: Vec<UnaryLimit>,
    pub stream_limits: Vec<StreamLimit>,
}

/// The request for a single account's margin attributes.
#[derive(Debug, Clone)]
pub struct GetMarginAttributesRequest {
    pub account_id: String,
}

/// The response carrying an account's margin attributes.
#[derive(Debug, Clone)]
pub struct GetMarginAttributesResponse {
    pub liquid_portfolio: Option<MoneyValue>,
    pub starting_margin: Option<MoneyValue>,
    pub minimal_margin: Option<MoneyValue>,
    pub funds_sufficiency_level: Option<Quotation>,
    pub amount_of_missing_funds: Option<MoneyValue>,
}

/// One day of an exchange's trading schedule as the wire carries it.
#[derive(Debug, Clone, Copy, PartialEq, Eq, Structural)]
pub struct TradingDay {
    pub date: Option<Timestamp>,
    pub is_trading_day: bool,
    pub start_time: Option<Timestamp>,
    pub end_time: Option<Timestamp>,
    pub opening_auction_start_time: Option<Timestamp>,
    pub closing_auction_end_time: Option<Timestamp>,
    pub evening_opening_auction_start_time: Option<Timestamp>,
    pub evening_start_time: Option<Timestamp>,
    pub evening_end_time: Option<Timestamp>,
    pub clearing_start_time: Option<Timestamp>,
    pub clearing_end_time: Option<Timestamp>,
    pub premarket_start_time: Option<Timestamp>,
    pub premarket_end_time: Option<Timestamp>,
}

/// One exchange's trading schedule as the wire carries it.
#[derive(Debug, Clone)]
pub struct TradingSchedule {
    pub exchange: String,
    pub days: Vec<TradingDay>,
}

/// The request for trading schedules over a period.
#[derive(Debug, Clone)]
pub struct TradingSchedulesRequest {
    pub exchange: String,
    pub from: Option<Timestamp>,
    pub to: Option<Timestamp>,
}

/// The response carrying trading schedules, one per exchange.
#[derive(Debug, Clone)]
pub struct TradingSchedulesResponse {
    pub exchanges: Vec<TradingSchedule>,
}

/// The request identifying one instrument, by one of three identifier kinds.
#[derive(Debug, Clone)]
pub struct InstrumentRequest {
    pub id_type: i32,
    pub class_code: String,
    pub id: String,
}

/// The request for an instrument list.
#[derive(Debug, Clone, Copy, PartialEq, Eq, Structural)]
pub struct InstrumentsRequest {
    pub instrument_status: i32,
}

/// The request for a bond's coupons over a period.
#[derive(Debug, Clone)]
pub struct GetBondCouponsRequest {
    pub figi: String,
    pub from: Option<Timestamp>,
    pub to: Option<Timestamp>,
}

/// The response carrying a single bond, if one was found.
#[derive(Debug, Clone)]
pub struct BondResponse {
    pub instrument: Option<Bond>,
}

/// The response carrying a list of bonds.
#[derive(Debug, Clone)]
pub struct BondsResponse {
    pub instruments: Vec<Bond>,
}

} // verus!
