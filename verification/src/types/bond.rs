//! A bond instrument and its accessors.

use vstd::prelude::*;
use crate::dates::{
    convert_date_field, convert_datetime_field, date_field_converted, datetime_field_converted,
    Date, DateTime,
};
use crate::errors::str_eq;
use crate::money::{
    convert_money_field, convert_quotation_field, money_field_converted, quotation_field_decimal,
    clone_string, MoneyValue,
};
use crate::types::{
    real_exchange_of, trading_status_of, BondIssueKind, CountryOfRisk, Long, RealExchange,
    SecurityTradingStatus, Short,
};
use crate::wire;

verus! {

/// The issue kind that the wire's string field denotes; anything but the two
/// documented spellings reads as `Unknown`.
pub open spec fn issue_kind_of(s: Seq<char>) -> BondIssueKind {
    if s == "documentary"@ {
        BondIssueKind::Documentary
    } else if s == "non_documentary"@ {
        BondIssueKind::NonDocumentary
    } else {
        BondIssueKind::Unknown
    }
}

/// A bond, with unit conversions over the wire's raw fields.
#[derive(Debug, Clone)]
pub struct Bond(pub(crate) wire::Bond);

impl Bond {
    pub fn figi(&self) -> (r: &str)
        ensures
            r@ == self@.figi@,
    {
        self.0.figi.as_str()
    }

    pub fn ticker(&self) -> (r: &str)
        ensures
            r@ == self@.ticker@,
    {
        self.0.ticker.as_str()
    }

    pub fn class_code(&self) -> (r: &str)
        ensures
            r@ == self@.class_code@,
    {
        self.0.class_code.as_str()
    }

    pub fn isin(&self) -> (r: &str)
        ensures
            r@ == self@.isin@,
    {
        self.0.isin.as_str()
    }

    pub fn lot(&self) -> (r: i32)
        ensures
            r == self@.lot,
    {
        self.0.lot
    }

    pub fn currency(&self) -> (r: &str)
        ensures
            r@ == self@.currency@,
    {
        self.0.currency.as_str()
    }

    /// The short-position risk rates. The wire may omit any of the three
    /// rates; a descriptor without them would say nothing, so one is returned
    /// exactly when shorting is enabled and all three rates are present.
    pub fn short(&self) -> (r: Option<Short>)
        ensures
            r is Some <==> self@.short_enabled_flag && self@.kshort is Some
                && self@.dshort is Some && self@.dshort_min is Some,
            r matches Some(s) ==> s.kshort == self@.kshort->Some_0 && s.dshort
                == self@.dshort->Some_0 && s.dshort_min == self@.dshort_min->Some_0,
    {
        if self.0.short_enabled_flag {
            match (self.0.kshort, self.0.dshort, self.0.dshort_min) {
                (Some(kshort), Some(dshort), Some(dshort_min)) => Some(
                    Short { kshort, dshort, dshort_min },
                ),
                _ => None,
            }
        } else {
            None
        }
    }

    /// The long-position risk rates: a descriptor without its rates would say
    /// nothing, so one is returned exactly when the wire carries all three.
    pub fn long(&self) -> (r: Option<Long>)
        ensures
            r is Some <==> self@.klong is Some && self@.dlong is Some
                && self@.dlong_min is Some,
            r matches Some(l) ==> l.klong == self@.klong->Some_0 && l.dlong
                == self@.dlong->Some_0 && l.dlong_min == self@.dlong_min->Some_0,
    {
        match (self.0.klong, self.0.dlong, self.0.dlong_min) {
            (Some(klong), Some(dlong), Some(dlong_min)) => Some(Long { klong, dlong, dlong_min }),
            _ => None,
        }
    }

    pub fn name(&self) -> (r: &str)
        ensures
            r@ == self@.name@,
    {
        self.0.name.as_str()
    }

    /// How many coupons a year pays, reading the wire's number unsigned.
    pub fn coupon_quantity_per_year(&self) -> (r: u32)
        ensures
            r == self@.coupon_quantity_per_year as u32,
    {
        self.0.coupon_quantity_per_year as u32
    }

    /// The day the bond matures, where the wire carries one the calendar
    /// accepts.
    pub fn maturity_date(&self) -> (r: Option<Date>)
        ensures
            date_field_converted(self@.maturity_date, r),
    {
        convert_date_field(&self.0.maturity_date)
    }

    /// The bond's nominal value.
    pub fn nominal(&self) -> (r: Option<MoneyValue>)
        ensures
            money_field_converted(self@.nominal, r),
    {
        convert_money_field(&self.0.nominal)
    }

    /// The day of state registration.
    pub fn state_reg_date(&self) -> (r: Option<Date>)
        ensures
            date_field_converted(self@.state_reg_date, r),
    {
        convert_date_field(&self.0.state_reg_date)
    }

    /// The day of placement.
    pub fn placement_date(&self) -> (r: Option<Date>)
        ensures
            date_field_converted(self@.placement_date, r),
    {
        convert_date_field(&self.0.placement_date)
    }

    /// The placement price.
    pub fn placement_price(&self) -> (r: Option<MoneyValue>)
        ensures
            money_field_converted(self@.placement_price, r),
    {
        convert_money_field(&self.0.placement_price)
    }

    /// The accumulated coupon income.
    pub fn aci_value(&self) -> (r: Option<MoneyValue>)
        ensures
            money_field_converted(self@.aci_value, r),
    {
        convert_money_field(&self.0.aci_value)
    }

    /// The country the bond's risk is attributed to.
    pub fn country_of_risk(&self) -> (r: CountryOfRisk)
        ensures
            r.code@ == self@.country_of_risk@,
            r.name@ == self@.country_of_risk_name@,
    {
        CountryOfRisk {
            code: clone_string(&self.0.country_of_risk),
            name: clone_string(&self.0.country_of_risk_name),
        }
    }

    pub fn sector(&self) -> (r: &str)
        ensures
            r@ == self@.sector@,
    {
        self.0.sector.as_str()
    }

    /// How the issue is documented, decoded from the wire's string field.
    pub fn issue_kind(&self) -> (r: BondIssueKind)
        ensures
            r == issue_kind_of(self@.issue_kind@),
    {
        if str_eq(self.0.issue_kind.as_str(), "documentary") {
            BondIssueKind::Documentary
        } else if str_eq(self.0.issue_kind.as_str(), "non_documentary") {
            BondIssueKind::NonDocumentary
        } else {
            BondIssueKind::Unknown
        }
    }

    /// The issue size, reading the wire's number unsigned.
    pub fn issue_size(&self) -> (r: u64)
        ensures
            r == self@.issue_size as u64,
    {
        self.0.issue_size as u64
    }

    /// The planned issue size, reading the wire's number unsigned.
    pub fn issue_size_plan(&self) -> (r: u64)
        ensures
            r == self@.issue_size_plan as u64,
    {
        self.0.issue_size_plan as u64
    }

    /// The trading status, decoded from the wire's numeric field.
    pub fn trading_status(&self) -> (r: SecurityTradingStatus)
        ensures
            r == trading_status_of(self@.trading_status as int),
    {
        SecurityTradingStatus::from_i32(self.0.trading_status)
    }

    pub fn is_otc(&self) -> (r: bool)
        ensures
            r == self@.otc_flag,
    {
        self.0.otc_flag
    }

    pub fn purchase_available(&self) -> (r: bool)
        ensures
            r == self@.buy_available_flag,
    {
        self.0.buy_available_flag
    }

    pub fn sell_available_flag(&self) -> (r: bool)
        ensures
            r == self@.sell_available_flag,
    {
        self.0.sell_available_flag
    }

    pub fn with_floating_coupon(&self) -> (r: bool)
        ensures
            r == self@.floating_coupon_flag,
    {
        self.0.floating_coupon_flag
    }

    pub fn is_perpetual(&self) -> (r: bool)
        ensures
            r == self@.perpetual_flag,
    {
        self.0.perpetual_flag
    }

    pub fn with_amortization(&self) -> (r: bool)
        ensures
            r == self@.amortization_flag,
    {
        self.0.amortization_flag
    }

    /// The minimal price step, read as a decimal in billionths.
    pub fn min_price_increment(&self) -> (r: Option<rust_decimal::Decimal>)
        ensures
            quotation_field_decimal(self@.min_price_increment, r),
    {
        convert_quotation_field(&self.0.min_price_increment)
    }

    pub fn api_trade_available(&self) -> (r: bool)
        ensures
            r == self@.api_trade_available_flag,
    {
        self.0.api_trade_available_flag
    }

    pub fn uid(&self) -> (r: &str)
        ensures
            r@ == self@.uid@,
    {
        self.0.uid.as_str()
    }

    /// The real exchange, decoded from the wire's numeric field.
    pub fn real_exchange(&self) -> (r: RealExchange)
        ensures
            r == real_exchange_of(self@.real_exchange as int),
    {
        RealExchange::from_i32(self.0.real_exchange)
    }

    pub fn position_uid(&self) -> (r: &str)
        ensures
            r@ == self@.position_uid@,
    {
        self.0.position_uid.as_str()
    }

    pub fn available_for_iis(&self) -> (r: bool)
        ensures
            r == self@.for_iis_flag,
    {
        self.0.for_iis_flag
    }

    /// The first minute-candle date.
    pub fn first_minute_candle_date(&self) -> (r: Option<DateTime>)
        ensures
            datetime_field_converted(self@.first_1min_candle_date, r),
    {
        convert_datetime_field(&self.0.first_1min_candle_date)
    }

    /// The first daily candle date.
    pub fn first_day_candle_date(&self) -> (r: Option<DateTime>)
        ensures
            datetime_field_converted(self@.first_1day_candle_date, r),
    {
        convert_datetime_field(&self.0.first_1day_candle_date)
    }
}

impl From<wire::Bond> for Bond {
    /// Wraps the wire message unchanged.
    fn from(bond: wire::Bond) -> (r: Bond)
        ensures
            r@ == bond,
    {
        Bond(bond)
    }
}

impl vstd::std_specs::convert::FromSpecImpl<wire::Bond> for Bond {
    open spec fn obeys_from_spec() -> bool {
        true
    }

    closed spec fn from_spec(bond: wire::Bond) -> Bond {
        Bond(bond)
    }
}

impl View for Bond {
    type V = wire::Bond;

    closed spec fn view(&self) -> wire::Bond {
        self.0
    }
}

} // verus!
