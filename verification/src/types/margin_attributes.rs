//! An account's margin attributes.

use vstd::prelude::*;
use crate::money::{
    convert_money_field, convert_quotation_field, money_field_converted, quotation_field_decimal,
    MoneyValue,
};
use crate::wire;

verus! {

/// An account's margin attributes: portfolio value, margins, and the funds
/// sufficiency they imply.
#[derive(Debug, Clone)]
pub struct MarginAttributes(pub(crate) wire::GetMarginAttributesResponse);

impl MarginAttributes {
    /// The liquid value of the portfolio.
    pub fn liquid_portfolio(&self) -> (r: Option<MoneyValue>)
        ensures
            money_field_converted(self@.liquid_portfolio, r),
    {
        convert_money_field(&self.0.liquid_portfolio)
    }

    /// The starting margin: the collateral a new position requires.
    pub fn starting_margin(&self) -> (r: Option<MoneyValue>)
        ensures
            money_field_converted(self@.starting_margin, r),
    {
        convert_money_field(&self.0.starting_margin)
    }

    /// The minimal margin: the collateral an open position requires.
    pub fn minimal_margin(&self) -> (r: Option<MoneyValue>)
        ensures
            money_field_converted(self@.minimal_margin, r),
    {
        convert_money_field(&self.0.minimal_margin)
    }

    /// The funds sufficiency level: liquid portfolio over starting margin.
    pub fn funds_sufficiency_level(&self) -> (r: Option<rust_decimal::Decimal>)
        ensures
            quotation_field_decimal(self@.funds_sufficiency_level, r),
    {
        convert_quotation_field(&self.0.funds_sufficiency_level)
    }

    /// The missing funds: starting margin less the liquid portfolio.
    pub fn amount_of_missing_funds(&self) -> (r: Option<MoneyValue>)
        ensures
            money_field_converted(self@.amount_of_missing_funds, r),
    {
        convert_money_field(&self.0.amount_of_missing_funds)
    }
}

impl From<wire::GetMarginAttributesResponse> for MarginAttributes {
    /// Wraps the wire response unchanged.
    fn from(r: wire::GetMarginAttributesResponse) -> (res: MarginAttributes)
        ensures
            res@ == r,
    {
        MarginAttributes(r)
    }
}

impl vstd::std_specs::convert::FromSpecImpl<wire::GetMarginAttributesResponse> for MarginAttributes {
    open spec fn obeys_from_spec() -> bool {
        true
    }

    closed spec fn from_spec(r: wire::GetMarginAttributesResponse) -> MarginAttributes {
        MarginAttributes(r)
    }
}

impl View for MarginAttributes {
    type V = wire::GetMarginAttributesResponse;

    closed spec fn view(&self) -> wire::GetMarginAttributesResponse {
        self.0
    }
}

} // verus!
