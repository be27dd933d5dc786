//! Money and quotation values: the wire's fixed-point pairs kept as plain
//! integers, and their reading as exact decimals through the decimal library.

use vstd::prelude::*;
use crate::wire;

verus! {

#[verifier::external_type_specification]
#[verifier::external_body]
pub struct ExDecimal(rust_decimal::Decimal);

/// How many nano units make one whole unit: the wire's fractional part is
/// counted in billionths.
pub const NANO_DIVISOR: i64 = 1_000_000_000;

/// The decimal that reads `units + nano / divisor`, as the decimal library
/// computes it in exact decimal arithmetic; its value is a function of the
/// three arguments alone.
pub uninterp spec fn decimal_scaled(units: int, nano: int, divisor: int) -> rust_decimal::Decimal;

/// Relies on rust_decimal::Decimal: conversion from integers, exact decimal
/// division and addition, computing `units + nano / divisor`.
#[verifier::external_body]
pub(crate) fn decimal_scaled_value(units: i64, nano: i32, divisor: i64) -> (r:
    rust_decimal::Decimal)
    requires
        divisor != 0,
    ensures
        r == decimal_scaled(units as int, nano as int, divisor as int),
{
    rust_decimal::Decimal::from(units) + rust_decimal::Decimal::from(nano)
        / rust_decimal::Decimal::from(divisor)
}

/// An amount of money: the wire's fixed-point pair with its currency.
#[derive(Debug, Clone)]
pub struct MoneyValue {
    pub currency: String,
    pub units: i64,
    pub nano: i32,
}

impl MoneyValue {
    /// The amount as a decimal: units plus nano read in billionths.
    pub fn amount(&self) -> (r: rust_decimal::Decimal)
        ensures
            r == decimal_scaled(self.units as int, self.nano as int, NANO_DIVISOR as int),
    {
        decimal_scaled_value(self.units, self.nano, NANO_DIVISOR)
    }
}

impl From<wire::MoneyValue> for MoneyValue {
    /// Carries the wire pair over unchanged.
    fn from(value: wire::MoneyValue) -> (r: MoneyValue)
        ensures
            r.currency == value.currency,
            r.units == value.units,
            r.nano == value.nano,
    {
        MoneyValue { currency: value.currency, units: value.units, nano: value.nano }
    }
}

impl vstd::std_specs::convert::FromSpecImpl<wire::MoneyValue> for MoneyValue {
    open spec fn obeys_from_spec() -> bool {
        true
    }

    open spec fn from_spec(value: wire::MoneyValue) -> MoneyValue {
        MoneyValue { currency: value.currency, units: value.units, nano: value.nano }
    }
}

/// The decimal reading of an optional fixed-point quotation field: units
/// plus nano read in billionths.
pub open spec fn quotation_field_decimal(
    field: Option<wire::Quotation>,
    r: Option<rust_decimal::Decimal>,
) -> bool {
    match field {
        None => r is None,
        Some(q) => r == Some(decimal_scaled(q.units as int, q.nano as int, NANO_DIVISOR as int)),
    }
}

/// Reads an optional quotation field as an optional decimal.
pub(crate) fn convert_quotation_field(field: &Option<wire::Quotation>) -> (r: Option<
    rust_decimal::Decimal,
>)
    ensures
        quotation_field_decimal(*field, r),
{
    match field {
        None => None,
        Some(q) => Some(decimal_scaled_value(q.units, q.nano, NANO_DIVISOR)),
    }
}

/// The reading of an optional wire money field as an optional money value.
pub open spec fn money_field_converted(
    field: Option<wire::MoneyValue>,
    r: Option<MoneyValue>,
) -> bool {
    match field {
        None => r is None,
        Some(m) => r matches Some(v) && v.currency@ == m.currency@ && v.units == m.units
            && v.nano == m.nano,
    }
}

/// Reads an optional wire money field, copying its contents.
pub(crate) fn convert_money_field(field: &Option<wire::MoneyValue>) -> (r: Option<MoneyValue>)
    ensures
        money_field_converted(*field, r),
{
    match field {
        None => None,
        Some(m) => Some(
            MoneyValue { currency: clone_string(&m.currency), units: m.units, nano: m.nano },
        ),
    }
}

/// Clones a string, keeping its characters.
pub(crate) fn clone_string(s: &String) -> (r: String)
    ensures
        r@ == s@,
{
    s.clone()
}

} // verus!
