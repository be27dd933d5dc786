//! Trading schedules: exchanges and their trading days.

use vstd::prelude::*;
use crate::dates::{
    convert_date_field, convert_datetime_field, convert_range_fields, date_field_converted,
    datetime_field_converted, range_fields_converted, Date, DateTime, DateTimeRange,
};
use crate::money::clone_string;
use crate::wire;

verus! {

/// One day of an exchange's schedule, with its sessions and auctions.
#[derive(Debug, Clone, Copy)]
pub struct TradingDay(pub(crate) wire::TradingDay);

impl TradingDay {
    /// The calendar day, where the wire carries one the calendar accepts.
    pub fn date(&self) -> (r: Option<Date>)
        ensures
            date_field_converted(self@.date, r),
    {
        convert_date_field(&self.0.date)
    }

    /// Whether trading takes place that day.
    pub fn is_trading_day(&self) -> (r: bool)
        ensures
            r == self@.is_trading_day,
    {
        self.0.is_trading_day
    }

    /// The main trading session, present when the wire carries both ends.
    pub fn trading_time(&self) -> (r: Option<DateTimeRange>)
        ensures
            range_fields_converted(self@.start_time, self@.end_time, r),
    {
        convert_range_fields(&self.0.start_time, &self.0.end_time)
    }

    /// When the opening auction starts.
    pub fn opening_auction_start_time(&self) -> (r: Option<DateTime>)
        ensures
            datetime_field_converted(self@.opening_auction_start_time, r),
    {
        convert_datetime_field(&self.0.opening_auction_start_time)
    }

    /// When the closing auction ends.
    pub fn closing_auction_end_time(&self) -> (r: Option<DateTime>)
        ensures
            datetime_field_converted(self@.closing_auction_end_time, r),
    {
        convert_datetime_field(&self.0.closing_auction_end_time)
    }

    /// When the evening opening auction starts.
    pub fn evening_opening_auction_start_time(&self) -> (r: Option<DateTime>)
        ensures
            datetime_field_converted(self@.evening_opening_auction_start_time, r),
    {
        convert_datetime_field(&self.0.evening_opening_auction_start_time)
    }

    /// The evening session, present when the wire carries both ends.
    pub fn evening_trading_time(&self) -> (r: Option<DateTimeRange>)
        ensures
            range_fields_converted(self@.evening_start_time, self@.evening_end_time, r),
    {
        convert_range_fields(&self.0.evening_start_time, &self.0.evening_end_time)
    }

    /// The clearing break, present when the wire carries both ends.
    pub fn clearing_time(&self) -> (r: Option<DateTimeRange>)
        ensures
            range_fields_converted(self@.clearing_start_time, self@.clearing_end_time, r),
    {
        convert_range_fields(&self.0.clearing_start_time, &self.0.clearing_end_time)
    }

    /// The premarket session, present when the wire carries both ends.
    pub fn premarket_time(&self) -> (r: Option<DateTimeRange>)
        ensures
            range_fields_converted(self@.premarket_start_time, self@.premarket_end_time, r),
    {
        convert_range_fields(&self.0.premarket_start_time, &self.0.premarket_end_time)
    }
}

impl From<wire::TradingDay> for TradingDay {
    /// Wraps the wire message unchanged.
    fn from(value: wire::TradingDay) -> (r: TradingDay)
        ensures
            r@ == value,
    {
        TradingDay(value)
    }
}

impl vstd::std_specs::convert::FromSpecImpl<wire::TradingDay> for TradingDay {
    open spec fn obeys_from_spec() -> bool {
        true
    }

    closed spec fn from_spec(value: wire::TradingDay) -> TradingDay {
        TradingDay(value)
    }
}

/// One exchange's schedule: the exchange's name and its days.
#[derive(Debug, Clone)]
pub struct TradingSchedule {
    exchange: String,
    days: Vec<TradingDay>,
}

impl TradingSchedule {
    /// The exchange's name.
    pub closed spec fn spec_exchange(&self) -> Seq<char> {
        self.exchange@
    }

    /// The schedule's days.
    pub closed spec fn spec_days(&self) -> Seq<TradingDay> {
        self.days@
    }

    /// The exchange the schedule describes.
    pub fn exchange(&self) -> (r: &str)
        ensures
            r@ == self.spec_exchange(),
    {
        self.exchange.as_str()
    }

    /// The schedule's days, in the order the wire sent them.
    pub fn days(&self) -> (r: &[TradingDay])
        ensures
            r@ == self.spec_days(),
    {
        self.days.as_slice()
    }

    /// Reads the wire message, keeping the exchange name and every day in
    /// order.
    pub fn from_message(value: wire::TradingSchedule) -> (r: TradingSchedule)
        ensures
            r.spec_exchange() == value.exchange@,
            r.spec_days().len() == value.days@.len(),
            forall|i: int| 0 <= i < value.days@.len() ==> r.spec_days()[i]@ == value.days@[i],
    {
        let mut days: Vec<TradingDay> = Vec::new();
        let n = value.days.len();
        let mut i: usize = 0;
        while i < n
            invariant
                i <= n,
                n == value.days@.len(),
                days@.len() == i,
                forall|j: int| 0 <= j < i ==> days@[j].0 == value.days@[j],
            decreases n - i,
        {
            let d: wire::TradingDay = value.days[i];
            days.push(TradingDay(d));
            i = i + 1;
        }
        TradingSchedule { exchange: clone_string(&value.exchange), days }
    }
}

impl View for TradingDay {
    type V = wire::TradingDay;

    closed spec fn view(&self) -> wire::TradingDay {
        self.0
    }
}

} // verus!
