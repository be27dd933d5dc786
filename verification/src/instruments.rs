//! The instruments client's request building and response reading.

use vstd::prelude::*;
use crate::dates::{date_range_to_timestamp_pair, end_bound_seconds, start_bound_seconds,
    ts_opt_matches, DateBound};
use crate::errors::{ErrorType, TinkoffInvestError};
use crate::types::{Bond, InstrumentsList, TradingSchedule};
use crate::wire;

verus! {

/// The numeric identifier kinds of the instrument contract: a FIGI, a ticker
/// with its class code, or a UID.
pub const ID_TYPE_FIGI: i32 = 1;

pub const ID_TYPE_TICKER: i32 = 2;

pub const ID_TYPE_UID: i32 = 3;

/// How a caller names one instrument.
#[derive(Debug, Clone, PartialEq, Eq)]
pub enum InstrumentRequest {
    Figi(String),
    Ticker { id: String, class_code: String },
    Uid(String),
}

/// The wire message that an instrument request becomes: the identifier under
/// `id`, its kind under `id_type`, and the class code only for a ticker.
pub open spec fn instrument_request_message(req: InstrumentRequest, r: wire::InstrumentRequest) -> bool {
    match req {
        InstrumentRequest::Figi(figi) => r.id_type == ID_TYPE_FIGI && r.id@ == figi@ && r.class_code@
            == Seq::<char>::empty(),
        InstrumentRequest::Ticker { id, class_code } => r.id_type == ID_TYPE_TICKER && r.id@ == id@
            && r.class_code@ == class_code@,
        InstrumentRequest::Uid(uid) => r.id_type == ID_TYPE_UID && r.id@ == uid@ && r.class_code@
            == Seq::<char>::empty(),
    }
}

impl InstrumentRequest {
    /// Builds the wire message that asks for this instrument.
    pub fn into_message(self) -> (r: wire::InstrumentRequest)
        ensures
            instrument_request_message(self, r),
    {
        match self {
            InstrumentRequest::Figi(figi) => wire::InstrumentRequest {
                id_type: ID_TYPE_FIGI,
                id: figi,
                class_code: String::new(),
            },
            InstrumentRequest::Ticker { id, class_code } => wire::InstrumentRequest {
                id_type: ID_TYPE_TICKER,
                id,
                class_code,
            },
            InstrumentRequest::Uid(uid) => wire::InstrumentRequest {
                id_type: ID_TYPE_UID,
                id: uid,
                class_code: String::new(),
            },
        }
    }
}

/// The numeric instrument statuses of the listing contract.
pub const INSTRUMENT_STATUS_BASE: i32 = 1;

pub const INSTRUMENT_STATUS_ALL: i32 = 2;

/// The numeric status a listing choice stands for.
pub open spec fn instruments_list_status(list: InstrumentsList) -> i32 {
    match list {
        InstrumentsList::Base => INSTRUMENT_STATUS_BASE,
        InstrumentsList::All => INSTRUMENT_STATUS_ALL,
    }
}

/// Builds the wire message that asks for a bond listing.
pub fn instruments_request(list: InstrumentsList) -> (r: wire::InstrumentsRequest)
    ensures
        r.instrument_status == instruments_list_status(list),
{
    match list {
        InstrumentsList::Base => wire::InstrumentsRequest {
            instrument_status: INSTRUMENT_STATUS_BASE,
        },
        InstrumentsList::All => wire::InstrumentsRequest { instrument_status: INSTRUMENT_STATUS_ALL },
    }
}

/// Builds the wire message that asks for one exchange's schedules over a span
/// of dates.
pub fn trading_schedules_request(exchange: String, start: &DateBound, end: &DateBound) -> (r:
    wire::TradingSchedulesRequest)
    requires
        start.wf(),
        end.wf(),
    ensures
        r.exchange == exchange,
        ts_opt_matches(r.from, start_bound_seconds(*start)),
        ts_opt_matches(r.to, end_bound_seconds(*end)),
{
    let (from, to) = date_range_to_timestamp_pair(start, end);
    wire::TradingSchedulesRequest { exchange, from, to }
}

/// Builds the wire message that asks for every exchange's schedules over a
/// span of dates.
pub fn trading_schedules_all_request(start: &DateBound, end: &DateBound) -> (r:
    wire::TradingSchedulesRequest)
    requires
        start.wf(),
        end.wf(),
    ensures
        r.exchange@ == Seq::<char>::empty(),
        ts_opt_matches(r.from, start_bound_seconds(*start)),
        ts_opt_matches(r.to, end_bound_seconds(*end)),
{
    let (from, to) = date_range_to_timestamp_pair(start, end);
    wire::TradingSchedulesRequest { exchange: String::new(), from, to }
}

/// Builds the wire message that asks for a bond's coupons over a span of
/// dates.
pub fn bond_coupons_request(figi: String, start: &DateBound, end: &DateBound) -> (r:
    wire::GetBondCouponsRequest)
    requires
        start.wf(),
        end.wf(),
    ensures
        r.figi == figi,
        ts_opt_matches(r.from, start_bound_seconds(*start)),
        ts_opt_matches(r.to, end_bound_seconds(*end)),
{
    let (from, to) = date_range_to_timestamp_pair(start, end);
    wire::GetBondCouponsRequest { figi, from, to }
}

/// Reads a schedules response, keeping every exchange's schedule in order.
pub fn schedules_from_response(response: wire::TradingSchedulesResponse) -> (r: Vec<
    TradingSchedule,
>)
    ensures
        r@.len() == response.exchanges@.len(),
        forall|i: int|
            0 <= i < response.exchanges@.len() ==> {
                &&& (#[trigger] r@[i]).spec_exchange() == response.exchanges@[i].exchange@
                &&& r@[i].spec_days().len() == response.exchanges@[i].days@.len()
                &&& forall|j: int|
                    0 <= j < response.exchanges@[i].days@.len() ==> (#[trigger] r@[i].spec_days()[j])@
                        == response.exchanges@[i].days@[j]
            },
{
    let ghost orig = response.exchanges@;
    let mut r: Vec<TradingSchedule> = Vec::new();
    for x in it: response.exchanges.into_iter()
        invariant
            it.seq() == orig,
            r@.len() == it.index(),
            forall|i: int|
                0 <= i < r@.len() ==> {
                    &&& (#[trigger] r@[i]).spec_exchange() == it.seq()[i].exchange@
                    &&& r@[i].spec_days().len() == it.seq()[i].days@.len()
                    &&& forall|j: int|
                        0 <= j < it.seq()[i].days@.len() ==> (#[trigger] r@[i].spec_days()[j])@
                            == it.seq()[i].days@[j]
                },
    {
        r.push(TradingSchedule::from_message(x));
    }
    r
}

/// Reads a bond listing response, keeping every bond in order.
pub fn bonds_from_response(response: wire::BondsResponse) -> (r: Vec<Bond>)
    ensures
        r@.len() == response.instruments@.len(),
        forall|i: int|
            0 <= i < response.instruments@.len() ==> (#[trigger] r@[i])@
                == response.instruments@[i],
{
    let ghost orig = response.instruments@;
    let mut r: Vec<Bond> = Vec::new();
    for x in it: response.instruments.into_iter()
        invariant
            it.seq() == orig,
            r@.len() == it.index(),
            forall|i: int| 0 <= i < r@.len() ==> (#[trigger] r@[i])@ == it.seq()[i],
    {
        r.push(Bond::from(x));
    }
    r
}

/// What a single-bond lookup returns, given what the transport returned: a
/// found bond as it stands, a `NotFound` classification as an empty find, and
/// any other failure as itself.
pub open spec fn bond_lookup_outcome(
    res: Result<wire::BondResponse, TinkoffInvestError>,
    r: Result<Option<Bond>, TinkoffInvestError>,
) -> bool {
    match res {
        Ok(response) => match response.instrument {
            Some(w) => r matches Ok(b) && b matches Some(bond) && bond@ == w,
            None => r == Ok::<Option<Bond>, TinkoffInvestError>(None),
        },
        Err(e) => if e.spec_error_type() == ErrorType::NotFound {
            r == Ok::<Option<Bond>, TinkoffInvestError>(None)
        } else {
            r == Err::<Option<Bond>, _>(e)
        },
    }
}

/// Settles a single-bond lookup: the provider reports a missing bond as a
/// `NotFound` error, so that classification reads as an empty find rather
/// than a failure.
pub fn settle_bond_lookup(res: Result<wire::BondResponse, TinkoffInvestError>) -> (r: Result<
    Option<Bond>,
    TinkoffInvestError,
>)
    ensures
        bond_lookup_outcome(res, r),
{
    match res {
        Ok(response) => match response.instrument {
            Some(w) => Ok(Some(Bond::from(w))),
            None => Ok(None),
        },
        Err(error) => {
            if *error.error_type() == ErrorType::NotFound {
                Ok(None)
            } else {
                Err(error)
            }
        },
    }
}

} // verus!
