//! Domain types shared across the per-service clients: instrument lists,
//! trading statuses, exchanges, account classifications, and the enum
//! decodings of the wire's numeric fields.

use vstd::prelude::*;
use crate::wire;

mod account;
mod bond;
mod margin_attributes;
mod trading_schedule;
mod user_info;

pub use account::Account;
pub use bond::Bond;
pub use margin_attributes::MarginAttributes;
pub use trading_schedule::TradingDay;
pub use trading_schedule::TradingSchedule;
pub use user_info::Info;
pub use user_info::StreamLimit;
pub use user_info::UnaryLimit;
pub use user_info::UserInfo;
pub use user_info::UserTariff;

verus! {

/// Which instruments a listing request asks for.
#[derive(Debug, Clone, Copy, Eq, PartialEq, Structural)]
pub enum InstrumentsList {
    Base,
    All,
}

/// The trading status of a security.
#[derive(Clone, Copy, Debug, PartialEq, Eq, Structural, Hash)]
pub enum SecurityTradingStatus {
    Unspecified,
    NotAvailableForTrading,
    OpeningPeriod,
    ClosingPeriod,
    BreakInTrading,
    NormalTrading,
    ClosingAuction,
    DarkPoolAuction,
    DiscreteAuction,
    OpeningAuctionPeriod,
    TradingAtClosingAuctionPrice,
    SessionAssigned,
    SessionClose,
    SessionOpen,
    DealerNormalTrading,
    DealerBreakInTrading,
    DealerNotAvailableForTrading,
}

/// The trading status that the wire's numeric field denotes; any number
/// outside the contract's range reads as `Unspecified`.
pub open spec fn trading_status_of(value: int) -> SecurityTradingStatus {
    if value == 1 {
        SecurityTradingStatus::NotAvailableForTrading
    } else if value == 2 {
        SecurityTradingStatus::OpeningPeriod
    } else if value == 3 {
        SecurityTradingStatus::ClosingPeriod
    } else if value == 4 {
        SecurityTradingStatus::BreakInTrading
    } else if value == 5 {
        SecurityTradingStatus::NormalTrading
    } else if value == 6 {
        SecurityTradingStatus::ClosingAuction
    } else if value == 7 {
        SecurityTradingStatus::DarkPoolAuction
    } else if value == 8 {
        SecurityTradingStatus::DiscreteAuction
    } else if value == 9 {
        SecurityTradingStatus::OpeningAuctionPeriod
    } else if value == 10 {
        SecurityTradingStatus::TradingAtClosingAuctionPrice
    } else if value == 11 {
        SecurityTradingStatus::SessionAssigned
    } else if value == 12 {
        SecurityTradingStatus::SessionClose
    } else if value == 13 {
        SecurityTradingStatus::SessionOpen
    } else if value == 14 {
        SecurityTradingStatus::DealerNormalTrading
    } else if value == 15 {
        SecurityTradingStatus::DealerBreakInTrading
    } else if value == 16 {
        SecurityTradingStatus::DealerNotAvailableForTrading
    } else {
        SecurityTradingStatus::Unspecified
    }
}

impl SecurityTradingStatus {
    /// Decodes the wire's numeric trading status.
    pub fn from_i32(value: i32) -> (r: Self)
        ensures
            r == trading_status_of(value as int),
    {
        if value == 1 {
            Self::NotAvailableForTrading
        } else if value == 2 {
            Self::OpeningPeriod
        } else if value == 3 {
            Self::ClosingPeriod
        } else if value == 4 {
            Self::BreakInTrading
        } else if value == 5 {
            Self::NormalTrading
        } else if value == 6 {
            Self::ClosingAuction
        } else if value == 7 {
            Self::DarkPoolAuction
        } else if value == 8 {
            Self::DiscreteAuction
        } else if value == 9 {
            Self::OpeningAuctionPeriod
        } else if value == 10 {
            Self::TradingAtClosingAuctionPrice
        } else if value == 11 {
            Self::SessionAssigned
        } else if value == 12 {
            Self::SessionClose
        } else if value == 13 {
            Self::SessionOpen
        } else if value == 14 {
            Self::DealerNormalTrading
        } else if value == 15 {
            Self::DealerBreakInTrading
        } else if value == 16 {
            Self::DealerNotAvailableForTrading
        } else {
            Self::Unspecified
        }
    }
}

/// How a bond issue is documented.
#[derive(Debug, Clone, Copy, PartialEq, Eq, Structural)]
pub enum BondIssueKind {
    Unknown,
    Documentary,
    NonDocumentary,
}

/// The real exchange a security trades on.
#[derive(Debug, Clone, Copy, PartialEq, Eq, Structural)]
pub enum RealExchange {
    Unspecified,
    Moex,
    Rts,
    Otc,
}

/// The exchange that the wire's numeric field denotes; any number outside the
/// contract's range reads as `Unspecified`.
pub open spec fn real_exchange_of(value: int) -> RealExchange {
    if value == 1 {
        RealExchange::Moex
    } else if value == 2 {
        RealExchange::Rts
    } else if value == 3 {
        RealExchange::Otc
    } else {
        RealExchange::Unspecified
    }
}

impl RealExchange {
    /// Decodes the wire's numeric exchange.
    pub fn from_i32(value: i32) -> (r: Self)
        ensures
            r == real_exchange_of(value as int),
    {
        if value == 1 {
            Self::Moex
        } else if value == 2 {
            Self::Rts
        } else if value == 3 {
            Self::Otc
        } else {
            Self::Unspecified
        }
    }
}

/// The kind of a user's account.
#[derive(Debug, Copy, Clone, Eq, PartialEq, Structural, Hash)]
pub enum AccountType {
    Unspecified,
    Tinkoff,
    TinkoffIis,
    InvestBox,
}

/// The account kind that the wire's numeric field denotes.
pub open spec fn account_type_of(value: int) -> AccountType {
    if value == 1 {
        AccountType::Tinkoff
    } else if value == 2 {
        AccountType::TinkoffIis
    } else if value == 3 {
        AccountType::InvestBox
    } else {
        AccountType::Unspecified
    }
}

/// What the credential may do with an account.
#[derive(Clone, Copy, Debug, PartialEq, Eq, Structural, Hash)]
pub enum AccountAccessLevel {
    Unspecified,
    FullAccess,
    ReadOnly,
    NoAccess,
}

/// The access level that the wire's numeric field denotes.
pub open spec fn access_level_of(value: int) -> AccountAccessLevel {
    if value == 1 {
        AccountAccessLevel::FullAccess
    } else if value == 2 {
        AccountAccessLevel::ReadOnly
    } else if value == 3 {
        AccountAccessLevel::NoAccess
    } else {
        AccountAccessLevel::Unspecified
    }
}

/// The lifecycle state of an account.
#[derive(Debug, Clone, Copy, Eq, PartialEq, Structural, Hash)]
pub enum AccountStatus {
    Unspecified,
    New,
    Open,
    Closed,
}

/// The account status that the wire's numeric field denotes.
pub open spec fn account_status_of(value: int) -> AccountStatus {
    if value == 1 {
        AccountStatus::New
    } else if value == 2 {
        AccountStatus::Open
    } else if value == 3 {
        AccountStatus::Closed
    } else {
        AccountStatus::Unspecified
    }
}

/// The country a security's risk is attributed to.
#[derive(Debug, Clone)]
pub struct CountryOfRisk {
    pub code: String,
    pub name: String,
}

/// Short-position risk rates of an instrument, as the wire's fixed-point
/// quotations.
#[derive(Debug, Clone, Copy)]
pub struct Short {
    pub kshort: wire::Quotation,
    pub dshort: wire::Quotation,
    pub dshort_min: wire::Quotation,
}

/// Long-position risk rates of an instrument, as the wire's fixed-point
/// quotations.
#[derive(Debug, Clone, Copy)]
pub struct Long {
    pub klong: wire::Quotation,
    pub dlong: wire::Quotation,
    pub dlong_min: wire::Quotation,
}

} // verus!
