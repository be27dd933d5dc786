//! A user's account.

use vstd::prelude::*;
use crate::dates::{convert_date_field, date_field_converted, Date};
use crate::types::{account_status_of, account_type_of, access_level_of};
use crate::types::{AccountAccessLevel, AccountStatus, AccountType};
use crate::wire;

verus! {

/// A user's account, with its classification decoded from the wire's numeric
/// fields.
#[derive(Debug, Clone)]
pub struct Account(pub(crate) wire::Account);

impl Account {
    pub fn id(&self) -> (r: &str)
        ensures
            r@ == self@.id@,
    {
        self.0.id.as_str()
    }

    /// The kind of the account; numbers outside the contract read as
    /// `Unspecified`.
    pub fn account_type(&self) -> (r: AccountType)
        ensures
            r == account_type_of(self@.account_type as int),
    {
        if self.0.account_type == 1 {
            AccountType::Tinkoff
        } else if self.0.account_type == 2 {
            AccountType::TinkoffIis
        } else if self.0.account_type == 3 {
            AccountType::InvestBox
        } else {
            AccountType::Unspecified
        }
    }

    pub fn name(&self) -> (r: &str)
        ensures
            r@ == self@.name@,
    {
        self.0.name.as_str()
    }

    /// The lifecycle state; numbers outside the contract read as
    /// `Unspecified`.
    pub fn status(&self) -> (r: AccountStatus)
        ensures
            r == account_status_of(self@.status as int),
    {
        if self.0.status == 1 {
            AccountStatus::New
        } else if self.0.status == 2 {
            AccountStatus::Open
        } else if self.0.status == 3 {
            AccountStatus::Closed
        } else {
            AccountStatus::Unspecified
        }
    }

    /// The day the account was opened, where the wire carries one the
    /// calendar accepts.
    pub fn opened_date(&self) -> (r: Option<Date>)
        ensures
            date_field_converted(self@.opened_date, r),
    {
        convert_date_field(&self.0.opened_date)
    }

    /// The day the account was closed, where the wire carries one the
    /// calendar accepts.
    pub fn closed_date(&self) -> (r: Option<Date>)
        ensures
            date_field_converted(self@.closed_date, r),
    {
        convert_date_field(&self.0.closed_date)
    }

    /// What the credential may do with the account; numbers outside the
    /// contract read as `Unspecified`.
    pub fn access_level(&self) -> (r: AccountAccessLevel)
        ensures
            r == access_level_of(self@.access_level as int),
    {
        if self.0.access_level == 1 {
            AccountAccessLevel::FullAccess
        } else if self.0.access_level == 2 {
            AccountAccessLevel::ReadOnly
        } else if self.0.access_level == 3 {
            AccountAccessLevel::NoAccess
        } else {
            AccountAccessLevel::Unspecified
        }
    }
}

impl From<wire::Account> for Account {
    /// Wraps the wire message unchanged.
    fn from(account: wire::Account) -> (r: Account)
        ensures
            r@ == account,
    {
        Account(account)
    }
}

impl vstd::std_specs::convert::FromSpecImpl<wire::Account> for Account {
    open spec fn obeys_from_spec() -> bool {
        true
    }

    closed spec fn from_spec(account: wire::Account) -> Account {
        Account(account)
    }
}

impl View for Account {
    type V = wire::Account;

    closed spec fn view(&self) -> wire::Account {
        self.0
    }
}

} // verus!
