use rust_decimal::Decimal;
use tinkoff_invest_sdk::dates::{Date, DateTime};
use tinkoff_invest_sdk::instruments::{
    bonds_from_response, instruments_request, schedules_from_response, settle_bond_lookup,
    InstrumentRequest,
};
use tinkoff_invest_sdk::money::MoneyValue;
use tinkoff_invest_sdk::types::{
    Account, AccountAccessLevel, AccountStatus, AccountType, Bond, BondIssueKind, InstrumentsList,
    MarginAttributes, RealExchange, SecurityTradingStatus, UserInfo, UserTariff,
};
use tinkoff_invest_sdk::users::{accounts_from_response, margin_attributes_request};
use tinkoff_invest_sdk::wire;
use tinkoff_invest_sdk::{ErrorType, TinkoffInvestError};

fn sample_bond() -> wire::Bond {
    wire::Bond {
        figi: "BBG00T22WKV5".to_string(),
        ticker: "SU29013RMFS8".to_string(),
        class_code: "TQOB".to_string(),
        isin: "RU000A101KT1".to_string(),
        lot: 1,
        currency: "rub".to_string(),
        klong: Some(wire::Quotation { units: 2, nano: 0 }),
        kshort: Some(wire::Quotation { units: 2, nano: 0 }),
        dlong: Some(wire::Quotation { units: 0, nano: 500_000 }),
        dshort: Some(wire::Quotation { units: 0, nano: 900_000 }),
        dlong_min: Some(wire::Quotation { units: 0, nano: 290_000 }),
        dshort_min: Some(wire::Quotation { units: 0, nano: 380_000 }),
        short_enabled_flag: true,
        name: "ОФЗ 29013".to_string(),
        coupon_quantity_per_year: 4,
        maturity_date: Some(wire::Timestamp { seconds: 1_640_995_200, nanos: 0 }),
        nominal: Some(wire::MoneyValue { currency: "rub".to_string(), units: 1000, nano: 0 }),
        state_reg_date: Some(wire::Timestamp { seconds: 0, nanos: 0 }),
        placement_date: Some(wire::Timestamp { seconds: 86_400, nanos: 0 }),
        placement_price: Some(wire::MoneyValue {
            currency: "rub".to_string(),
            units: 999,
            nano: 500_000,
        }),
        aci_value: Some(wire::MoneyValue { currency: "rub".to_string(), units: 12, nano: 250_000 }),
        country_of_risk: "RU".to_string(),
        country_of_risk_name: "Российская Федерация".to_string(),
        sector: "government".to_string(),
        issue_kind: "non_documentary".to_string(),
        issue_size: 450_000_000,
        issue_size_plan: 450_000_000,
        trading_status: 5,
        otc_flag: false,
        buy_available_flag: true,
        sell_available_flag: true,
        floating_coupon_flag: true,
        perpetual_flag: false,
        amortization_flag: false,
        min_price_increment: Some(wire::Quotation { units: 0, nano: 10_000 }),
        api_trade_available_flag: true,
        uid: "cf37e0a9-2b18-4a10-a2a7-b6c6db4fbc67".to_string(),
        real_exchange: 1,
        position_uid: "f9be6d06-1d12-4d54-a9c4-d45b4a31cc2e".to_string(),
        for_iis_flag: true,
        first_1min_candle_date: None,
        first_1day_candle_date: Some(wire::Timestamp { seconds: 1_600_000_000, nanos: 0 }),
    }
}

#[test]
fn bond_accessors_read_the_wire_fields() {
    let bond = Bond::from(sample_bond());
    assert_eq!(bond.figi(), "BBG00T22WKV5");
    assert_eq!(bond.ticker(), "SU29013RMFS8");
    assert_eq!(bond.class_code(), "TQOB");
    assert_eq!(bond.isin(), "RU000A101KT1");
    assert_eq!(bond.lot(), 1);
    assert_eq!(bond.currency(), "rub");
    assert_eq!(bond.name(), "ОФЗ 29013");
    assert_eq!(bond.coupon_quantity_per_year(), 4);
    assert_eq!(bond.sector(), "government");
    assert_eq!(bond.issue_size(), 450_000_000);
    assert_eq!(bond.issue_size_plan(), 450_000_000);
    assert!(!bond.is_otc());
    assert!(bond.purchase_available());
    assert!(bond.sell_available_flag());
    assert!(bond.with_floating_coupon());
    assert!(!bond.is_perpetual());
    assert!(!bond.with_amortization());
    assert!(bond.api_trade_available());
    assert!(bond.available_for_iis());
    assert_eq!(bond.uid(), "cf37e0a9-2b18-4a10-a2a7-b6c6db4fbc67");
    assert_eq!(bond.position_uid(), "f9be6d06-1d12-4d54-a9c4-d45b4a31cc2e");
}

#[test]
fn bond_unit_conversions() {
    let bond = Bond::from(sample_bond());
    assert_eq!(bond.trading_status(), SecurityTradingStatus::NormalTrading);
    assert_eq!(bond.real_exchange(), RealExchange::Moex);
    assert_eq!(bond.issue_kind(), BondIssueKind::NonDocumentary);
    assert_eq!(bond.maturity_date(), Some(Date { year: 2022, month: 1, day: 1 }));
    assert_eq!(bond.state_reg_date(), Some(Date { year: 1970, month: 1, day: 1 }));
    assert_eq!(bond.placement_date(), Some(Date { year: 1970, month: 1, day: 2 }));
    assert_eq!(
        bond.first_day_candle_date(),
        Some(DateTime { seconds: 1_600_000_000, nanos: 0 })
    );
    // the minute-candle field is absent in the sample, so its accessor gives
    // nothing even though the daily-candle field is set
    assert_eq!(bond.first_minute_candle_date(), None);
    let mut with_minute = sample_bond();
    with_minute.first_1min_candle_date = Some(wire::Timestamp { seconds: 1_600_000_060, nanos: 0 });
    assert_eq!(
        Bond::from(with_minute).first_minute_candle_date(),
        Some(DateTime { seconds: 1_600_000_060, nanos: 0 })
    );
    assert_eq!(bond.min_price_increment(), Some(Decimal::new(1, 5)));

    let nominal = bond.nominal().unwrap();
    assert_eq!(nominal.currency, "rub");
    assert_eq!(nominal.units, 1000);
    assert_eq!(nominal.nano, 0);
    assert_eq!(nominal.amount(), Decimal::new(1000, 0));

    let aci = bond.aci_value().unwrap();
    assert_eq!(aci.amount(), Decimal::new(1_200_025, 5));

    let country = bond.country_of_risk();
    assert_eq!(country.code, "RU");
    assert_eq!(country.name, "Российская Федерация");

    let short = bond.short().unwrap();
    assert_eq!(short.kshort, wire::Quotation { units: 2, nano: 0 });
    assert_eq!(short.dshort, wire::Quotation { units: 0, nano: 900_000 });
    assert_eq!(short.dshort_min, wire::Quotation { units: 0, nano: 380_000 });
    let long = bond.long().unwrap();
    assert_eq!(long.klong, wire::Quotation { units: 2, nano: 0 });

    let mut no_short = sample_bond();
    no_short.short_enabled_flag = false;
    assert!(Bond::from(no_short).short().is_none());
    let mut missing_rate = sample_bond();
    missing_rate.dlong = None;
    assert!(Bond::from(missing_rate).long().is_none());
}

#[test]
fn unknown_issue_kind_and_statuses() {
    let mut raw = sample_bond();
    raw.issue_kind = "something".to_string();
    raw.trading_status = 99;
    raw.real_exchange = -1;
    let bond = Bond::from(raw);
    assert_eq!(bond.issue_kind(), BondIssueKind::Unknown);
    assert_eq!(bond.trading_status(), SecurityTradingStatus::Unspecified);
    assert_eq!(bond.real_exchange(), RealExchange::Unspecified);
}

fn sample_account() -> wire::Account {
    wire::Account {
        id: "2000000000".to_string(),
        account_type: 1,
        name: "Брокерский счёт".to_string(),
        status: 2,
        opened_date: Some(wire::Timestamp { seconds: 1_640_995_200, nanos: 0 }),
        closed_date: None,
        access_level: 1,
    }
}

#[test]
fn account_accessors_decode_the_wire_fields() {
    let account = Account::from(sample_account());
    assert_eq!(account.id(), "2000000000");
    assert_eq!(account.name(), "Брокерский счёт");
    assert_eq!(account.account_type(), AccountType::Tinkoff);
    assert_eq!(account.status(), AccountStatus::Open);
    assert_eq!(account.access_level(), AccountAccessLevel::FullAccess);
    assert_eq!(account.opened_date(), Some(Date { year: 2022, month: 1, day: 1 }));
    assert_eq!(account.closed_date(), None);

    let mut raw = sample_account();
    raw.account_type = 2;
    raw.status = 3;
    raw.access_level = 2;
    let account = Account::from(raw);
    assert_eq!(account.account_type(), AccountType::TinkoffIis);
    assert_eq!(account.status(), AccountStatus::Closed);
    assert_eq!(account.access_level(), AccountAccessLevel::ReadOnly);

    let mut raw = sample_account();
    raw.account_type = 0;
    raw.status = -7;
    raw.access_level = 100;
    let account = Account::from(raw);
    assert_eq!(account.account_type(), AccountType::Unspecified);
    assert_eq!(account.status(), AccountStatus::Unspecified);
    assert_eq!(account.access_level(), AccountAccessLevel::Unspecified);
}

#[test]
fn accounts_response_converts_in_order() {
    let mut second = sample_account();
    second.id = "2000000001".to_string();
    let response = wire::GetAccountsResponse { accounts: vec![sample_account(), second] };
    let accounts = accounts_from_response(response);
    assert_eq!(accounts.len(), 2);
    assert_eq!(accounts[0].id(), "2000000000");
    assert_eq!(accounts[1].id(), "2000000001");
}

#[test]
fn margin_attributes_convert_money_and_level() {
    let response = wire::GetMarginAttributesResponse {
        liquid_portfolio: Some(wire::MoneyValue {
            currency: "rub".to_string(),
            units: 500_000,
            nano: 300_000,
        }),
        starting_margin: Some(wire::MoneyValue {
            currency: "rub".to_string(),
            units: 200_000,
            nano: 0,
        }),
        minimal_margin: None,
        funds_sufficiency_level: Some(wire::Quotation { units: 2, nano: 500_000 }),
        amount_of_missing_funds: None,
    };
    let attrs = MarginAttributes::from(response);
    let liquid = attrs.liquid_portfolio().unwrap();
    assert_eq!(liquid.currency, "rub");
    assert_eq!(liquid.units, 500_000);
    assert_eq!(liquid.nano, 300_000);
    assert_eq!(liquid.amount(), Decimal::new(5_000_000_003, 4));
    let starting = attrs.starting_margin().unwrap();
    assert_eq!(starting.amount(), Decimal::new(200_000, 0));
    assert!(attrs.minimal_margin().is_none());
    assert!(attrs.amount_of_missing_funds().is_none());
    assert_eq!(attrs.funds_sufficiency_level(), Some(Decimal::new(20_005, 4)));
}

#[test]
fn money_amount_reads_nano_in_billionths() {
    let money = MoneyValue { currency: "usd".to_string(), units: 2, nano: 500_000_000 };
    assert_eq!(money.amount(), Decimal::new(25, 1));
    let money = MoneyValue { currency: "usd".to_string(), units: -1, nano: 250_000 };
    assert_eq!(money.amount(), Decimal::new(-99_975, 5));
}

#[test]
fn user_info_reads_the_wire_fields() {
    let info = UserInfo::from(wire::GetInfoResponse {
        prem_status: true,
        qual_status: false,
        qualified_for_work_with: vec!["bond".to_string(), "share".to_string()],
        tariff: "investor".to_string(),
    });
    assert!(info.is_premium());
    assert!(!info.is_qualified());
    assert_eq!(
        info.qualified_for_work_with().to_vec(),
        vec!["bond".to_string(), "share".to_string()]
    );
    assert_eq!(info.tariff(), "investor");
}

#[test]
fn user_tariff_keeps_limits_in_order() {
    let tariff = UserTariff::from_response(wire::GetUserTariffResponse {
        unary_limits: vec![
            wire::UnaryLimit { limit_per_minute: 100, methods: vec!["a".to_string()] },
            wire::UnaryLimit { limit_per_minute: 200, methods: vec!["b".to_string()] },
        ],
        stream_limits: vec![wire::StreamLimit {
            limit: 2,
            streams: vec!["s".to_string()],
        }],
    });
    let unary = tariff.unary_limits();
    assert_eq!(unary.len(), 2);
    assert_eq!(unary[0].limit_per_minute(), 100);
    assert_eq!(unary[0].methods().to_vec(), vec!["a".to_string()]);
    assert_eq!(unary[1].limit_per_minute(), 200);
    let stream = tariff.stream_limits();
    assert_eq!(stream.len(), 1);
    assert_eq!(stream[0].limit(), 2);
    assert_eq!(stream[0].streams().to_vec(), vec!["s".to_string()]);
}

#[test]
fn trading_schedules_convert_with_their_days() {
    let day = wire::TradingDay {
        date: Some(wire::Timestamp { seconds: 1_640_995_200, nanos: 0 }),
        is_trading_day: true,
        start_time: Some(wire::Timestamp { seconds: 1_641_024_000, nanos: 0 }),
        end_time: Some(wire::Timestamp { seconds: 1_641_055_500, nanos: 0 }),
        opening_auction_start_time: None,
        closing_auction_end_time: None,
        evening_opening_auction_start_time: None,
        evening_start_time: None,
        evening_end_time: None,
        clearing_start_time: Some(wire::Timestamp { seconds: 1_641_034_800, nanos: 0 }),
        clearing_end_time: Some(wire::Timestamp { seconds: 1_641_038_400, nanos: 0 }),
        premarket_start_time: None,
        premarket_end_time: None,
    };
    let response = wire::TradingSchedulesResponse {
        exchanges: vec![wire::TradingSchedule { exchange: "MOEX".to_string(), days: vec![day] }],
    };
    let schedules = schedules_from_response(response);
    assert_eq!(schedules.len(), 1);
    let schedule = &schedules[0];
    assert_eq!(schedule.exchange(), "MOEX");
    let days = schedule.days();
    assert_eq!(days.len(), 1);
    assert!(days[0].is_trading_day());
    assert_eq!(days[0].date(), Some(Date { year: 2022, month: 1, day: 1 }));
    let session = days[0].trading_time().unwrap();
    assert_eq!(session.start, DateTime { seconds: 1_641_024_000, nanos: 0 });
    assert_eq!(session.end, DateTime { seconds: 1_641_055_500, nanos: 0 });
    assert!(days[0].evening_trading_time().is_none());
    assert!(days[0].premarket_time().is_none());
    assert!(days[0].clearing_time().is_some());
    assert!(days[0].opening_auction_start_time().is_none());
}

#[test]
fn instrument_requests_become_wire_messages() {
    let figi = InstrumentRequest::Figi("BBG00T22WKV5".to_string()).into_message();
    assert_eq!(figi.id_type, 1);
    assert_eq!(figi.id, "BBG00T22WKV5");
    assert_eq!(figi.class_code, "");

    let ticker = InstrumentRequest::Ticker {
        id: "SBER".to_string(),
        class_code: "TQBR".to_string(),
    }
    .into_message();
    assert_eq!(ticker.id_type, 2);
    assert_eq!(ticker.id, "SBER");
    assert_eq!(ticker.class_code, "TQBR");

    let uid = InstrumentRequest::Uid("abc".to_string()).into_message();
    assert_eq!(uid.id_type, 3);
    assert_eq!(uid.id, "abc");

    assert_eq!(instruments_request(InstrumentsList::Base).instrument_status, 1);
    assert_eq!(instruments_request(InstrumentsList::All).instrument_status, 2);

    assert_eq!(margin_attributes_request("acc-1".to_string()).account_id, "acc-1");
}

#[test]
fn bond_lookup_treats_not_found_as_empty() {
    let found = settle_bond_lookup(Ok(wire::BondResponse { instrument: Some(sample_bond()) }));
    assert_eq!(found.unwrap().unwrap().figi(), "BBG00T22WKV5");

    let empty = settle_bond_lookup(Ok(wire::BondResponse { instrument: None }));
    assert!(empty.unwrap().is_none());

    let not_found = settle_bond_lookup(Err(TinkoffInvestError::for_code("50002")));
    assert!(not_found.unwrap().is_none());

    let refused = settle_bond_lookup(Err(TinkoffInvestError::for_code("40002")));
    let err = refused.unwrap_err();
    assert_eq!(*err.error_type(), ErrorType::PermissionDenied);
}

#[test]
fn bonds_response_converts_in_order() {
    let mut second = sample_bond();
    second.figi = "BBG0000000Z1".to_string();
    let bonds = bonds_from_response(wire::BondsResponse { instruments: vec![sample_bond(), second] });
    assert_eq!(bonds.len(), 2);
    assert_eq!(bonds[0].figi(), "BBG00T22WKV5");
    assert_eq!(bonds[1].figi(), "BBG0000000Z1");
}
