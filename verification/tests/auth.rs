use tinkoff_invest_sdk::auth::{bearer_auth_value, x_app_name_value};
use tinkoff_invest_sdk::types::{RealExchange, SecurityTradingStatus};

#[test]
fn bearer_value_prefixes_the_token() {
    assert_eq!(bearer_auth_value("t.abc123"), "Bearer t.abc123");
    assert_eq!(bearer_auth_value(""), "Bearer ");
}

#[test]
fn app_name_is_fixed() {
    assert_eq!(x_app_name_value(), "rust_sdk");
}

#[test]
fn numeric_enum_decodings() {
    assert_eq!(SecurityTradingStatus::from_i32(0), SecurityTradingStatus::Unspecified);
    assert_eq!(
        SecurityTradingStatus::from_i32(1),
        SecurityTradingStatus::NotAvailableForTrading
    );
    assert_eq!(SecurityTradingStatus::from_i32(5), SecurityTradingStatus::NormalTrading);
    assert_eq!(
        SecurityTradingStatus::from_i32(10),
        SecurityTradingStatus::TradingAtClosingAuctionPrice
    );
    assert_eq!(
        SecurityTradingStatus::from_i32(16),
        SecurityTradingStatus::DealerNotAvailableForTrading
    );
    assert_eq!(SecurityTradingStatus::from_i32(17), SecurityTradingStatus::Unspecified);

    assert_eq!(RealExchange::from_i32(1), RealExchange::Moex);
    assert_eq!(RealExchange::from_i32(2), RealExchange::Rts);
    assert_eq!(RealExchange::from_i32(3), RealExchange::Otc);
    assert_eq!(RealExchange::from_i32(4), RealExchange::Unspecified);
}
