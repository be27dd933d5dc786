//! Classification of the provider's numeric error codes into a closed set of
//! categories, each with a human-readable message and a localized description,
//! as the provider's error catalog defines them.

use vstd::prelude::*;

verus! {

/// The closed set of error categories.
#[non_exhaustive]
#[derive(Debug, Clone, Copy, PartialEq, Eq, Structural)]
pub enum ErrorType {
    FailedPrecondition,
    InvalidArgument,
    NotFound,
    Unauthenticated,
    Unimplemented,
    ResourceExhausted,
    PermissionDenied,
    Internal,
    Unknown,
}

/// The category that the catalog assigns to `code`; `Unknown` for any code
/// outside the catalog.
pub open spec fn error_type_of(code: Seq<char>) -> ErrorType {
    if code == "50007"@ {
        ErrorType::NotFound
    } else if code == "30064"@ {
        ErrorType::InvalidArgument
    } else if code == "30060"@ {
        ErrorType::InvalidArgument
    } else if code == "70001"@ {
        ErrorType::Internal
    } else if code == "30021"@ {
        ErrorType::InvalidArgument
    } else if code == "30047"@ {
        ErrorType::InvalidArgument
    } else if code == "30054"@ {
        ErrorType::InvalidArgument
    } else if code == "30062"@ {
        ErrorType::InvalidArgument
    } else if code == "30013"@ {
        ErrorType::InvalidArgument
    } else if code == "30011"@ {
        ErrorType::InvalidArgument
    } else if code == "30028"@ {
        ErrorType::InvalidArgument
    } else if code == "30044"@ {
        ErrorType::InvalidArgument
    } else if code == "30085"@ {
        ErrorType::InvalidArgument
    } else if code == "70003"@ {
        ErrorType::Internal
    } else if code == "30004"@ {
        ErrorType::InvalidArgument
    } else if code == "30014"@ {
        ErrorType::InvalidArgument
    } else if code == "80001"@ {
        ErrorType::ResourceExhausted
    } else if code == "50008"@ {
        ErrorType::NotFound
    } else if code == "30031"@ {
        ErrorType::InvalidArgument
    } else if code == "30059"@ {
        ErrorType::InvalidArgument
    } else if code == "30079"@ {
        ErrorType::InvalidArgument
    } else if code == "30003"@ {
        ErrorType::InvalidArgument
    } else if code == "30037"@ {
        ErrorType::InvalidArgument
    } else if code == "30043"@ {
        ErrorType::InvalidArgument
    } else if code == "30089"@ {
        ErrorType::InvalidArgument
    } else if code == "30034"@ {
        ErrorType::InvalidArgument
    } else if code == "30026"@ {
        ErrorType::InvalidArgument
    } else if code == "30029"@ {
        ErrorType::InvalidArgument
    } else if code == "30032"@ {
        ErrorType::InvalidArgument
    } else if code == "30018"@ {
        ErrorType::InvalidArgument
    } else if code == "30040"@ {
        ErrorType::InvalidArgument
    } else if code == "30020"@ {
        ErrorType::InvalidArgument
    } else if code == "30041"@ {
        ErrorType::InvalidArgument
    } else if code == "30056"@ {
        ErrorType::InvalidArgument
    } else if code == "30061"@ {
        ErrorType::InvalidArgument
    } else if code == "30080"@ {
        ErrorType::InvalidArgument
    } else if code == "30084"@ {
        ErrorType::InvalidArgument
    } else if code == "30063"@ {
        ErrorType::InvalidArgument
    } else if code == "30068"@ {
        ErrorType::InvalidArgument
    } else if code == "30081"@ {
        ErrorType::InvalidArgument
    } else if code == "30086"@ {
        ErrorType::InvalidArgument
    } else if code == "30091"@ {
        ErrorType::InvalidArgument
    } else if code == "40003"@ {
        ErrorType::Unauthenticated
    } else if code == "40004"@ {
        ErrorType::PermissionDenied
    } else if code == "30001"@ {
        ErrorType::InvalidArgument
    } else if code == "30083"@ {
        ErrorType::InvalidArgument
    } else if code == "30027"@ {
        ErrorType::InvalidArgument
    } else if code == "30065"@ {
        ErrorType::InvalidArgument
    } else if code == "30070"@ {
        ErrorType::InvalidArgument
    } else if code == "30002"@ {
        ErrorType::InvalidArgument
    } else if code == "30022"@ {
        ErrorType::InvalidArgument
    } else if code == "30033"@ {
        ErrorType::InvalidArgument
    } else if code == "80003"@ {
        ErrorType::ResourceExhausted
    } else if code == "30049"@ {
        ErrorType::InvalidArgument
    } else if code == "50002"@ {
        ErrorType::NotFound
    } else if code == "30048"@ {
        ErrorType::InvalidArgument
    } else if code == "30019"@ {
        ErrorType::InvalidArgument
    } else if code == "30012"@ {
        ErrorType::InvalidArgument
    } else if code == "30005"@ {
        ErrorType::InvalidArgument
    } else if code == "30036"@ {
        ErrorType::InvalidArgument
    } else if code == "30051"@ {
        ErrorType::InvalidArgument
    } else if code == "30053"@ {
        ErrorType::InvalidArgument
    } else if code == "30058"@ {
        ErrorType::InvalidArgument
    } else if code == "30092"@ {
        ErrorType::InvalidArgument
    } else if code == "50001"@ {
        ErrorType::NotFound
    } else if code == "50010"@ {
        ErrorType::NotFound
    } else if code == "70002"@ {
        ErrorType::Internal
    } else if code == "30066"@ {
        ErrorType::InvalidArgument
    } else if code == "12001"@ {
        ErrorType::Unimplemented
    } else if code == "80002"@ {
        ErrorType::ResourceExhausted
    } else if code == "50006"@ {
        ErrorType::NotFound
    } else if code == "30008"@ {
        ErrorType::InvalidArgument
    } else if code == "30015"@ {
        ErrorType::InvalidArgument
    } else if code == "30016"@ {
        ErrorType::InvalidArgument
    } else if code == "30038"@ {
        ErrorType::InvalidArgument
    } else if code == "30042"@ {
        ErrorType::InvalidArgument
    } else if code == "30082"@ {
        ErrorType::InvalidArgument
    } else if code == "50004"@ {
        ErrorType::NotFound
    } else if code == "90001"@ {
        ErrorType::FailedPrecondition
    } else if code == "90002"@ {
        ErrorType::FailedPrecondition
    } else if code == "30078"@ {
        ErrorType::InvalidArgument
    } else if code == "30067"@ {
        ErrorType::InvalidArgument
    } else if code == "50005"@ {
        ErrorType::NotFound
    } else if code == "50009"@ {
        ErrorType::NotFound
    } else if code == "30017"@ {
        ErrorType::InvalidArgument
    } else if code == "30006"@ {
        ErrorType::InvalidArgument
    } else if code == "30007"@ {
        ErrorType::InvalidArgument
    } else if code == "30050"@ {
        ErrorType::InvalidArgument
    } else if code == "30023"@ {
        ErrorType::InvalidArgument
    } else if code == "30045"@ {
        ErrorType::InvalidArgument
    } else if code == "30052"@ {
        ErrorType::InvalidArgument
    } else if code == "30055"@ {
        ErrorType::InvalidArgument
    } else if code == "30009"@ {
        ErrorType::InvalidArgument
    } else if code == "30010"@ {
        ErrorType::InvalidArgument
    } else if code == "30057"@ {
        ErrorType::InvalidArgument
    } else if code == "30069"@ {
        ErrorType::InvalidArgument
    } else if code == "40002"@ {
        ErrorType::PermissionDenied
    } else if code == "30090"@ {
        ErrorType::InvalidArgument
    } else if code == "30077"@ {
        ErrorType::InvalidArgument
    } else if code == "30087"@ {
        ErrorType::InvalidArgument
    } else if code == "30025"@ {
        ErrorType::InvalidArgument
    } else if code == "30030"@ {
        ErrorType::InvalidArgument
    } else if code == "30088"@ {
        ErrorType::InvalidArgument
    } else {
        ErrorType::Unknown
    }
}

/// The catalog's human-readable message for `code`; `"N/A"` for any code
/// outside the catalog.
pub open spec fn message_of(code: Seq<char>) -> Seq<char> {
    if code == "50007"@ {
        "task not found"@
    } else if code == "30064"@ {
        "the required period should not exceed 31 days"@
    } else if code == "30060"@ {
        "cancel stop-order error: %s"@
    } else if code == "70001"@ {
        "internal error"@
    } else if code == "30021"@ {
        "missing parameter: 'account_id'"@
    } else if code == "30047"@ {
        "price currency does not match the settlement currency"@
    } else if code == "30054"@ {
        "instrument type is not a share or etf"@
    } else if code == "30062"@ {
        "'to' value out of range"@
    } else if code == "30013"@ {
        "'class_code' require for 'id_type' = 'ticker'"@
    } else if code == "30011"@ {
        "interval is invalid"@
    } else if code == "30028"@ {
        "'order id' is invalid"@
    } else if code == "30044"@ {
        "'expiration_type' is invalid"@
    } else if code == "30085"@ {
        "price in points is available only for futures and bonds"@
    } else if code == "70003"@ {
        "internal error, please try again later"@
    } else if code == "30004"@ {
        "missing parameter: 'to'"@
    } else if code == "30014"@ {
        "the maximum request period for the given candle interval has been exceeded"@
    } else if code == "80001"@ {
        "limit of open streams exceeded"@
    } else if code == "50008"@ {
        "no orderbook provider"@
    } else if code == "30031"@ {
        "missing parameter: 'depth'"@
    } else if code == "30059"@ {
        "cancel order error: %s"@
    } else if code == "30079"@ {
        "instrument is not available for trading"@
    } else if code == "30003"@ {
        "'from' can't be less than the current date"@
    } else if code == "30037"@ {
        "missing parameter: 'stop_order_type'"@
    } else if code == "30043"@ {
        "missing parameter: 'expiration_type'"@
    } else if code == "30089"@ {
        "'to' must not be later than %s"@
    } else if code == "30034"@ {
        "not enough balance"@
    } else if code == "30026"@ {
        "invalid parameter: 'order_type'"@
    } else if code == "30029"@ {
        "missing parameter: 'idempotency_key'"@
    } else if code == "30032"@ {
        "depth is invalid"@
    } else if code == "30018"@ {
        "price is invalid"@
    } else if code == "30040"@ {
        "'expire_date' is invalid"@
    } else if code == "30020"@ {
        "'direction' is invalid"@
    } else if code == "30041"@ {
        "the method is available only for futures"@
    } else if code == "30056"@ {
        "stop order settlement currency is not supported"@
    } else if code == "30061"@ {
        "'from' value out of range"@
    } else if code == "30080"@ {
        "quantity must be positive"@
    } else if code == "30084"@ {
        "maximum request period has been exceeded"@
    } else if code == "30063"@ {
        "'expire_date' value out of range"@
    } else if code == "30068"@ {
        "Only limit order is allowed"@
    } else if code == "30081"@ {
        "account status is closed"@
    } else if code == "30086"@ {
        "year is invalid"@
    } else if code == "30091"@ {
        "quantity of instruments can't be more than 100"@
    } else if code == "40003"@ {
        "authentication token is missing or invalid"@
    } else if code == "40004"@ {
        "Working with orders is not available with this account"@
    } else if code == "30001"@ {
        "missing parameter: 'from'"@
    } else if code == "30083"@ {
        "order_type is invalid"@
    } else if code == "30027"@ {
        "missing parameter: 'order_id'"@
    } else if code == "30065"@ {
        "missing parameter: 'task_id'"@
    } else if code == "30070"@ {
        "'from' can't be more than the current date"@
    } else if code == "30002"@ {
        "the required period should not exceed 7 days"@
    } else if code == "30022"@ {
        "missing parameter: 'state'"@
    } else if code == "30033"@ {
        "missing parameter: 'trade_clearing_account' or 'class_code'"@
    } else if code == "80003"@ {
        "The limit on SMS sending has been exceeded, try again in a minute"@
    } else if code == "30049"@ {
        "post order error: %s"@
    } else if code == "50002"@ {
        "instrument not found"@
    } else if code == "30048"@ {
        "instrument type is not bond"@
    } else if code == "30019"@ {
        "missing parameter: 'direction'"@
    } else if code == "30012"@ {
        "'to' can't be less than 'from'"@
    } else if code == "30005"@ {
        "'id_type' is invalid"@
    } else if code == "30036"@ {
        "missing parameter: 'stop_price'"@
    } else if code == "30051"@ {
        "account margin status is disabled"@
    } else if code == "30053"@ {
        "post stop_order error: %s"@
    } else if code == "30058"@ {
        "task not completed yet, please try again later"@
    } else if code == "30092"@ {
        "trading unavailable on weekends"@
    } else if code == "50001"@ {
        "exchange not found"@
    } else if code == "50010"@ {
        "brand not found"@
    } else if code == "70002"@ {
        "internal network error"@
    } else if code == "30066"@ {
        "missing parameter: 'payload'"@
    } else if code == "12001"@ {
        "Method is unimplemented"@
    } else if code == "80002"@ {
        "request limit exceeded"@
    } else if code == "50006"@ {
        "stop-order not found"@
    } else if code == "30008"@ {
        "missing parameter: 'figi'"@
    } else if code == "30015"@ {
        "missing parameter: 'quantity'"@
    } else if code == "30016"@ {
        "'quantity' is invalid"@
    } else if code == "30038"@ {
        "'stop_order_type' is invalid"@
    } else if code == "30042"@ {
        "not enough assets for a margin trade"@
    } else if code == "30082"@ {
        "account status is blocked"@
    } else if code == "50004"@ {
        "account not found"@
    } else if code == "90001"@ {
        "need confirmation: %s"@
    } else if code == "90002"@ {
        "only for qualified investors"@
    } else if code == "30078"@ {
        "Incorrect minimum price increment"@
    } else if code == "30067"@ {
        "'action_type' is invalid"@
    } else if code == "50005"@ {
        "order not found"@
    } else if code == "50009"@ {
        "asset not found"@
    } else if code == "30017"@ {
        "missing parameter: 'price'"@
    } else if code == "30006"@ {
        "missing parameter: 'id_type'"@
    } else if code == "30007"@ {
        "missing parameter: 'id'"@
    } else if code == "30050"@ {
        "'instrument_status' is invalid"@
    } else if code == "30023"@ {
        "invalid parameter: 'state'"@
    } else if code == "30045"@ {
        "missing parameter: 'ticker'"@
    } else if code == "30052"@ {
        "instrument forbidden for trading by API"@
    } else if code == "30055"@ {
        "order_id cannot be longer than 36 characters"@
    } else if code == "30009"@ {
        "'from' is invalid"@
    } else if code == "30010"@ {
        "'to' is invalid"@
    } else if code == "30057"@ {
        "the order is a duplicate, but the order report was not found"@
    } else if code == "30069"@ {
        "Invalid parameter: 'limit'"@
    } else if code == "40002"@ {
        "insufficient privileges"@
    } else if code == "30090"@ {
        "missing parameter: 'siebel_id'"@
    } else if code == "30077"@ {
        "not available for OTC instruments"@
    } else if code == "30087"@ {
        "missing parameter: query"@
    } else if code == "30025"@ {
        "missing parameter: 'order_type'"@
    } else if code == "30030"@ {
        "'idempotency_key' is invalid"@
    } else if code == "30088"@ {
        "'from' and 'to' must have the same year"@
    } else {
        "N/A"@
    }
}

/// The catalog's localized description for `code`; `"N/A"` for any code
/// outside the catalog.
pub open spec fn description_of(code: Seq<char>) -> Seq<char> {
    if code == "50007"@ {
        "Задача не найдена."@
    } else if code == "30064"@ {
        "Запрошенный период не может превышать 31 дня.\nУкажите корректный период."@
    } else if code == "30060"@ {
        "Ошибка метода отмены стоп-заявки.\nПодробнее в тексте ошибки."@
    } else if code == "70001"@ {
        "Внутренняя ошибка сервиса.\nЕсли ошибка повторяется, обратитесь в службу технической поддержки."@
    } else if code == "30021"@ {
        "Входной параметр *account_id* является обязательным.\nУкажите корректный параметр *account_id*."@
    } else if code == "30047"@ {
        "Валюта цены не совпадает с валютой расчётов по инструменту.\nУкажите корректную валюту цены."@
    } else if code == "30054"@ {
        "Тип инструмента не инвестиционный фонд или акция"@
    } else if code == "30062"@ {
        "Входной параметр *to* имеет некорректное значение.\nУкажите значение в пределах от 1970-01-01T00:00:00Z до 2099-12-31T23:59:59.999999999Z включительно."@
    } else if code == "30013"@ {
        "Входной параметр *class_code* не может быть пустым при поиске по тикеру.\nУкажите корректный параметр *class_code*.\nПодробнее: https://tinkoff.github.io/investAPI/faq_identification/."@
    } else if code == "30011"@ {
        "Входной параметр *interval* имеет некорректное значение.\nСписок доступных значений: https://tinkoff.github.io/investAPI/marketdata#subscriptioninterval."@
    } else if code == "30028"@ {
        "Входной параметр *order_id* имеет некорректное значение.\nУкажите корректный параметр *order_id*."@
    } else if code == "30044"@ {
        "Входной параметр *expiration_type* имеет некорректное значение.\nСписок доступных значений: https://tinkoff.github.io/investAPI/stoporders/#stoporderexpirationtype."@
    } else if code == "30085"@ {
        "Тип цены в пунктах доступен только для фьючерсов и облигаций."@
    } else if code == "70003"@ {
        "Внутренняя ошибка сервиса, попробуйте выполнить запрос позднее.\nЕсли ошибка повторяется, обратитесь в службу технической поддержки."@
    } else if code == "30004"@ {
        "Входной параметр *to* является обязательным.\nУкажите корректный параметр *to*."@
    } else if code == "30014"@ {
        "Превышен максимальный период запроса для данного интервала свечи.\nУкажите корректный интервал."@
    } else if code == "80001"@ {
        "Превышен лимит одновременных открытых stream-соединений. Подробнее: https://tinkoff.github.io/investAPI/limits/"@
    } else if code == "50008"@ {
        "Отсутствует источник данных по стаканам."@
    } else if code == "30031"@ {
        "Входной параметр *depth* является обязательным.\nУкажите корректный параметр *depth*."@
    } else if code == "30059"@ {
        "Ошибка метода отмены заявки.\nПодробнее в тексте ошибки."@
    } else if code == "30079"@ {
        "Инструмент недоступен для торгов."@
    } else if code == "30003"@ {
        "Входной параметр *from* не может быть меньше текущей даты.\nУкажите корректный параметр *from*."@
    } else if code == "30037"@ {
        "Входной параметр *stop_order_type* является обязательным.\nУкажите корректный параметр *stop_order_type*."@
    } else if code == "30043"@ {
        "Входной параметр *expiration_type* является обязательным.\nУкажите корректный параметр *expiration_type*."@
    } else if code == "30089"@ {
        "Поле to не должно быть позднее даты, указанной в тексте ошибки.\nДата указана в формате ISO 8601."@
    } else if code == "30034"@ {
        "Недостаточно средств для совершения сделки (ошибка песочницы).\nПополните баланс нужной валюты."@
    } else if code == "30026"@ {
        "Входной параметр *order_type* имеет некорректное значение.\nУкажите корректный параметр *order_type*."@
    } else if code == "30029"@ {
        "Входной параметр *idempotency_key* является обязательным.\nУкажите корректный параметр *idempotency_key*."@
    } else if code == "30032"@ {
        "Входной параметр *depth* имеет некорректное значение.\nУкажите корректный параметр *depth*."@
    } else if code == "30018"@ {
        "Входной параметр *price* имеет некорректное значение.\nУкажите корректный параметр *price*."@
    } else if code == "30040"@ {
        "Входной параметр *expire_date* имеет некорректное значение.\nУкажите корректный параметр *expire_date*."@
    } else if code == "30020"@ {
        "Входной параметр *direction* имеет некорректное значение."@
    } else if code == "30041"@ {
        "Метод предназначен только для работы с фьючерсами.\nПередайте во входные параметры метода идентификатор фьючерса."@
    } else if code == "30056"@ {
        "Валюта выставления стоп-заявки не поддерживается"@
    } else if code == "30061"@ {
        "Входной параметр *from* имеет некорректное значение.\nУкажите значение в пределах от 1970-01-01T00:00:00Z до 2099-12-31T23:59:59.999999999Z включительно."@
    } else if code == "30080"@ {
        "Количество лотов должно быть положительным числом."@
    } else if code == "30084"@ {
        "Превышен лимит запрашиваемого периода."@
    } else if code == "30063"@ {
        "Входной параметр *expire_date* имеет некорректное значение.\nДата должна быть не ранее текущей и не позднее 2099-12-31T23:59:59.999999999Z."@
    } else if code == "30068"@ {
        "В настоящий момент возможно выставление только лимитного торгового поручения."@
    } else if code == "30081"@ {
        "Аккаунт закрыт."@
    } else if code == "30086"@ {
        "Некорректный год."@
    } else if code == "30091"@ {
        "Количество инструментов не может превышать 100."@
    } else if code == "40003"@ {
        "Токен доступа не найден или не активен.\nВы можете выпустить новый токен по ссылке https://www.tinkoff.ru/invest/settings/"@
    } else if code == "40004"@ {
        "Выставление заявок недоступно с текущего аккаунта."@
    } else if code == "30001"@ {
        "Входной параметр *from* является обязательным.\nУкажите корректный параметр *from*."@
    } else if code == "30083"@ {
        "Некорректный тип заявки."@
    } else if code == "30027"@ {
        "Входной параметр *order_id* является обязательным.\nУкажите корректный параметр *order_id*."@
    } else if code == "30065"@ {
        "Входной параметр *task_id* является обязательным.\nУкажите корректный параметр *task_id*."@
    } else if code == "30070"@ {
        "Входной параметр *from* имеет некорректное значение.\nУкажите корректный параметр."@
    } else if code == "30002"@ {
        "Запрошенный период не может превышать 7 дней.\nУкажите корректный период."@
    } else if code == "30022"@ {
        "Входной параметр *state* является обязательным.\nУкажите корректный параметр *state*.\nСписок доступных значений: https://tinkoff.github.io/investAPI/operations/#operationstate."@
    } else if code == "30033"@ {
        "Параметр *trade_clearing_account* или *class_code* не может быть пустым."@
    } else if code == "80003"@ {
        "Превышен лимит на отправку СМС, попробуйте через минуту."@
    } else if code == "30049"@ {
        "Ошибка метода выставления торгового поручения.\nПодробнее в тексте ошибки."@
    } else if code == "50002"@ {
        "Инструмент не найден.\nУкажите корректный идентификатор инструмента."@
    } else if code == "30048"@ {
        "Метод предназначен только для запроса информации по облигации.\nПередайте во входные параметры метода идентификатор облигации."@
    } else if code == "30019"@ {
        "Входной параметр *direction* является обязательным.\nУкажите корректный параметр *direction*."@
    } else if code == "30012"@ {
        "Входной параметр *to* не может быть меньше параметра *from*.\nУкажите корректные параметры *from* и *to*."@
    } else if code == "30005"@ {
        "Входной параметр *id_type* имеет некорректное значение.\nСписок доступных значений: https://tinkoff.github.io/investAPI/instruments#instrumentidtype."@
    } else if code == "30036"@ {
        "Входной параметр *stop_price* является обязательным.\nУкажите корректный параметр *stop_price*."@
    } else if code == "30051"@ {
        "Для данного договора недоступна маржинальная торговля."@
    } else if code == "30053"@ {
        "Ошибка метода выставления стоп-заявки.\nПодробнее в тексте ошибки."@
    } else if code == "30058"@ {
        "Выполнение задачи еще не завершено, попробуйте позже."@
    } else if code == "30092"@ {
        "Торги недоступны по нерабочим дням."@
    } else if code == "50001"@ {
        "Биржа не найдена по переданному *exchange_id*.\nУкажите корректный *exchange_id*."@
    } else if code == "50010"@ {
        "Бренд не найден.\nУкажите корректный идентификатор бренда."@
    } else if code == "70002"@ {
        "Неизвестная сетевая ошибка, попробуйте выполнить запрос позднее.\nЕсли ошибка повторяется, обратитесь в службу технической поддержки."@
    } else if code == "30066"@ {
        "Входной параметр *payload* является обязательным.\nУкажите корректный параметр *payload*."@
    } else if code == "12001"@ {
        "Метод не реализован."@
    } else if code == "80002"@ {
        "Превышен лимит запросов в минуту. Подробнее: https://tinkoff.github.io/investAPI/limits/"@
    } else if code == "50006"@ {
        "Стоп-заявка не найдена по переданному *stop_order_id*.\nУкажите корректный *stop_order_id*."@
    } else if code == "30008"@ {
        "Входной параметр *figi* является обязательным.\nУкажите корректный параметр *figi*."@
    } else if code == "30015"@ {
        "Входной параметр *quantity* является обязательным.\nУкажите корректный параметр *quantity*."@
    } else if code == "30016"@ {
        "Входной параметр *quantity* имеет некорректное значение.\nУкажите корректный параметр *quantity*."@
    } else if code == "30038"@ {
        "Входной параметр *stop_order_type* имеет некорректное значение.\nСписок доступных значений: https://tinkoff.github.io/investAPI/stoporders/#stopordertype."@
    } else if code == "30042"@ {
        "Недостаточно активов для маржинальной сделки.\nПроверьте маржинальные показатели счёта."@
    } else if code == "30082"@ {
        "Аккаунт заблокирован."@
    } else if code == "50004"@ {
        "Счёт не найден по переданному *account_id*.\nУкажите корректный *account_id*."@
    } else if code == "90001"@ {
        "Требуется подтверждение операции.\nПодробнее в тексте ошибки."@
    } else if code == "90002"@ {
        "Торговля этим инструментом доступна только квалифицированным инвесторам."@
    } else if code == "30078"@ {
        "Некорректный шаг изменения цены."@
    } else if code == "30067"@ {
        "Некорректное значение *action_type*.\nВыберите допустимое значение."@
    } else if code == "50005"@ {
        "Торговое поручение не найдено по переданному *order_id*.\nУкажите корректный *order_id*."@
    } else if code == "50009"@ {
        "Актив не найден.\nУкажите корректный идентификатор актива."@
    } else if code == "30017"@ {
        "Входной параметр *price* является обязательным.\nУкажите корректный параметр *price*."@
    } else if code == "30006"@ {
        "Входной параметр *id_type* является обязательным.\nУкажите корректный параметр *id_type*."@
    } else if code == "30007"@ {
        "Входной параметр *id* является обязательным.\nУкажите корректный параметр *id*."@
    } else if code == "30050"@ {
        "Входной параметр *instrument_status* имеет некорректное значение.\nСписок доступных значений: https://tinkoff.github.io/investAPI/instruments#instrumentstatus."@
    } else if code == "30023"@ {
        "Входной параметр *state* имеет некорректное значение.\nУкажите корректный параметр *state*.\nСписок доступных значений: https://tinkoff.github.io/investAPI/operations/#operationstate."@
    } else if code == "30045"@ {
        "Входной параметр *ticker* является обязательным.\nУкажите корректный параметр *ticker*."@
    } else if code == "30052"@ {
        "Для данного инструмента недоступна торговля через API."@
    } else if code == "30055"@ {
        "order_id не может быть длиннее 36 символов"@
    } else if code == "30009"@ {
        "Входной параметр *from* имеет некорректное значение.\nУкажите корректный параметр *from*."@
    } else if code == "30010"@ {
        "Входной параметр *to* имеет некорректное значение.\nУкажите корректный параметр *to*."@
    } else if code == "30057"@ {
        "Заявка является дублем, но отчет по заявке не найден"@
    } else if code == "30069"@ {
        "Входной параметр *limit* имеет некорректное значение.\nЗначение должно быть меньше или равно 1000."@
    } else if code == "40002"@ {
        "Недостаточно прав для совершения операции.\nТокен доступа имеет уровень прав read-only.\nПодробнее: https://tinkoff.github.io/investAPI/index#_2"@
    } else if code == "30090"@ {
        "Входной параметр *siebel_id* является обязательным.\nУкажите корректный параметр *siebel_id*."@
    } else if code == "30077"@ {
        "Метод недоступен для внебиржевых инструментов."@
    } else if code == "30087"@ {
        "Входной параметр *query* является обязательным.\nУкажите не пустой параметр *query*."@
    } else if code == "30025"@ {
        "Входной параметр *order_type* является обязательным.\nУкажите корректный параметр *order_type*."@
    } else if code == "30030"@ {
        "Входной параметр *idempotency_key* имеет некорректное значение.\nУкажите корректный параметр *idempotency_key*."@
    } else if code == "30088"@ {
        "Запрашиваемые даты должны быть в рамках одного года."@
    } else {
        "N/A"@
    }
}

/// Character-by-character string comparison, so that equality of the views is
/// decided without trusting any outside code.
pub(crate) fn str_eq(a: &str, b: &str) -> (r: bool)
    ensures
        r <==> a@ == b@,
{
    let n = a.unicode_len();
    if n != b.unicode_len() {
        return false;
    }
    let mut i: usize = 0;
    while i < n
        invariant
            i <= n,
            n == a@.len(),
            n == b@.len(),
            forall|j: int| 0 <= j < i ==> a@[j] == b@[j],
        decreases n - i,
    {
        if a.get_char(i) != b.get_char(i) {
            return false;
        }
        i = i + 1;
    }
    proof {
        assert(a@ =~= b@);
    }
    true
}

impl ErrorType {
    /// Looks `code` up in the catalog's category table.
    pub fn from_code(code: &str) -> (r: Self)
        ensures
            r == error_type_of(code@),
    {
        if str_eq(code, "50007") {
            Self::NotFound
        } else if str_eq(code, "30064") {
            Self::InvalidArgument
        } else if str_eq(code, "30060") {
            Self::InvalidArgument
        } else if str_eq(code, "70001") {
            Self::Internal
        } else if str_eq(code, "30021") {
            Self::InvalidArgument
        } else if str_eq(code, "30047") {
            Self::InvalidArgument
        } else if str_eq(code, "30054") {
            Self::InvalidArgument
        } else if str_eq(code, "30062") {
            Self::InvalidArgument
        } else if str_eq(code, "30013") {
            Self::InvalidArgument
        } else if str_eq(code, "30011") {
            Self::InvalidArgument
        } else if str_eq(code, "30028") {
            Self::InvalidArgument
        } else if str_eq(code, "30044") {
            Self::InvalidArgument
        } else if str_eq(code, "30085") {
            Self::InvalidArgument
        } else if str_eq(code, "70003") {
            Self::Internal
        } else if str_eq(code, "30004") {
            Self::InvalidArgument
        } else if str_eq(code, "30014") {
            Self::InvalidArgument
        } else if str_eq(code, "80001") {
            Self::ResourceExhausted
        } else if str_eq(code, "50008") {
            Self::NotFound
        } else if str_eq(code, "30031") {
            Self::InvalidArgument
        } else if str_eq(code, "30059") {
            Self::InvalidArgument
        } else if str_eq(code, "30079") {
            Self::InvalidArgument
        } else if str_eq(code, "30003") {
            Self::InvalidArgument
        } else if str_eq(code, "30037") {
            Self::InvalidArgument
        } else if str_eq(code, "30043") {
            Self::InvalidArgument
        } else if str_eq(code, "30089") {
            Self::InvalidArgument
        } else if str_eq(code, "30034") {
            Self::InvalidArgument
        } else if str_eq(code, "30026") {
            Self::InvalidArgument
        } else if str_eq(code, "30029") {
            Self::InvalidArgument
        } else if str_eq(code, "30032") {
            Self::InvalidArgument
        } else if str_eq(code, "30018") {
            Self::InvalidArgument
        } else if str_eq(code, "30040") {
            Self::InvalidArgument
        } else if str_eq(code, "30020") {
            Self::InvalidArgument
        } else if str_eq(code, "30041") {
            Self::InvalidArgument
        } else if str_eq(code, "30056") {
            Self::InvalidArgument
        } else if str_eq(code, "30061") {
            Self::InvalidArgument
        } else if str_eq(code, "30080") {
            Self::InvalidArgument
        } else if str_eq(code, "30084") {
            Self::InvalidArgument
        } else if str_eq(code, "30063") {
            Self::InvalidArgument
        } else if str_eq(code, "30068") {
            Self::InvalidArgument
        } else if str_eq(code, "30081") {
            Self::InvalidArgument
        } else if str_eq(code, "30086") {
            Self::InvalidArgument
        } else if str_eq(code, "30091") {
            Self::InvalidArgument
        } else if str_eq(code, "40003") {
            Self::Unauthenticated
        } else if str_eq(code, "40004") {
            Self::PermissionDenied
        } else if str_eq(code, "30001") {
            Self::InvalidArgument
        } else if str_eq(code, "30083") {
            Self::InvalidArgument
        } else if str_eq(code, "30027") {
            Self::InvalidArgument
        } else if str_eq(code, "30065") {
            Self::InvalidArgument
        } else if str_eq(code, "30070") {
            Self::InvalidArgument
        } else if str_eq(code, "30002") {
            Self::InvalidArgument
        } else if str_eq(code, "30022") {
            Self::InvalidArgument
        } else if str_eq(code, "30033") {
            Self::InvalidArgument
        } else if str_eq(code, "80003") {
            Self::ResourceExhausted
        } else if str_eq(code, "30049") {
            Self::InvalidArgument
        } else if str_eq(code, "50002") {
            Self::NotFound
        } else if str_eq(code, "30048") {
            Self::InvalidArgument
        } else if str_eq(code, "30019") {
            Self::InvalidArgument
        } else if str_eq(code, "30012") {
            Self::InvalidArgument
        } else if str_eq(code, "30005") {
            Self::InvalidArgument
        } else if str_eq(code, "30036") {
            Self::InvalidArgument
        } else if str_eq(code, "30051") {
            Self::InvalidArgument
        } else if str_eq(code, "30053") {
            Self::InvalidArgument
        } else if str_eq(code, "30058") {
            Self::InvalidArgument
        } else if str_eq(code, "30092") {
            Self::InvalidArgument
        } else if str_eq(code, "50001") {
            Self::NotFound
        } else if str_eq(code, "50010") {
            Self::NotFound
        } else if str_eq(code, "70002") {
            Self::Internal
        } else if str_eq(code, "30066") {
            Self::InvalidArgument
        } else if str_eq(code, "12001") {
            Self::Unimplemented
        } else if str_eq(code, "80002") {
            Self::ResourceExhausted
        } else if str_eq(code, "50006") {
            Self::NotFound
        } else if str_eq(code, "30008") {
            Self::InvalidArgument
        } else if str_eq(code, "30015") {
            Self::InvalidArgument
        } else if str_eq(code, "30016") {
            Self::InvalidArgument
        } else if str_eq(code, "30038") {
            Self::InvalidArgument
        } else if str_eq(code, "30042") {
            Self::InvalidArgument
        } else if str_eq(code, "30082") {
            Self::InvalidArgument
        } else if str_eq(code, "50004") {
            Self::NotFound
        } else if str_eq(code, "90001") {
            Self::FailedPrecondition
        } else if str_eq(code, "90002") {
            Self::FailedPrecondition
        } else if str_eq(code, "30078") {
            Self::InvalidArgument
        } else if str_eq(code, "30067") {
            Self::InvalidArgument
        } else if str_eq(code, "50005") {
            Self::NotFound
        } else if str_eq(code, "50009") {
            Self::NotFound
        } else if str_eq(code, "30017") {
            Self::InvalidArgument
        } else if str_eq(code, "30006") {
            Self::InvalidArgument
        } else if str_eq(code, "30007") {
            Self::InvalidArgument
        } else if str_eq(code, "30050") {
            Self::InvalidArgument
        } else if str_eq(code, "30023") {
            Self::InvalidArgument
        } else if str_eq(code, "30045") {
            Self::InvalidArgument
        } else if str_eq(code, "30052") {
            Self::InvalidArgument
        } else if str_eq(code, "30055") {
            Self::InvalidArgument
        } else if str_eq(code, "30009") {
            Self::InvalidArgument
        } else if str_eq(code, "30010") {
            Self::InvalidArgument
        } else if str_eq(code, "30057") {
            Self::InvalidArgument
        } else if str_eq(code, "30069") {
            Self::InvalidArgument
        } else if str_eq(code, "40002") {
            Self::PermissionDenied
        } else if str_eq(code, "30090") {
            Self::InvalidArgument
        } else if str_eq(code, "30077") {
            Self::InvalidArgument
        } else if str_eq(code, "30087") {
            Self::InvalidArgument
        } else if str_eq(code, "30025") {
            Self::InvalidArgument
        } else if str_eq(code, "30030") {
            Self::InvalidArgument
        } else if str_eq(code, "30088") {
            Self::InvalidArgument
        } else {
            Self::Unknown
        }
    }
}

/// The catalog's message and description for `code`.
fn get_description_by_code(code: &str) -> (r: (String, String))
    ensures
        r.0@ == message_of(code@),
        r.1@ == description_of(code@),
{
    if str_eq(code, "50007") {
        ("task not found".to_owned(),
         "Задача не найдена.".to_owned())
    } else if str_eq(code, "30064") {
        ("the required period should not exceed 31 days".to_owned(),
         "Запрошенный период не может превышать 31 дня.\nУкажите корректный период.".to_owned())
    } else if str_eq(code, "30060") {
        ("cancel stop-order error: %s".to_owned(),
         "Ошибка метода отмены стоп-заявки.\nПодробнее в тексте ошибки.".to_owned())
    } else if str_eq(code, "70001") {
        ("internal error".to_owned(),
         "Внутренняя ошибка сервиса.\nЕсли ошибка повторяется, обратитесь в службу технической поддержки.".to_owned())
    } else if str_eq(code, "30021") {
        ("missing parameter: 'account_id'".to_owned(),
         "Входной параметр *account_id* является обязательным.\nУкажите корректный параметр *account_id*.".to_owned())
    } else if str_eq(code, "30047") {
        ("price currency does not match the settlement currency".to_owned(),
         "Валюта цены не совпадает с валютой расчётов по инструменту.\nУкажите корректную валюту цены.".to_owned())
    } else if str_eq(code, "30054") {
        ("instrument type is not a share or etf".to_owned(),
         "Тип инструмента не инвестиционный фонд или акция".to_owned())
    } else if str_eq(code, "30062") {
        ("'to' value out of range".to_owned(),
         "Входной параметр *to* имеет некорректное значение.\nУкажите значение в пределах от 1970-01-01T00:00:00Z до 2099-12-31T23:59:59.999999999Z включительно.".to_owned())
    } else if str_eq(code, "30013") {
        ("'class_code' require for 'id_type' = 'ticker'".to_owned(),
         "Входной параметр *class_code* не может быть пустым при поиске по тикеру.\nУкажите корректный параметр *class_code*.\nПодробнее: https://tinkoff.github.io/investAPI/faq_identification/.".to_owned())
    } else if str_eq(code, "30011") {
        ("interval is invalid".to_owned(),
         "Входной параметр *interval* имеет некорректное значение.\nСписок доступных значений: https://tinkoff.github.io/investAPI/marketdata#subscriptioninterval.".to_owned())
    } else if str_eq(code, "30028") {
        ("'order id' is invalid".to_owned(),
         "Входной параметр *order_id* имеет некорректное значение.\nУкажите корректный параметр *order_id*.".to_owned())
    } else if str_eq(code, "30044") {
        ("'expiration_type' is invalid".to_owned(),
         "Входной параметр *expiration_type* имеет некорректное значение.\nСписок доступных значений: https://tinkoff.github.io/investAPI/stoporders/#stoporderexpirationtype.".to_owned())
    } else if str_eq(code, "30085") {
        ("price in points is available only for futures and bonds".to_owned(),
         "Тип цены в пунктах доступен только для фьючерсов и облигаций.".to_owned())
    } else if str_eq(code, "70003") {
        ("internal error, please try again later".to_owned(),
         "Внутренняя ошибка сервиса, попробуйте выполнить запрос позднее.\nЕсли ошибка повторяется, обратитесь в службу технической поддержки.".to_owned())
    } else if str_eq(code, "30004") {
        ("missing parameter: 'to'".to_owned(),
         "Входной параметр *to* является обязательным.\nУкажите корректный параметр *to*.".to_owned())
    } else if str_eq(code, "30014") {
        ("the maximum request period for the given candle interval has been exceeded".to_owned(),
         "Превышен максимальный период запроса для данного интервала свечи.\nУкажите корректный интервал.".to_owned())
    } else if str_eq(code, "80001") {
        ("limit of open streams exceeded".to_owned(),
         "Превышен лимит одновременных открытых stream-соединений. Подробнее: https://tinkoff.github.io/investAPI/limits/".to_owned())
    } else if str_eq(code, "50008") {
        ("no orderbook provider".to_owned(),
         "Отсутствует источник данных по стаканам.".to_owned())
    } else if str_eq(code, "30031") {
        ("missing parameter: 'depth'".to_owned(),
         "Входной параметр *depth* является обязательным.\nУкажите корректный параметр *depth*.".to_owned())
    } else if str_eq(code, "30059") {
        ("cancel order error: %s".to_owned(),
         "Ошибка метода отмены заявки.\nПодробнее в тексте ошибки.".to_owned())
    } else if str_eq(code, "30079") {
        ("instrument is not available for trading".to_owned(),
         "Инструмент недоступен для торгов.".to_owned())
    } else if str_eq(code, "30003") {
        ("'from' can't be less than the current date".to_owned(),
         "Входной параметр *from* не может быть меньше текущей даты.\nУкажите корректный параметр *from*.".to_owned())
    } else if str_eq(code, "30037") {
        ("missing parameter: 'stop_order_type'".to_owned(),
         "Входной параметр *stop_order_type* является обязательным.\nУкажите корректный параметр *stop_order_type*.".to_owned())
    } else if str_eq(code, "30043") {
        ("missing parameter: 'expiration_type'".to_owned(),
         "Входной параметр *expiration_type* является обязательным.\nУкажите корректный параметр *expiration_type*.".to_owned())
    } else if str_eq(code, "30089") {
        ("'to' must not be later than %s".to_owned(),
         "Поле to не должно быть позднее даты, указанной в тексте ошибки.\nДата указана в формате ISO 8601.".to_owned())
    } else if str_eq(code, "30034") {
        ("not enough balance".to_owned(),
         "Недостаточно средств для совершения сделки (ошибка песочницы).\nПополните баланс нужной валюты.".to_owned())
    } else if str_eq(code, "30026") {
        ("invalid parameter: 'order_type'".to_owned(),
         "Входной параметр *order_type* имеет некорректное значение.\nУкажите корректный параметр *order_type*.".to_owned())
    } else if str_eq(code, "30029") {
        ("missing parameter: 'idempotency_key'".to_owned(),
         "Входной параметр *idempotency_key* является обязательным.\nУкажите корректный параметр *idempotency_key*.".to_owned())
    } else if str_eq(code, "30032") {
        ("depth is invalid".to_owned(),
         "Входной параметр *depth* имеет некорректное значение.\nУкажите корректный параметр *depth*.".to_owned())
    } else if str_eq(code, "30018") {
        ("price is invalid".to_owned(),
         "Входной параметр *price* имеет некорректное значение.\nУкажите корректный параметр *price*.".to_owned())
    } else if str_eq(code, "30040") {
        ("'expire_date' is invalid".to_owned(),
         "Входной параметр *expire_date* имеет некорректное значение.\nУкажите корректный параметр *expire_date*.".to_owned())
    } else if str_eq(code, "30020") {
        ("'direction' is invalid".to_owned(),
         "Входной параметр *direction* имеет некорректное значение.".to_owned())
    } else if str_eq(code, "30041") {
        ("the method is available only for futures".to_owned(),
         "Метод предназначен только для работы с фьючерсами.\nПередайте во входные параметры метода идентификатор фьючерса.".to_owned())
    } else if str_eq(code, "30056") {
        ("stop order settlement currency is not supported".to_owned(),
         "Валюта выставления стоп-заявки не поддерживается".to_owned())
    } else if str_eq(code, "30061") {
        ("'from' value out of range".to_owned(),
         "Входной параметр *from* имеет некорректное значение.\nУкажите значение в пределах от 1970-01-01T00:00:00Z до 2099-12-31T23:59:59.999999999Z включительно.".to_owned())
    } else if str_eq(code, "30080") {
        ("quantity must be positive".to_owned(),
         "Количество лотов должно быть положительным числом.".to_owned())
    } else if str_eq(code, "30084") {
        ("maximum request period has been exceeded".to_owned(),
         "Превышен лимит запрашиваемого периода.".to_owned())
    } else if str_eq(code, "30063") {
        ("'expire_date' value out of range".to_owned(),
         "Входной параметр *expire_date* имеет некорректное значение.\nДата должна быть не ранее текущей и не позднее 2099-12-31T23:59:59.999999999Z.".to_owned())
    } else if str_eq(code, "30068") {
        ("Only limit order is allowed".to_owned(),
         "В настоящий момент возможно выставление только лимитного торгового поручения.".to_owned())
    } else if str_eq(code, "30081") {
        ("account status is closed".to_owned(),
         "Аккаунт закрыт.".to_owned())
    } else if str_eq(code, "30086") {
        ("year is invalid".to_owned(),
         "Некорректный год.".to_owned())
    } else if str_eq(code, "30091") {
        ("quantity of instruments can't be more than 100".to_owned(),
         "Количество инструментов не может превышать 100.".to_owned())
    } else if str_eq(code, "40003") {
        ("authentication token is missing or invalid".to_owned(),
         "Токен доступа не найден или не активен.\nВы можете выпустить новый токен по ссылке https://www.tinkoff.ru/invest/settings/".to_owned())
    } else if str_eq(code, "40004") {
        ("Working with orders is not available with this account".to_owned(),
         "Выставление заявок недоступно с текущего аккаунта.".to_owned())
    } else if str_eq(code, "30001") {
        ("missing parameter: 'from'".to_owned(),
         "Входной параметр *from* является обязательным.\nУкажите корректный параметр *from*.".to_owned())
    } else if str_eq(code, "30083") {
        ("order_type is invalid".to_owned(),
         "Некорректный тип заявки.".to_owned())
    } else if str_eq(code, "30027") {
        ("missing parameter: 'order_id'".to_owned(),
         "Входной параметр *order_id* является обязательным.\nУкажите корректный параметр *order_id*.".to_owned())
    } else if str_eq(code, "30065") {
        ("missing parameter: 'task_id'".to_owned(),
         "Входной параметр *task_id* является обязательным.\nУкажите корректный параметр *task_id*.".to_owned())
    } else if str_eq(code, "30070") {
        ("'from' can't be more than the current date".to_owned(),
         "Входной параметр *from* имеет некорректное значение.\nУкажите корректный параметр.".to_owned())
    } else if str_eq(code, "30002") {
        ("the required period should not exceed 7 days".to_owned(),
         "Запрошенный период не может превышать 7 дней.\nУкажите корректный период.".to_owned())
    } else if str_eq(code, "30022") {
        ("missing parameter: 'state'".to_owned(),
         "Входной параметр *state* является обязательным.\nУкажите корректный параметр *state*.\nСписок доступных значений: https://tinkoff.github.io/investAPI/operations/#operationstate.".to_owned())
    } else if str_eq(code, "30033") {
        ("missing parameter: 'trade_clearing_account' or 'class_code'".to_owned(),
         "Параметр *trade_clearing_account* или *class_code* не может быть пустым.".to_owned())
    } else if str_eq(code, "80003") {
        ("The limit on SMS sending has been exceeded, try again in a minute".to_owned(),
         "Превышен лимит на отправку СМС, попробуйте через минуту.".to_owned())
    } else if str_eq(code, "30049") {
        ("post order error: %s".to_owned(),
         "Ошибка метода выставления торгового поручения.\nПодробнее в тексте ошибки.".to_owned())
    } else if str_eq(code, "50002") {
        ("instrument not found".to_owned(),
         "Инструмент не найден.\nУкажите корректный идентификатор инструмента.".to_owned())
    } else if str_eq(code, "30048") {
        ("instrument type is not bond".to_owned(),
         "Метод предназначен только для запроса информации по облигации.\nПередайте во входные параметры метода идентификатор облигации.".to_owned())
    } else if str_eq(code, "30019") {
        ("missing parameter: 'direction'".to_owned(),
         "Входной параметр *direction* является обязательным.\nУкажите корректный параметр *direction*.".to_owned())
    } else if str_eq(code, "30012") {
        ("'to' can't be less than 'from'".to_owned(),
         "Входной параметр *to* не может быть меньше параметра *from*.\nУкажите корректные параметры *from* и *to*.".to_owned())
    } else if str_eq(code, "30005") {
        ("'id_type' is invalid".to_owned(),
         "Входной параметр *id_type* имеет некорректное значение.\nСписок доступных значений: https://tinkoff.github.io/investAPI/instruments#instrumentidtype.".to_owned())
    } else if str_eq(code, "30036") {
        ("missing parameter: 'stop_price'".to_owned(),
         "Входной параметр *stop_price* является обязательным.\nУкажите корректный параметр *stop_price*.".to_owned())
    } else if str_eq(code, "30051") {
        ("account margin status is disabled".to_owned(),
         "Для данного договора недоступна маржинальная торговля.".to_owned())
    } else if str_eq(code, "30053") {
        ("post stop_order error: %s".to_owned(),
         "Ошибка метода выставления стоп-заявки.\nПодробнее в тексте ошибки.".to_owned())
    } else if str_eq(code, "30058") {
        ("task not completed yet, please try again later".to_owned(),
         "Выполнение задачи еще не завершено, попробуйте позже.".to_owned())
    } else if str_eq(code, "30092") {
        ("trading unavailable on weekends".to_owned(),
         "Торги недоступны по нерабочим дням.".to_owned())
    } else if str_eq(code, "50001") {
        ("exchange not found".to_owned(),
         "Биржа не найдена по переданному *exchange_id*.\nУкажите корректный *exchange_id*.".to_owned())
    } else if str_eq(code, "50010") {
        ("brand not found".to_owned(),
         "Бренд не найден.\nУкажите корректный идентификатор бренда.".to_owned())
    } else if str_eq(code, "70002") {
        ("internal network error".to_owned(),
         "Неизвестная сетевая ошибка, попробуйте выполнить запрос позднее.\nЕсли ошибка повторяется, обратитесь в службу технической поддержки.".to_owned())
    } else if str_eq(code, "30066") {
        ("missing parameter: 'payload'".to_owned(),
         "Входной параметр *payload* является обязательным.\nУкажите корректный параметр *payload*.".to_owned())
    } else if str_eq(code, "12001") {
        ("Method is unimplemented".to_owned(),
         "Метод не реализован.".to_owned())
    } else if str_eq(code, "80002") {
        ("request limit exceeded".to_owned(),
         "Превышен лимит запросов в минуту. Подробнее: https://tinkoff.github.io/investAPI/limits/".to_owned())
    } else if str_eq(code, "50006") {
        ("stop-order not found".to_owned(),
         "Стоп-заявка не найдена по переданному *stop_order_id*.\nУкажите корректный *stop_order_id*.".to_owned())
    } else if str_eq(code, "30008") {
        ("missing parameter: 'figi'".to_owned(),
         "Входной параметр *figi* является обязательным.\nУкажите корректный параметр *figi*.".to_owned())
    } else if str_eq(code, "30015") {
        ("missing parameter: 'quantity'".to_owned(),
         "Входной параметр *quantity* является обязательным.\nУкажите корректный параметр *quantity*.".to_owned())
    } else if str_eq(code, "30016") {
        ("'quantity' is invalid".to_owned(),
         "Входной параметр *quantity* имеет некорректное значение.\nУкажите корректный параметр *quantity*.".to_owned())
    } else if str_eq(code, "30038") {
        ("'stop_order_type' is invalid".to_owned(),
         "Входной параметр *stop_order_type* имеет некорректное значение.\nСписок доступных значений: https://tinkoff.github.io/investAPI/stoporders/#stopordertype.".to_owned())
    } else if str_eq(code, "30042") {
        ("not enough assets for a margin trade".to_owned(),
         "Недостаточно активов для маржинальной сделки.\nПроверьте маржинальные показатели счёта.".to_owned())
    } else if str_eq(code, "30082") {
        ("account status is blocked".to_owned(),
         "Аккаунт заблокирован.".to_owned())
    } else if str_eq(code, "50004") {
        ("account not found".to_owned(),
         "Счёт не найден по переданному *account_id*.\nУкажите корректный *account_id*.".to_owned())
    } else if str_eq(code, "90001") {
        ("need confirmation: %s".to_owned(),
         "Требуется подтверждение операции.\nПодробнее в тексте ошибки.".to_owned())
    } else if str_eq(code, "90002") {
        ("only for qualified investors".to_owned(),
         "Торговля этим инструментом доступна только квалифицированным инвесторам.".to_owned())
    } else if str_eq(code, "30078") {
        ("Incorrect minimum price increment".to_owned(),
         "Некорректный шаг изменения цены.".to_owned())
    } else if str_eq(code, "30067") {
        ("'action_type' is invalid".to_owned(),
         "Некорректное значение *action_type*.\nВыберите допустимое значение.".to_owned())
    } else if str_eq(code, "50005") {
        ("order not found".to_owned(),
         "Торговое поручение не найдено по переданному *order_id*.\nУкажите корректный *order_id*.".to_owned())
    } else if str_eq(code, "50009") {
        ("asset not found".to_owned(),
         "Актив не найден.\nУкажите корректный идентификатор актива.".to_owned())
    } else if str_eq(code, "30017") {
        ("missing parameter: 'price'".to_owned(),
         "Входной параметр *price* является обязательным.\nУкажите корректный параметр *price*.".to_owned())
    } else if str_eq(code, "30006") {
        ("missing parameter: 'id_type'".to_owned(),
         "Входной параметр *id_type* является обязательным.\nУкажите корректный параметр *id_type*.".to_owned())
    } else if str_eq(code, "30007") {
        ("missing parameter: 'id'".to_owned(),
         "Входной параметр *id* является обязательным.\nУкажите корректный параметр *id*.".to_owned())
    } else if str_eq(code, "30050") {
        ("'instrument_status' is invalid".to_owned(),
         "Входной параметр *instrument_status* имеет некорректное значение.\nСписок доступных значений: https://tinkoff.github.io/investAPI/instruments#instrumentstatus.".to_owned())
    } else if str_eq(code, "30023") {
        ("invalid parameter: 'state'".to_owned(),
         "Входной параметр *state* имеет некорректное значение.\nУкажите корректный параметр *state*.\nСписок доступных значений: https://tinkoff.github.io/investAPI/operations/#operationstate.".to_owned())
    } else if str_eq(code, "30045") {
        ("missing parameter: 'ticker'".to_owned(),
         "Входной параметр *ticker* является обязательным.\nУкажите корректный параметр *ticker*.".to_owned())
    } else if str_eq(code, "30052") {
        ("instrument forbidden for trading by API".to_owned(),
         "Для данного инструмента недоступна торговля через API.".to_owned())
    } else if str_eq(code, "30055") {
        ("order_id cannot be longer than 36 characters".to_owned(),
         "order_id не может быть длиннее 36 символов".to_owned())
    } else if str_eq(code, "30009") {
        ("'from' is invalid".to_owned(),
         "Входной параметр *from* имеет некорректное значение.\nУкажите корректный параметр *from*.".to_owned())
    } else if str_eq(code, "30010") {
        ("'to' is invalid".to_owned(),
         "Входной параметр *to* имеет некорректное значение.\nУкажите корректный параметр *to*.".to_owned())
    } else if str_eq(code, "30057") {
        ("the order is a duplicate, but the order report was not found".to_owned(),
         "Заявка является дублем, но отчет по заявке не найден".to_owned())
    } else if str_eq(code, "30069") {
        ("Invalid parameter: 'limit'".to_owned(),
         "Входной параметр *limit* имеет некорректное значение.\nЗначение должно быть меньше или равно 1000.".to_owned())
    } else if str_eq(code, "40002") {
        ("insufficient privileges".to_owned(),
         "Недостаточно прав для совершения операции.\nТокен доступа имеет уровень прав read-only.\nПодробнее: https://tinkoff.github.io/investAPI/index#_2".to_owned())
    } else if str_eq(code, "30090") {
        ("missing parameter: 'siebel_id'".to_owned(),
         "Входной параметр *siebel_id* является обязательным.\nУкажите корректный параметр *siebel_id*.".to_owned())
    } else if str_eq(code, "30077") {
        ("not available for OTC instruments".to_owned(),
         "Метод недоступен для внебиржевых инструментов.".to_owned())
    } else if str_eq(code, "30087") {
        ("missing parameter: query".to_owned(),
         "Входной параметр *query* является обязательным.\nУкажите не пустой параметр *query*.".to_owned())
    } else if str_eq(code, "30025") {
        ("missing parameter: 'order_type'".to_owned(),
         "Входной параметр *order_type* является обязательным.\nУкажите корректный параметр *order_type*.".to_owned())
    } else if str_eq(code, "30030") {
        ("'idempotency_key' is invalid".to_owned(),
         "Входной параметр *idempotency_key* имеет некорректное значение.\nУкажите корректный параметр *idempotency_key*.".to_owned())
    } else if str_eq(code, "30088") {
        ("'from' and 'to' must have the same year".to_owned(),
         "Запрашиваемые даты должны быть в рамках одного года.".to_owned())
    } else {
        ("N/A".to_owned(), "N/A".to_owned())
    }
}

/// The category is `Unknown` exactly when the catalog has no entry for the
/// code, in which case message and description read `"N/A"`.
#[verifier::rlimit(100)]
pub proof fn lemma_unknown_iff_no_entry(code: Seq<char>)
    ensures
        error_type_of(code) == ErrorType::Unknown <==> message_of(code) == "N/A"@,
        error_type_of(code) == ErrorType::Unknown <==> description_of(code) == "N/A"@,
{
    reveal_strlit("N/A");
    assert("N/A"@.len() == 3);
    reveal_strlit("task not found");
    assert("task not found"@.len() == 14);
    reveal_strlit("the required period should not exceed 31 days");
    assert("the required period should not exceed 31 days"@.len() == 45);
    reveal_strlit("cancel stop-order error: %s");
    assert("cancel stop-order error: %s"@.len() == 27);
    reveal_strlit("internal error");
    assert("internal error"@.len() == 14);
    reveal_strlit("missing parameter: 'account_id'");
    assert("missing parameter: 'account_id'"@.len() == 31);
    reveal_strlit("price currency does not match the settlement currency");
    assert("price currency does not match the settlement currency"@.len() == 53);
    reveal_strlit("instrument type is not a share or etf");
    assert("instrument type is not a share or etf"@.len() == 37);
    reveal_strlit("'to' value out of range");
    assert("'to' value out of range"@.len() == 23);
    reveal_strlit("'class_code' require for 'id_type' = 'ticker'");
    assert("'class_code' require for 'id_type' = 'ticker'"@.len() == 45);
    reveal_strlit("interval is invalid");
    assert("interval is invalid"@.len() == 19);
    reveal_strlit("'order id' is invalid");
    assert("'order id' is invalid"@.len() == 21);
    reveal_strlit("'expiration_type' is invalid");
    assert("'expiration_type' is invalid"@.len() == 28);
    reveal_strlit("price in points is available only for futures and bonds");
    assert("price in points is available only for futures and bonds"@.len() == 55);
    reveal_strlit("internal error, please try again later");
    assert("internal error, please try again later"@.len() == 38);
    reveal_strlit("missing parameter: 'to'");
    assert("missing parameter: 'to'"@.len() == 23);
    reveal_strlit("the maximum request period for the given candle interval has been exceeded");
    assert("the maximum request period for the given candle interval has been exceeded"@.len() == 74);
    reveal_strlit("limit of open streams exceeded");
    assert("limit of open streams exceeded"@.len() == 30);
    reveal_strlit("no orderbook provider");
    assert("no orderbook provider"@.len() == 21);
    reveal_strlit("missing parameter: 'depth'");
    assert("missing parameter: 'depth'"@.len() == 26);
    reveal_strlit("cancel order error: %s");
    assert("cancel order error: %s"@.len() == 22);
    reveal_strlit("instrument is not available for trading");
    assert("instrument is not available for trading"@.len() == 39);
    reveal_strlit("'from' can't be less than the current date");
    assert("'from' can't be less than the current date"@.len() == 42);
    reveal_strlit("missing parameter: 'stop_order_type'");
    assert("missing parameter: 'stop_order_type'"@.len() == 36);
    reveal_strlit("missing parameter: 'expiration_type'");
    assert("missing parameter: 'expiration_type'"@.len() == 36);
    reveal_strlit("'to' must not be later than %s");
    assert("'to' must not be later than %s"@.len() == 30);
    reveal_strlit("not enough balance");
    assert("not enough balance"@.len() == 18);
    reveal_strlit("invalid parameter: 'order_type'");
    assert("invalid parameter: 'order_type'"@.len() == 31);
    reveal_strlit("missing parameter: 'idempotency_key'");
    assert("missing parameter: 'idempotency_key'"@.len() == 36);
    reveal_strlit("depth is invalid");
    assert("depth is invalid"@.len() == 16);
    reveal_strlit("price is invalid");
    assert("price is invalid"@.len() == 16);
    reveal_strlit("'expire_date' is invalid");
    assert("'expire_date' is invalid"@.len() == 24);
    reveal_strlit("'direction' is invalid");
    assert("'direction' is invalid"@.len() == 22);
    reveal_strlit("the method is available only for futures");
    assert("the method is available only for futures"@.len() == 40);
    reveal_strlit("stop order settlement currency is not supported");
    assert("stop order settlement currency is not supported"@.len() == 47);
    reveal_strlit("'from' value out of range");
    assert("'from' value out of range"@.len() == 25);
    reveal_strlit("quantity must be positive");
    assert("quantity must be positive"@.len() == 25);
    reveal_strlit("maximum request period has been exceeded");
    assert("maximum request period has been exceeded"@.len() == 40);
    reveal_strlit("'expire_date' value out of range");
    assert("'expire_date' value out of range"@.len() == 32);
    reveal_strlit("Only limit order is allowed");
    assert("Only limit order is allowed"@.len() == 27);
    reveal_strlit("account status is closed");
    assert("account status is closed"@.len() == 24);
    reveal_strlit("year is invalid");
    assert("year is invalid"@.len() == 15);
    reveal_strlit("quantity of instruments can't be more than 100");
    assert("quantity of instruments can't be more than 100"@.len() == 46);
    reveal_strlit("authentication token is missing or invalid");
    assert("authentication token is missing or invalid"@.len() == 42);
    reveal_strlit("Working with orders is not available with this account");
    assert("Working with orders is not available with this account"@.len() == 54);
    reveal_strlit("missing parameter: 'from'");
    assert("missing parameter: 'from'"@.len() == 25);
    reveal_strlit("order_type is invalid");
    assert("order_type is invalid"@.len() == 21);
    reveal_strlit("missing parameter: 'order_id'");
    assert("missing parameter: 'order_id'"@.len() == 29);
    reveal_strlit("missing parameter: 'task_id'");
    assert("missing parameter: 'task_id'"@.len() == 28);
    reveal_strlit("'from' can't be more than the current date");
    assert("'from' can't be more than the current date"@.len() == 42);
    reveal_strlit("the required period should not exceed 7 days");
    assert("the required period should not exceed 7 days"@.len() == 44);
    reveal_strlit("missing parameter: 'state'");
    assert("missing parameter: 'state'"@.len() == 26);
    reveal_strlit("missing parameter: 'trade_clearing_account' or 'class_code'");
    assert("missing parameter: 'trade_clearing_account' or 'class_code'"@.len() == 59);
    reveal_strlit("The limit on SMS sending has been exceeded, try again in a minute");
    assert("The limit on SMS sending has been exceeded, try again in a minute"@.len() == 65);
    reveal_strlit("post order error: %s");
    assert("post order error: %s"@.len() == 20);
    reveal_strlit("instrument not found");
    assert("instrument not found"@.len() == 20);
    reveal_strlit("instrument type is not bond");
    assert("instrument type is not bond"@.len() == 27);
    reveal_strlit("missing parameter: 'direction'");
    assert("missing parameter: 'direction'"@.len() == 30);
    reveal_strlit("'to' can't be less than 'from'");
    assert("'to' can't be less than 'from'"@.len() == 30);
    reveal_strlit("'id_type' is invalid");
    assert("'id_type' is invalid"@.len() == 20);
    reveal_strlit("missing parameter: 'stop_price'");
    assert("missing parameter: 'stop_price'"@.len() == 31);
    reveal_strlit("account margin status is disabled");
    assert("account margin status is disabled"@.len() == 33);
    reveal_strlit("post stop_order error: %s");
    assert("post stop_order error: %s"@.len() == 25);
    reveal_strlit("task not completed yet, please try again later");
    assert("task not completed yet, please try again later"@.len() == 46);
    reveal_strlit("trading unavailable on weekends");
    assert("trading unavailable on weekends"@.len() == 31);
    reveal_strlit("exchange not found");
    assert("exchange not found"@.len() == 18);
    reveal_strlit("brand not found");
    assert("brand not found"@.len() == 15);
    reveal_strlit("internal network error");
    assert("internal network error"@.len() == 22);
    reveal_strlit("missing parameter: 'payload'");
    assert("missing parameter: 'payload'"@.len() == 28);
    reveal_strlit("Method is unimplemented");
    assert("Method is unimplemented"@.len() == 23);
    reveal_strlit("request limit exceeded");
    assert("request limit exceeded"@.len() == 22);
    reveal_strlit("stop-order not found");
    assert("stop-order not found"@.len() == 20);
    reveal_strlit("missing parameter: 'figi'");
    assert("missing parameter: 'figi'"@.len() == 25);
    reveal_strlit("missing parameter: 'quantity'");
    assert("missing parameter: 'quantity'"@.len() == 29);
    reveal_strlit("'quantity' is invalid");
    assert("'quantity' is invalid"@.len() == 21);
    reveal_strlit("'stop_order_type' is invalid");
    assert("'stop_order_type' is invalid"@.len() == 28);
    reveal_strlit("not enough assets for a margin trade");
    assert("not enough assets for a margin trade"@.len() == 36);
    reveal_strlit("account status is blocked");
    assert("account status is blocked"@.len() == 25);
    reveal_strlit("account not found");
    assert("account not found"@.len() == 17);
    reveal_strlit("need confirmation: %s");
    assert("need confirmation: %s"@.len() == 21);
    reveal_strlit("only for qualified investors");
    assert("only for qualified investors"@.len() == 28);
    reveal_strlit("Incorrect minimum price increment");
    assert("Incorrect minimum price increment"@.len() == 33);
    reveal_strlit("'action_type' is invalid");
    assert("'action_type' is invalid"@.len() == 24);
    reveal_strlit("order not found");
    assert("order not found"@.len() == 15);
    reveal_strlit("asset not found");
    assert("asset not found"@.len() == 15);
    reveal_strlit("missing parameter: 'price'");
    assert("missing parameter: 'price'"@.len() == 26);
    reveal_strlit("missing parameter: 'id_type'");
    assert("missing parameter: 'id_type'"@.len() == 28);
    reveal_strlit("missing parameter: 'id'");
    assert("missing parameter: 'id'"@.len() == 23);
    reveal_strlit("'instrument_status' is invalid");
    assert("'instrument_status' is invalid"@.len() == 30);
    reveal_strlit("invalid parameter: 'state'");
    assert("invalid parameter: 'state'"@.len() == 26);
    reveal_strlit("missing parameter: 'ticker'");
    assert("missing parameter: 'ticker'"@.len() == 27);
    reveal_strlit("instrument forbidden for trading by API");
    assert("instrument forbidden for trading by API"@.len() == 39);
    reveal_strlit("order_id cannot be longer than 36 characters");
    assert("order_id cannot be longer than 36 characters"@.len() == 44);
    reveal_strlit("'from' is invalid");
    assert("'from' is invalid"@.len() == 17);
    reveal_strlit("'to' is invalid");
    assert("'to' is invalid"@.len() == 15);
    reveal_strlit("the order is a duplicate, but the order report was not found");
    assert("the order is a duplicate, but the order report was not found"@.len() == 60);
    reveal_strlit("Invalid parameter: 'limit'");
    assert("Invalid parameter: 'limit'"@.len() == 26);
    reveal_strlit("insufficient privileges");
    assert("insufficient privileges"@.len() == 23);
    reveal_strlit("missing parameter: 'siebel_id'");
    assert("missing parameter: 'siebel_id'"@.len() == 30);
    reveal_strlit("not available for OTC instruments");
    assert("not available for OTC instruments"@.len() == 33);
    reveal_strlit("missing parameter: query");
    assert("missing parameter: query"@.len() == 24);
    reveal_strlit("missing parameter: 'order_type'");
    assert("missing parameter: 'order_type'"@.len() == 31);
    reveal_strlit("'idempotency_key' is invalid");
    assert("'idempotency_key' is invalid"@.len() == 28);
    reveal_strlit("'from' and 'to' must have the same year");
    assert("'from' and 'to' must have the same year"@.len() == 39);
    reveal_strlit("Задача не найдена.");
    assert("Задача не найдена."@.len() == 18);
    reveal_strlit("Запрошенный период не может превышать 31 дня.\nУкажите корректный период.");
    assert("Запрошенный период не может превышать 31 дня.\nУкажите корректный период."@.len() == 72);
    reveal_strlit("Ошибка метода отмены стоп-заявки.\nПодробнее в тексте ошибки.");
    assert("Ошибка метода отмены стоп-заявки.\nПодробнее в тексте ошибки."@.len() == 60);
    reveal_strlit("Внутренняя ошибка сервиса.\nЕсли ошибка повторяется, обратитесь в службу технической поддержки.");
    assert("Внутренняя ошибка сервиса.\nЕсли ошибка повторяется, обратитесь в службу технической поддержки."@.len() == 94);
    reveal_strlit("Входной параметр *account_id* является обязательным.\nУкажите корректный параметр *account_id*.");
    assert("Входной параметр *account_id* является обязательным.\nУкажите корректный параметр *account_id*."@.len() == 94);
    reveal_strlit("Валюта цены не совпадает с валютой расчётов по инструменту.\nУкажите корректную валюту цены.");
    assert("Валюта цены не совпадает с валютой расчётов по инструменту.\nУкажите корректную валюту цены."@.len() == 91);
    reveal_strlit("Тип инструмента не инвестиционный фонд или акция");
    assert("Тип инструмента не инвестиционный фонд или акция"@.len() == 48);
    reveal_strlit("Входной параметр *to* имеет некорректное значение.\nУкажите значение в пределах от 1970-01-01T00:00:00Z до 2099-12-31T23:59:59.999999999Z включительно.");
    assert("Входной параметр *to* имеет некорректное значение.\nУкажите значение в пределах от 1970-01-01T00:00:00Z до 2099-12-31T23:59:59.999999999Z включительно."@.len() == 150);
    reveal_strlit("Входной параметр *class_code* не может быть пустым при поиске по тикеру.\nУкажите корректный параметр *class_code*.\nПодробнее: https://tinkoff.github.io/investAPI/faq_identification/.");
    assert("Входной параметр *class_code* не может быть пустым при поиске по тикеру.\nУкажите корректный параметр *class_code*.\nПодробнее: https://tinkoff.github.io/investAPI/faq_identification/."@.len() == 182);
    reveal_strlit("Входной параметр *interval* имеет некорректное значение.\nСписок доступных значений: https://tinkoff.github.io/investAPI/marketdata#subscriptioninterval.");
    assert("Входной параметр *interval* имеет некорректное значение.\nСписок доступных значений: https://tinkoff.github.io/investAPI/marketdata#subscriptioninterval."@.len() == 152);
    reveal_strlit("Входной параметр *order_id* имеет некорректное значение.\nУкажите корректный параметр *order_id*.");
    assert("Входной параметр *order_id* имеет некорректное значение.\nУкажите корректный параметр *order_id*."@.len() == 96);
    reveal_strlit("Входной параметр *expiration_type* имеет некорректное значение.\nСписок доступных значений: https://tinkoff.github.io/investAPI/stoporders/#stoporderexpirationtype.");
    assert("Входной параметр *expiration_type* имеет некорректное значение.\nСписок доступных значений: https://tinkoff.github.io/investAPI/stoporders/#stoporderexpirationtype."@.len() == 163);
    reveal_strlit("Тип цены в пунктах доступен только для фьючерсов и облигаций.");
    assert("Тип цены в пунктах доступен только для фьючерсов и облигаций."@.len() == 61);
    reveal_strlit("Внутренняя ошибка сервиса, попробуйте выполнить запрос позднее.\nЕсли ошибка повторяется, обратитесь в службу технической поддержки.");
    assert("Внутренняя ошибка сервиса, попробуйте выполнить запрос позднее.\nЕсли ошибка повторяется, обратитесь в службу технической поддержки."@.len() == 131);
    reveal_strlit("Входной параметр *to* является обязательным.\nУкажите корректный параметр *to*.");
    assert("Входной параметр *to* является обязательным.\nУкажите корректный параметр *to*."@.len() == 78);
    reveal_strlit("Превышен максимальный период запроса для данного интервала свечи.\nУкажите корректный интервал.");
    assert("Превышен максимальный период запроса для данного интервала свечи.\nУкажите корректный интервал."@.len() == 94);
    reveal_strlit("Превышен лимит одновременных открытых stream-соединений. Подробнее: https://tinkoff.github.io/investAPI/limits/");
    assert("Превышен лимит одновременных открытых stream-соединений. Подробнее: https://tinkoff.github.io/investAPI/limits/"@.len() == 111);
    reveal_strlit("Отсутствует источник данных по стаканам.");
    assert("Отсутствует источник данных по стаканам."@.len() == 40);
    reveal_strlit("Входной параметр *depth* является обязательным.\nУкажите корректный параметр *depth*.");
    assert("Входной параметр *depth* является обязательным.\nУкажите корректный параметр *depth*."@.len() == 84);
    reveal_strlit("Ошибка метода отмены заявки.\nПодробнее в тексте ошибки.");
    assert("Ошибка метода отмены заявки.\nПодробнее в тексте ошибки."@.len() == 55);
    reveal_strlit("Инструмент недоступен для торгов.");
    assert("Инструмент недоступен для торгов."@.len() == 33);
    reveal_strlit("Входной параметр *from* не может быть меньше текущей даты.\nУкажите корректный параметр *from*.");
    assert("Входной параметр *from* не может быть меньше текущей даты.\nУкажите корректный параметр *from*."@.len() == 94);
    reveal_strlit("Входной параметр *stop_order_type* является обязательным.\nУкажите корректный параметр *stop_order_type*.");
    assert("Входной параметр *stop_order_type* является обязательным.\nУкажите корректный параметр *stop_order_type*."@.len() == 104);
    reveal_strlit("Входной параметр *expiration_type* является обязательным.\nУкажите корректный параметр *expiration_type*.");
    assert("Входной параметр *expiration_type* является обязательным.\nУкажите корректный параметр *expiration_type*."@.len() == 104);
    reveal_strlit("Поле to не должно быть позднее даты, указанной в тексте ошибки.\nДата указана в формате ISO 8601.");
    assert("Поле to не должно быть позднее даты, указанной в тексте ошибки.\nДата указана в формате ISO 8601."@.len() == 96);
    reveal_strlit("Недостаточно средств для совершения сделки (ошибка песочницы).\nПополните баланс нужной валюты.");
    assert("Недостаточно средств для совершения сделки (ошибка песочницы).\nПополните баланс нужной валюты."@.len() == 94);
    reveal_strlit("Входной параметр *order_type* имеет некорректное значение.\nУкажите корректный параметр *order_type*.");
    assert("Входной параметр *order_type* имеет некорректное значение.\nУкажите корректный параметр *order_type*."@.len() == 100);
    reveal_strlit("Входной параметр *idempotency_key* является обязательным.\nУкажите корректный параметр *idempotency_key*.");
    assert("Входной параметр *idempotency_key* является обязательным.\nУкажите корректный параметр *idempotency_key*."@.len() == 104);
    reveal_strlit("Входной параметр *depth* имеет некорректное значение.\nУкажите корректный параметр *depth*.");
    assert("Входной параметр *depth* имеет некорректное значение.\nУкажите корректный параметр *depth*."@.len() == 90);
    reveal_strlit("Входной параметр *price* имеет некорректное значение.\nУкажите корректный параметр *price*.");
    assert("Входной параметр *price* имеет некорректное значение.\nУкажите корректный параметр *price*."@.len() == 90);
    reveal_strlit("Входной параметр *expire_date* имеет некорректное значение.\nУкажите корректный параметр *expire_date*.");
    assert("Входной параметр *expire_date* имеет некорректное значение.\nУкажите корректный параметр *expire_date*."@.len() == 102);
    reveal_strlit("Входной параметр *direction* имеет некорректное значение.");
    assert("Входной параметр *direction* имеет некорректное значение."@.len() == 57);
    reveal_strlit("Метод предназначен только для работы с фьючерсами.\nПередайте во входные параметры метода идентификатор фьючерса.");
    assert("Метод предназначен только для работы с фьючерсами.\nПередайте во входные параметры метода идентификатор фьючерса."@.len() == 112);
    reveal_strlit("Валюта выставления стоп-заявки не поддерживается");
    assert("Валюта выставления стоп-заявки не поддерживается"@.len() == 48);
    reveal_strlit("Входной параметр *from* имеет некорректное значение.\nУкажите значение в пределах от 1970-01-01T00:00:00Z до 2099-12-31T23:59:59.999999999Z включительно.");
    assert("Входной параметр *from* имеет некорректное значение.\nУкажите значение в пределах от 1970-01-01T00:00:00Z до 2099-12-31T23:59:59.999999999Z включительно."@.len() == 152);
    reveal_strlit("Количество лотов должно быть положительным числом.");
    assert("Количество лотов должно быть положительным числом."@.len() == 50);
    reveal_strlit("Превышен лимит запрашиваемого периода.");
    assert("Превышен лимит запрашиваемого периода."@.len() == 38);
    reveal_strlit("Входной параметр *expire_date* имеет некорректное значение.\nДата должна быть не ранее текущей и не позднее 2099-12-31T23:59:59.999999999Z.");
    assert("Входной параметр *expire_date* имеет некорректное значение.\nДата должна быть не ранее текущей и не позднее 2099-12-31T23:59:59.999999999Z."@.len() == 138);
    reveal_strlit("В настоящий момент возможно выставление только лимитного торгового поручения.");
    assert("В настоящий момент возможно выставление только лимитного торгового поручения."@.len() == 77);
    reveal_strlit("Аккаунт закрыт.");
    assert("Аккаунт закрыт."@.len() == 15);
    reveal_strlit("Некорректный год.");
    assert("Некорректный год."@.len() == 17);
    reveal_strlit("Количество инструментов не может превышать 100.");
    assert("Количество инструментов не может превышать 100."@.len() == 47);
    reveal_strlit("Токен доступа не найден или не активен.\nВы можете выпустить новый токен по ссылке https://www.tinkoff.ru/invest/settings/");
    assert("Токен доступа не найден или не активен.\nВы можете выпустить новый токен по ссылке https://www.tinkoff.ru/invest/settings/"@.len() == 121);
    reveal_strlit("Выставление заявок недоступно с текущего аккаунта.");
    assert("Выставление заявок недоступно с текущего аккаунта."@.len() == 50);
    reveal_strlit("Входной параметр *from* является обязательным.\nУкажите корректный параметр *from*.");
    assert("Входной параметр *from* является обязательным.\nУкажите корректный параметр *from*."@.len() == 82);
    reveal_strlit("Некорректный тип заявки.");
    assert("Некорректный тип заявки."@.len() == 24);
    reveal_strlit("Входной параметр *order_id* является обязательным.\nУкажите корректный параметр *order_id*.");
    assert("Входной параметр *order_id* является обязательным.\nУкажите корректный параметр *order_id*."@.len() == 90);
    reveal_strlit("Входной параметр *task_id* является обязательным.\nУкажите корректный параметр *task_id*.");
    assert("Входной параметр *task_id* является обязательным.\nУкажите корректный параметр *task_id*."@.len() == 88);
    reveal_strlit("Входной параметр *from* имеет некорректное значение.\nУкажите корректный параметр.");
    assert("Входной параметр *from* имеет некорректное значение.\nУкажите корректный параметр."@.len() == 81);
    reveal_strlit("Запрошенный период не может превышать 7 дней.\nУкажите корректный период.");
    assert("Запрошенный период не может превышать 7 дней.\nУкажите корректный период."@.len() == 72);
    reveal_strlit("Входной параметр *state* является обязательным.\nУкажите корректный параметр *state*.\nСписок доступных значений: https://tinkoff.github.io/investAPI/operations/#operationstate.");
    assert("Входной параметр *state* является обязательным.\nУкажите корректный параметр *state*.\nСписок доступных значений: https://tinkoff.github.io/investAPI/operations/#operationstate."@.len() == 175);
    reveal_strlit("Параметр *trade_clearing_account* или *class_code* не может быть пустым.");
    assert("Параметр *trade_clearing_account* или *class_code* не может быть пустым."@.len() == 72);
    reveal_strlit("Превышен лимит на отправку СМС, попробуйте через минуту.");
    assert("Превышен лимит на отправку СМС, попробуйте через минуту."@.len() == 56);
    reveal_strlit("Ошибка метода выставления торгового поручения.\nПодробнее в тексте ошибки.");
    assert("Ошибка метода выставления торгового поручения.\nПодробнее в тексте ошибки."@.len() == 73);
    reveal_strlit("Инструмент не найден.\nУкажите корректный идентификатор инструмента.");
    assert("Инструмент не найден.\nУкажите корректный идентификатор инструмента."@.len() == 67);
    reveal_strlit("Метод предназначен только для запроса информации по облигации.\nПередайте во входные параметры метода идентификатор облигации.");
    assert("Метод предназначен только для запроса информации по облигации.\nПередайте во входные параметры метода идентификатор облигации."@.len() == 125);
    reveal_strlit("Входной параметр *direction* является обязательным.\nУкажите корректный параметр *direction*.");
    assert("Входной параметр *direction* является обязательным.\nУкажите корректный параметр *direction*."@.len() == 92);
    reveal_strlit("Входной параметр *to* не может быть меньше параметра *from*.\nУкажите корректные параметры *from* и *to*.");
    assert("Входной параметр *to* не может быть меньше параметра *from*.\nУкажите корректные параметры *from* и *to*."@.len() == 104);
    reveal_strlit("Входной параметр *id_type* имеет некорректное значение.\nСписок доступных значений: https://tinkoff.github.io/investAPI/instruments#instrumentidtype.");
    assert("Входной параметр *id_type* имеет некорректное значение.\nСписок доступных значений: https://tinkoff.github.io/investAPI/instruments#instrumentidtype."@.len() == 148);
    reveal_strlit("Входной параметр *stop_price* является обязательным.\nУкажите корректный параметр *stop_price*.");
    assert("Входной параметр *stop_price* является обязательным.\nУкажите корректный параметр *stop_price*."@.len() == 94);
    reveal_strlit("Для данного договора недоступна маржинальная торговля.");
    assert("Для данного договора недоступна маржинальная торговля."@.len() == 54);
    reveal_strlit("Ошибка метода выставления стоп-заявки.\nПодробнее в тексте ошибки.");
    assert("Ошибка метода выставления стоп-заявки.\nПодробнее в тексте ошибки."@.len() == 65);
    reveal_strlit("Выполнение задачи еще не завершено, попробуйте позже.");
    assert("Выполнение задачи еще не завершено, попробуйте позже."@.len() == 53);
    reveal_strlit("Торги недоступны по нерабочим дням.");
    assert("Торги недоступны по нерабочим дням."@.len() == 35);
    reveal_strlit("Биржа не найдена по переданному *exchange_id*.\nУкажите корректный *exchange_id*.");
    assert("Биржа не найдена по переданному *exchange_id*.\nУкажите корректный *exchange_id*."@.len() == 80);
    reveal_strlit("Бренд не найден.\nУкажите корректный идентификатор бренда.");
    assert("Бренд не найден.\nУкажите корректный идентификатор бренда."@.len() == 57);
    reveal_strlit("Неизвестная сетевая ошибка, попробуйте выполнить запрос позднее.\nЕсли ошибка повторяется, обратитесь в службу технической поддержки.");
    assert("Неизвестная сетевая ошибка, попробуйте выполнить запрос позднее.\nЕсли ошибка повторяется, обратитесь в службу технической поддержки."@.len() == 132);
    reveal_strlit("Входной параметр *payload* является обязательным.\nУкажите корректный параметр *payload*.");
    assert("Входной параметр *payload* является обязательным.\nУкажите корректный параметр *payload*."@.len() == 88);
    reveal_strlit("Метод не реализован.");
    assert("Метод не реализован."@.len() == 20);
    reveal_strlit("Превышен лимит запросов в минуту. Подробнее: https://tinkoff.github.io/investAPI/limits/");
    assert("Превышен лимит запросов в минуту. Подробнее: https://tinkoff.github.io/investAPI/limits/"@.len() == 88);
    reveal_strlit("Стоп-заявка не найдена по переданному *stop_order_id*.\nУкажите корректный *stop_order_id*.");
    assert("Стоп-заявка не найдена по переданному *stop_order_id*.\nУкажите корректный *stop_order_id*."@.len() == 90);
    reveal_strlit("Входной параметр *figi* является обязательным.\nУкажите корректный параметр *figi*.");
    assert("Входной параметр *figi* является обязательным.\nУкажите корректный параметр *figi*."@.len() == 82);
    reveal_strlit("Входной параметр *quantity* является обязательным.\nУкажите корректный параметр *quantity*.");
    assert("Входной параметр *quantity* является обязательным.\nУкажите корректный параметр *quantity*."@.len() == 90);
    reveal_strlit("Входной параметр *quantity* имеет некорректное значение.\nУкажите корректный параметр *quantity*.");
    assert("Входной параметр *quantity* имеет некорректное значение.\nУкажите корректный параметр *quantity*."@.len() == 96);
    reveal_strlit("Входной параметр *stop_order_type* имеет некорректное значение.\nСписок доступных значений: https://tinkoff.github.io/investAPI/stoporders/#stopordertype.");
    assert("Входной параметр *stop_order_type* имеет некорректное значение.\nСписок доступных значений: https://tinkoff.github.io/investAPI/stoporders/#stopordertype."@.len() == 153);
    reveal_strlit("Недостаточно активов для маржинальной сделки.\nПроверьте маржинальные показатели счёта.");
    assert("Недостаточно активов для маржинальной сделки.\nПроверьте маржинальные показатели счёта."@.len() == 86);
    reveal_strlit("Аккаунт заблокирован.");
    assert("Аккаунт заблокирован."@.len() == 21);
    reveal_strlit("Счёт не найден по переданному *account_id*.\nУкажите корректный *account_id*.");
    assert("Счёт не найден по переданному *account_id*.\nУкажите корректный *account_id*."@.len() == 76);
    reveal_strlit("Требуется подтверждение операции.\nПодробнее в тексте ошибки.");
    assert("Требуется подтверждение операции.\nПодробнее в тексте ошибки."@.len() == 60);
    reveal_strlit("Торговля этим инструментом доступна только квалифицированным инвесторам.");
    assert("Торговля этим инструментом доступна только квалифицированным инвесторам."@.len() == 72);
    reveal_strlit("Некорректный шаг изменения цены.");
    assert("Некорректный шаг изменения цены."@.len() == 32);
    reveal_strlit("Некорректное значение *action_type*.\nВыберите допустимое значение.");
    assert("Некорректное значение *action_type*.\nВыберите допустимое значение."@.len() == 66);
    reveal_strlit("Торговое поручение не найдено по переданному *order_id*.\nУкажите корректный *order_id*.");
    assert("Торговое поручение не найдено по переданному *order_id*.\nУкажите корректный *order_id*."@.len() == 87);
    reveal_strlit("Актив не найден.\nУкажите корректный идентификатор актива.");
    assert("Актив не найден.\nУкажите корректный идентификатор актива."@.len() == 57);
    reveal_strlit("Входной параметр *price* является обязательным.\nУкажите корректный параметр *price*.");
    assert("Входной параметр *price* является обязательным.\nУкажите корректный параметр *price*."@.len() == 84);
    reveal_strlit("Входной параметр *id_type* является обязательным.\nУкажите корректный параметр *id_type*.");
    assert("Входной параметр *id_type* является обязательным.\nУкажите корректный параметр *id_type*."@.len() == 88);
    reveal_strlit("Входной параметр *id* является обязательным.\nУкажите корректный параметр *id*.");
    assert("Входной параметр *id* является обязательным.\nУкажите корректный параметр *id*."@.len() == 78);
    reveal_strlit("Входной параметр *instrument_status* имеет некорректное значение.\nСписок доступных значений: https://tinkoff.github.io/investAPI/instruments#instrumentstatus.");
    assert("Входной параметр *instrument_status* имеет некорректное значение.\nСписок доступных значений: https://tinkoff.github.io/investAPI/instruments#instrumentstatus."@.len() == 158);
    reveal_strlit("Входной параметр *state* имеет некорректное значение.\nУкажите корректный параметр *state*.\nСписок доступных значений: https://tinkoff.github.io/investAPI/operations/#operationstate.");
    assert("Входной параметр *state* имеет некорректное значение.\nУкажите корректный параметр *state*.\nСписок доступных значений: https://tinkoff.github.io/investAPI/operations/#operationstate."@.len() == 181);
    reveal_strlit("Входной параметр *ticker* является обязательным.\nУкажите корректный параметр *ticker*.");
    assert("Входной параметр *ticker* является обязательным.\nУкажите корректный параметр *ticker*."@.len() == 86);
    reveal_strlit("Для данного инструмента недоступна торговля через API.");
    assert("Для данного инструмента недоступна торговля через API."@.len() == 54);
    reveal_strlit("order_id не может быть длиннее 36 символов");
    assert("order_id не может быть длиннее 36 символов"@.len() == 42);
    reveal_strlit("Входной параметр *from* имеет некорректное значение.\nУкажите корректный параметр *from*.");
    assert("Входной параметр *from* имеет некорректное значение.\nУкажите корректный параметр *from*."@.len() == 88);
    reveal_strlit("Входной параметр *to* имеет некорректное значение.\nУкажите корректный параметр *to*.");
    assert("Входной параметр *to* имеет некорректное значение.\nУкажите корректный параметр *to*."@.len() == 84);
    reveal_strlit("Заявка является дублем, но отчет по заявке не найден");
    assert("Заявка является дублем, но отчет по заявке не найден"@.len() == 52);
    reveal_strlit("Входной параметр *limit* имеет некорректное значение.\nЗначение должно быть меньше или равно 1000.");
    assert("Входной параметр *limit* имеет некорректное значение.\nЗначение должно быть меньше или равно 1000."@.len() == 97);
    reveal_strlit("Недостаточно прав для совершения операции.\nТокен доступа имеет уровень прав read-only.\nПодробнее: https://tinkoff.github.io/investAPI/index#_2");
    assert("Недостаточно прав для совершения операции.\nТокен доступа имеет уровень прав read-only.\nПодробнее: https://tinkoff.github.io/investAPI/index#_2"@.len() == 142);
    reveal_strlit("Входной параметр *siebel_id* является обязательным.\nУкажите корректный параметр *siebel_id*.");
    assert("Входной параметр *siebel_id* является обязательным.\nУкажите корректный параметр *siebel_id*."@.len() == 92);
    reveal_strlit("Метод недоступен для внебиржевых инструментов.");
    assert("Метод недоступен для внебиржевых инструментов."@.len() == 46);
    reveal_strlit("Входной параметр *query* является обязательным.\nУкажите не пустой параметр *query*.");
    assert("Входной параметр *query* является обязательным.\nУкажите не пустой параметр *query*."@.len() == 83);
    reveal_strlit("Входной параметр *order_type* является обязательным.\nУкажите корректный параметр *order_type*.");
    assert("Входной параметр *order_type* является обязательным.\nУкажите корректный параметр *order_type*."@.len() == 94);
    reveal_strlit("Входной параметр *idempotency_key* имеет некорректное значение.\nУкажите корректный параметр *idempotency_key*.");
    assert("Входной параметр *idempotency_key* имеет некорректное значение.\nУкажите корректный параметр *idempotency_key*."@.len() == 110);
    reveal_strlit("Запрашиваемые даты должны быть в рамках одного года.");
    assert("Запрашиваемые даты должны быть в рамках одного года."@.len() == 52);
}
/// The upper-snake-case name the catalog prints for a category.
pub open spec fn error_type_display(t: ErrorType) -> Seq<char> {
    match t {
        ErrorType::FailedPrecondition => "FAILED_PRECONDITION"@,
        ErrorType::InvalidArgument => "INVALID_ARGUMENT"@,
        ErrorType::NotFound => "NOT_FOUND"@,
        ErrorType::Unauthenticated => "UNAUTHENTICATED"@,
        ErrorType::Unimplemented => "UNIMPLEMENTED"@,
        ErrorType::ResourceExhausted => "RESOURCE_EXHAUSTED"@,
        ErrorType::PermissionDenied => "PERMISSION_DENIED"@,
        ErrorType::Internal => "INTERNAL"@,
        ErrorType::Unknown => "UNKNOWN"@,
    }
}

impl ErrorType {
    /// The category's printed name.
    pub fn display_name(&self) -> (r: String)
        ensures
            r@ == error_type_display(*self),
    {
        match self {
            Self::FailedPrecondition => "FAILED_PRECONDITION".to_owned(),
            Self::InvalidArgument => "INVALID_ARGUMENT".to_owned(),
            Self::NotFound => "NOT_FOUND".to_owned(),
            Self::Unauthenticated => "UNAUTHENTICATED".to_owned(),
            Self::Unimplemented => "UNIMPLEMENTED".to_owned(),
            Self::ResourceExhausted => "RESOURCE_EXHAUSTED".to_owned(),
            Self::PermissionDenied => "PERMISSION_DENIED".to_owned(),
            Self::Internal => "INTERNAL".to_owned(),
            _ => "UNKNOWN".to_owned(),
        }
    }
}

/// A transport failure classified against the provider's error catalog: the
/// category, the code, and the catalog's message and description for it.
#[derive(Debug)]
pub struct TinkoffInvestError {
    formatted_message: String,
    error_type: ErrorType,
    description: String,
    code: String,
}

impl TinkoffInvestError {
    /// The code the error was built from.
    pub closed spec fn spec_code(&self) -> Seq<char> {
        self.code@
    }

    /// The category the catalog assigns to the code.
    pub closed spec fn spec_error_type(&self) -> ErrorType {
        self.error_type
    }

    /// The catalog's message for the code.
    pub closed spec fn spec_message(&self) -> Seq<char> {
        self.formatted_message@
    }

    /// The catalog's description for the code.
    pub closed spec fn spec_description(&self) -> Seq<char> {
        self.description@
    }

    /// The error's fields agree with the catalog's entry for its code.
    pub open spec fn classified(&self) -> bool {
        &&& self.spec_error_type() == error_type_of(self.spec_code())
        &&& self.spec_message() == message_of(self.spec_code())
        &&& self.spec_description() == description_of(self.spec_code())
    }

    /// Classifies a provider error code against the catalog.
    pub fn for_code(code: &str) -> (r: Self)
        ensures
            r.spec_code() == code@,
            r.classified(),
    {
        let error_type = ErrorType::from_code(code);
        let (formatted_message, description) = get_description_by_code(code);
        TinkoffInvestError {
            code: code.to_owned(),
            error_type,
            description,
            formatted_message,
        }
    }

    pub fn formatted_message(&self) -> (r: &str)
        ensures
            r@ == self.spec_message(),
    {
        self.formatted_message.as_str()
    }

    pub fn error_type(&self) -> (r: &ErrorType)
        ensures
            *r == self.spec_error_type(),
    {
        &self.error_type
    }

    pub fn description(&self) -> (r: &str)
        ensures
            r@ == self.spec_description(),
    {
        self.description.as_str()
    }

    pub fn code(&self) -> (r: &str)
        ensures
            r@ == self.spec_code(),
    {
        self.code.as_str()
    }

    /// Classifies a transport failure: the status message carries the
    /// provider's error code. Whatever text the status holds, the resulting
    /// error agrees with the catalog's entry for it.
    pub fn from_status(status: tonic::Status) -> (r: Self)
        ensures
            r.classified(),
    {
        let code = status_message(&status);
        Self::for_code(code.as_str())
    }
}

impl TinkoffInvestError {
    /// The error printed on one line: the code in brackets, the category's
    /// name, and the message.
    pub fn display_message(&self) -> (r: String)
        ensures
            r@ == "["@ + self.spec_code() + "] "@ + error_type_display(self.spec_error_type())
                + ": "@ + self.spec_message(),
    {
        let mut r = "[".to_owned();
        r.append(self.code.as_str());
        r.append("] ");
        let name = self.error_type.display_name();
        r.append(name.as_str());
        r.append(": ");
        r.append(self.formatted_message.as_str());
        r
    }
}

#[verifier::external_type_specification]
#[verifier::external_body]
pub struct ExStatus(tonic::Status);

/// Relies on tonic::Status::message: the textual message of a gRPC status,
/// which this provider uses to carry its numeric error code.
#[verifier::external_body]
fn status_message(status: &tonic::Status) -> String {
    status.message().to_owned()
}

} // verus!
