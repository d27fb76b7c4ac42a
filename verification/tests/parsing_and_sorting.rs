use expenses_dash::enums::{CurrencyEnum, MonthEnum, TransactionType};
use expenses_dash::models::{CustomError, TransactionModel, UserModel};
use expenses_dash::sorting::sort;
use expenses_dash::tables::get_transactions_row;
use expenses_dash::text::{parse_i32, u8_to_string};
use expenses_dash::types::{CustomResponse, ShowMessage};
use expenses_dash::envelope::{classify_status, envelope_data, envelope_error, internal_error,
    StatusClass};

fn tx(day: Option<u8>, note: &str) -> TransactionModel {
    TransactionModel {
        transaction_id: format!("id-{}", note),
        kind: TransactionType::SAVING,
        amount_label: "3.25".to_string(),
        currency: CurrencyEnum::USD,
        note: Some(note.to_string()),
        day,
        month: MonthEnum::MARCH,
        year: 2024,
        exchange_rate_label: Some("39.1".to_string()),
        user_id: "u1".to_string(),
        user: None,
        category_id: "c1".to_string(),
        category: None,
    }
}

#[test]
fn month_from_u32_maps_the_year() {
    assert_eq!(MonthEnum::from_u32(1), Some(MonthEnum::JANUARY));
    assert_eq!(MonthEnum::from_u32(3), Some(MonthEnum::MARCH));
    assert_eq!(MonthEnum::from_u32(12), Some(MonthEnum::DECEMBER));
    assert_eq!(MonthEnum::from_u32(0), None);
    assert_eq!(MonthEnum::from_u32(13), None);
}

#[test]
fn month_from_string_accepts_service_labels() {
    assert_eq!(MonthEnum::from_string("January".to_string()), Some(MonthEnum::JANUARY));
    assert_eq!(MonthEnum::from_string("MARCH".to_string()), Some(MonthEnum::MARCH));
    assert_eq!(MonthEnum::from_string("DECEMBER".to_string()), Some(MonthEnum::DECEMBER));
    // January's label is capitalized, not upper case, in the listing
    assert_eq!(MonthEnum::from_string("JANUARY".to_string()), None);
    assert_eq!(MonthEnum::from_string("NotAMonth".to_string()), None);
}

#[test]
fn labels_spell_the_wire_names() {
    assert_eq!(MonthEnum::MARCH.label(), "MARCH");
    assert_eq!(MonthEnum::JANUARY.label(), "JANUARY");
    assert_eq!(CurrencyEnum::EUR.label(), "EUR");
    assert_eq!(TransactionType::INSTALLMENTS.label(), "INSTALLMENTS");
}

#[test]
fn u8_renders_in_decimal() {
    assert_eq!(u8_to_string(0), "0");
    assert_eq!(u8_to_string(7), "7");
    assert_eq!(u8_to_string(31), "31");
    assert_eq!(u8_to_string(100), "100");
    assert_eq!(u8_to_string(255), "255");
}

#[test]
fn year_labels_parse_like_numbers() {
    assert_eq!(parse_i32("2024"), Some(2024));
    assert_eq!(parse_i32("0"), Some(0));
    assert_eq!(parse_i32("+7"), Some(7));
    assert_eq!(parse_i32("-55"), Some(-55));
    assert_eq!(parse_i32("2147483647"), Some(i32::MAX));
    assert_eq!(parse_i32("-2147483648"), Some(i32::MIN));
}

#[test]
fn bad_year_labels_do_not_parse() {
    assert_eq!(parse_i32(""), None);
    assert_eq!(parse_i32("-"), None);
    assert_eq!(parse_i32("20a4"), None);
    assert_eq!(parse_i32(" 2024"), None);
    assert_eq!(parse_i32("2147483648"), None);
    assert_eq!(parse_i32("99999999999999999999"), None);
}

#[test]
fn sort_orders_days_ascending_with_dayless_last() {
    let mut rows = vec![
        tx(None, "first-none"),
        tx(Some(5), "five"),
        tx(None, "second-none"),
        tx(Some(2), "two"),
    ];
    sort(&mut rows);
    let days: Vec<Option<u8>> = rows.iter().map(|t| t.day).collect();
    assert_eq!(days, vec![Some(2), Some(5), None, None]);
    // the two day-less records keep their original relative order
    assert_eq!(rows[2].note.as_deref(), Some("first-none"));
    assert_eq!(rows[3].note.as_deref(), Some("second-none"));
}

#[test]
fn sort_is_stable_among_equal_days() {
    let mut rows = vec![
        tx(Some(4), "a"),
        tx(Some(4), "b"),
        tx(Some(1), "c"),
        tx(Some(4), "d"),
    ];
    sort(&mut rows);
    let notes: Vec<&str> = rows.iter().map(|t| t.note.as_deref().unwrap()).collect();
    assert_eq!(notes, vec!["c", "a", "b", "d"]);
}

#[test]
fn sort_of_empty_and_single_is_trivial() {
    let mut rows: Vec<TransactionModel> = vec![];
    sort(&mut rows);
    assert!(rows.is_empty());
    let mut one = vec![tx(None, "only")];
    sort(&mut one);
    assert_eq!(one.len(), 1);
    assert_eq!(one[0].note.as_deref(), Some("only"));
}

#[test]
fn rows_render_day_amount_and_note() {
    let rows = get_transactions_row(&vec![tx(Some(5), "lunch"), tx(None, "gift")]);
    assert_eq!(rows.len(), 2);
    assert_eq!(rows[0], vec!["5", "$3.25 USD", "lunch"]);
    assert_eq!(rows[1], vec!["", "$3.25 USD", "gift"]);
}

#[test]
fn rows_render_missing_note_empty() {
    let mut record = tx(Some(8), "x");
    record.note = None;
    record.currency = CurrencyEnum::UYU;
    record.amount_label = "120".to_string();
    let rows = get_transactions_row(&vec![record]);
    assert_eq!(rows[0], vec!["8", "$120 UYU", ""]);
}

#[test]
fn status_codes_classify_as_the_service_defines() {
    assert_eq!(classify_status(500), StatusClass::ServerFailure);
    assert_eq!(classify_status(404), StatusClass::OtherFailure);
    assert_eq!(classify_status(401), StatusClass::OtherFailure);
    assert_eq!(classify_status(200), StatusClass::Success);
}

#[test]
fn internal_error_carries_the_context() {
    let e = internal_error("Error to get transactions".to_string());
    assert_eq!(e.data.as_deref(), Some(""));
    assert_eq!(e.message.as_deref(), Some("Error to get transactions"));
    assert!(e.show_message.is_none());
    assert_eq!(e.message_text(), "Error to get transactions");
}

#[test]
fn envelope_error_carries_everything_forward() {
    let body = CustomResponse {
        data: Some("payload".to_string()),
        result: false,
        message: Some("broken".to_string()),
        show_message: Some(ShowMessage { en: "Broken".to_string(), es: "Roto".to_string() }),
    };
    let e = envelope_error(body);
    assert_eq!(e.data.as_deref(), Some("payload"));
    assert_eq!(e.message.as_deref(), Some("broken"));
    assert_eq!(e.show_message.as_ref().unwrap().en, "Broken");
    // the bilingual message wins when shown
    assert_eq!(e.message_text(), "Broken");
}

#[test]
fn envelope_data_unwraps_or_reports() {
    let full: CustomResponse<u32> =
        CustomResponse { data: Some(9), result: true, message: None, show_message: None };
    assert_eq!(envelope_data(full, "missing".to_string()).unwrap(), 9);
    let hollow: CustomResponse<u32> =
        CustomResponse { data: None, result: true, message: None, show_message: None };
    let e = envelope_data(hollow, "missing".to_string()).unwrap_err();
    assert_eq!(e.message.as_deref(), Some("missing"));
    assert!(e.data.is_none());
}

#[test]
fn error_message_text_falls_back_generically() {
    let bare: CustomError<String> = CustomError::new(None, None, None);
    assert_eq!(bare.message_text(), "Generic error");
    let with_message: CustomError<String> =
        CustomError::new(None, Some("machine".to_string()), None);
    assert_eq!(with_message.message_text(), "machine");
}

#[test]
fn records_clone_deeply() {
    let user = UserModel {
        user_id: "u".to_string(),
        email: "e".to_string(),
        first_name: "f".to_string(),
        last_name: "l".to_string(),
        password: "p".to_string(),
    };
    let mut record = tx(Some(2), "orig");
    record.user = Some(user);
    let copy = record.clone();
    assert_eq!(copy, record);
}
