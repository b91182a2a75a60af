use thedex::canonical::{canonical_body, canonical_fields, FieldKey, FieldValue};
use thedex::models::date_format::{self, UtcMillis};
use thedex::models::symbol;
use thedex::models::{Amount, CreateQuickInvoice, InvoiceStatus, Request, Symbol};

#[test]
pub fn add_fields_to_requests() {
    let request = Request::CreateQuickInvoice(Default::default());
    let result = canonical_body(&Some(request), "/smth", 101010101).unwrap();
    println!("{:?}", result);
    assert_eq!(
        result,
        "{\"amount\":\"0\",\"payCurrency\":\"\",\"merchantId\":\"\",\"request\":\"/smth\",\"nonce\":\"101010101\"}"
    );
}

#[test]
pub fn date() {
    let s = "2024-02-20 13:46:30.035";
    let dt = date_format::deserialize(s).unwrap();
    println!("{:?}", dt);
    assert_eq!(dt.millis, 1708436790035);
    assert_eq!(dt.millis % 1000, 35);
}

#[test]
fn date_without_fraction_parses() {
    let dt = date_format::deserialize("2024-02-20 13:46:30").unwrap();
    assert_eq!(dt.millis, 1708436790000);
}

#[test]
fn date_rejects_other_patterns() {
    assert!(date_format::deserialize("20/02/2024 13:46").is_none());
    assert!(date_format::deserialize("").is_none());
}

#[test]
fn date_serializes_with_millis() {
    let t = date_format::serialize(&UtcMillis { millis: 1708436790035 }).unwrap();
    assert_eq!(t, "2024-02-20 13:46:30.035");
}

#[test]
fn symbol_encodes_with_underscore() {
    let s = Symbol { short: "BTC".to_string(), full: "BITCOIN".to_string() };
    assert_eq!(symbol::serialize(&s), "BTC_BITCOIN");
}

#[test]
fn symbol_decodes_on_first_underscore() {
    let s = symbol::deserialize("BTC_BITCOIN");
    assert_eq!(s.short, "BTC");
    assert_eq!(s.full, "BITCOIN");
    let t = symbol::deserialize("USDT_TRON_TRC20");
    assert_eq!(t.short, "USDT");
    assert_eq!(t.full, "TRON_TRC20");
}

#[test]
fn symbol_without_separator_repeats_text() {
    let s = symbol::deserialize("BTC");
    assert_eq!(s.short, "BTC");
    assert_eq!(s.full, "BTC");
    let e = symbol::deserialize("");
    assert_eq!(e.short, "");
    assert_eq!(e.full, "");
}

#[test]
fn symbol_round_trip() {
    let s = Symbol { short: "ETH".to_string(), full: "ETHEREUM".to_string() };
    let back = symbol::deserialize(&symbol::serialize(&s));
    assert_eq!(back.short, "ETH");
    assert_eq!(back.full, "ETHEREUM");
}

#[test]
fn amount_keeps_trailing_zeros() {
    let a = Amount::from_str_exact("0.00007500").unwrap();
    assert_eq!(a.mantissa, 7500);
    assert_eq!(a.scale, 8);
    assert_eq!(a.to_wire(), "0.00007500");
    let b = Amount::from_str_exact(&a.to_wire()).unwrap();
    assert_eq!(a, b);
}

#[test]
fn amount_rejects_non_decimal() {
    assert!(Amount::from_str_exact("abc").is_none());
    assert!(Amount::from_str_exact("1.5e3x").is_none());
}

#[test]
fn amount_from_parts_bounds() {
    assert_eq!(Amount::from_parts(-125, 2).unwrap().to_wire(), "-1.25");
    assert!(Amount::from_parts(1, 29).is_none());
    assert!(Amount::from_parts(79228162514264337593543950336, 0).is_none());
    assert!(Amount::from_parts(79228162514264337593543950335, 28).is_some());
}

#[test]
fn invoice_status_codes() {
    assert_eq!(InvoiceStatus::Waiting.code(), 0);
    assert_eq!(InvoiceStatus::Successful.code(), 3);
    assert_eq!(InvoiceStatus::WaitingEmailConfirmation.code(), 6);
    assert_eq!(InvoiceStatus::from_code(4), Some(InvoiceStatus::Rejected));
    assert_eq!(InvoiceStatus::from_code(7), None);
    for c in 0u8..=6 {
        assert_eq!(InvoiceStatus::from_code(c).unwrap().code(), c);
    }
}

fn required_only() -> CreateQuickInvoice {
    CreateQuickInvoice {
        amount: Amount::from_str_exact("0.00007500").unwrap(),
        pay_currency: "BTC_BITCOIN".into(),
        merchant_id: "LDB3LVD7".into(),
        ..Default::default()
    }
}

#[test]
fn required_fields_give_five_entries() {
    let fields = canonical_fields(&Some(Request::CreateQuickInvoice(required_only())), "/p", 7);
    let keys: Vec<FieldKey> = fields.iter().map(|f| f.key).collect();
    assert_eq!(
        keys,
        vec![FieldKey::Amount, FieldKey::PayCurrency, FieldKey::MerchantId, FieldKey::Request, FieldKey::Nonce]
    );
    let body = canonical_body(&Some(Request::CreateQuickInvoice(required_only())), "/p", 7).unwrap();
    assert_eq!(
        body,
        "{\"amount\":\"0.00007500\",\"payCurrency\":\"BTC_BITCOIN\",\"merchantId\":\"LDB3LVD7\",\"request\":\"/p\",\"nonce\":\"7\"}"
    );
}

#[test]
fn request_and_nonce_appear_once() {
    let mut r = required_only();
    r.order_id = Some("123".into());
    r.client_id = Some("Client".into());
    r.title = Some("Test".into());
    r.description = Some("Test desc".into());
    r.recalculation = Some(true);
    r.needs_email_confirmation = Some(false);
    r.callback_url = Some("https://game.greekkeepers.io/".into());
    let fields = canonical_fields(&Some(Request::CreateQuickInvoice(r.clone())), "/api/x", 42);
    assert_eq!(fields.len(), 12);
    assert_eq!(fields.iter().filter(|f| f.key == FieldKey::Request).count(), 1);
    assert_eq!(fields.iter().filter(|f| f.key == FieldKey::Nonce).count(), 1);
    assert!(fields.iter().all(|f| f.key != FieldKey::Email && f.key != FieldKey::SuccessUrl));
    let body = canonical_body(&Some(Request::CreateQuickInvoice(r)), "/api/x", 42).unwrap();
    assert!(body.contains("\"recalculation\":true"));
    assert!(body.contains("\"needsEmailConfirmation\":false"));
    assert!(!body.contains("null"));
    assert!(body.ends_with("\"request\":\"/api/x\",\"nonce\":\"42\"}"));
}

#[test]
fn no_request_gives_two_entries() {
    let fields = canonical_fields(&None, "/api/v1/info/currencies", 0);
    assert_eq!(fields.len(), 2);
    match &fields[1].value {
        FieldValue::Text(t) => assert_eq!(t, "0"),
        FieldValue::Flag(_) => panic!("nonce is text"),
    }
    let body = canonical_body(&None, "/api/v1/info/currencies", 18446744073709551615).unwrap();
    assert_eq!(body, "{\"request\":\"/api/v1/info/currencies\",\"nonce\":\"18446744073709551615\"}");
}

#[test]
fn strings_are_escaped() {
    let mut r = required_only();
    r.title = Some("a \"quoted\" \\ title".into());
    let body = canonical_body(&Some(Request::CreateQuickInvoice(r)), "/p", 1).unwrap();
    assert!(body.contains("\"title\":\"a \\\"quoted\\\" \\\\ title\""));
}

#[test]
fn amount_text_forms() {
    assert_eq!(Amount::from_parts(0, 2).unwrap().to_wire(), "0.00");
    assert_eq!(Amount::from_parts(-5, 3).unwrap().to_wire(), "-0.005");
    assert_eq!(Amount::from_parts(123, 0).unwrap().to_wire(), "123");
    assert_eq!(Amount::from_parts(0, 0).unwrap().to_wire(), "0");
    assert_eq!(Amount::from_parts(120034, 2).unwrap().to_wire(), "1200.34");
}

#[test]
fn control_characters_are_escaped() {
    let mut r = required_only();
    r.title = Some("a\tb\u{1}c\nd/e".to_string());
    let body = canonical_body(&Some(Request::CreateQuickInvoice(r)), "/p", 1).unwrap();
    assert!(body.contains("\"title\":\"a\\tb\\u0001c\\nd/e\""), "{}", body);
}

#[test]
fn date_serialize_edges() {
    assert_eq!(date_format::serialize(&UtcMillis { millis: 0 }).unwrap(), "1970-01-01 00:00:00.000");
    assert_eq!(
        date_format::serialize(&UtcMillis { millis: 253402300799999 }).unwrap(),
        "9999-12-31 23:59:59.999"
    );
    assert_eq!(
        date_format::serialize(&UtcMillis { millis: -62167219200000 }).unwrap(),
        "0000-01-01 00:00:00.000"
    );
    assert!(date_format::serialize(&UtcMillis { millis: i64::MAX }).is_none());
}
