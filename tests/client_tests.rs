use thedex::cache::CacheCell;
use thedex::client::{CacheStep, CURRENCIES_PATH, PRICES_PATH};
use thedex::errors::Error;
use thedex::models::{Currencies, Price, Rate, Amount, Symbol, Response};
use thedex::response::probe_response;
use thedex::signer::{sign, to_lower_hex};
use thedex::TheDex;

fn one_price() -> Vec<Price> {
    vec![Price {
        monetary: Symbol { short: "BTC".into(), full: "BITCOIN".into() },
        rates: vec![Rate { fiat_currency: "USD".into(), rate: Amount::from_str_exact("51000.25").unwrap() }],
    }]
}

#[test]
fn signing_is_deterministic() {
    let a = sign("{\"x\":1}".to_string(), "secret");
    let b = sign("{\"x\":1}".to_string(), "secret");
    assert_eq!(a.payload, b.payload);
    assert_eq!(a.signature, b.signature);
    let c = sign("{\"x\":2}".to_string(), "secret");
    assert_ne!(a.signature, c.signature);
    assert_eq!(a.signature.len(), 128);
}

#[test]
fn signing_known_values() {
    let s = sign("{}".to_string(), "key");
    assert_eq!(s.body, "{}");
    assert_eq!(s.payload, "e30=");
    assert_eq!(
        s.signature,
        "d57012ad9a3e6a93014fc434da13bbc3c2f0b688ffc9dcded60afe33264ef471b59cab2cea5d2e3d55ee8194d858346e438aa82fd51ba9965c9215e2118839b5"
    );
}

#[test]
fn signed_request_headers() {
    let dex = TheDex::new("api".into(), "secret".into());
    let request = thedex::models::Request::CreateQuickInvoice(Default::default());
    let call = dex.make_signed_request(Some(request), "/smth", 101010101).unwrap();
    assert_eq!(call.url, "https://app.thedex.cloud/smth");
    assert_eq!(call.api_key, "api");
    assert_eq!(
        call.payload,
        "eyJhbW91bnQiOiIwIiwicGF5Q3VycmVuY3kiOiIiLCJtZXJjaGFudElkIjoiIiwicmVxdWVzdCI6Ii9zbXRoIiwibm9uY2UiOiIxMDEwMTAxMDEifQ=="
    );
    assert_eq!(
        call.signature,
        "085ad615e1f56a9a595fa23b23cf1940c36d0b67ce49a6fa8414beab3851d1b61404c5aceffe4981b7ab3b324b1a1d8a08c7d8c3c424ebea396ff9fba8b28466"
    );
}

#[test]
fn hex_is_lowercase_and_padded() {
    assert_eq!(to_lower_hex(&vec![0x00, 0x0f, 0xab, 0xff]), "000fabff");
    assert_eq!(to_lower_hex(&vec![]), "");
}

#[test]
fn prices_cached_within_window() {
    let mut dex = TheDex::new("k".into(), "s".into());
    let t0: u64 = 1_700_000_000_000;
    let mut calls = 0;
    match dex.prices(t0, 1).unwrap() {
        CacheStep::Call(c) => {
            assert!(c.url.ends_with(PRICES_PATH));
            calls += 1;
            dex.finish_prices(t0, "[]".into(), Some(one_price())).unwrap();
        }
        CacheStep::Cached => {}
    }
    match dex.prices(t0 + 59_999, 2).unwrap() {
        CacheStep::Call(_) => calls += 1,
        CacheStep::Cached => {}
    }
    assert_eq!(calls, 1);
    assert_eq!(dex.cached_prices().unwrap()[0].monetary.short, "BTC");
}

#[test]
fn prices_refreshed_after_window() {
    let mut dex = TheDex::new("k".into(), "s".into());
    let t0: u64 = 1_700_000_000_000;
    assert!(matches!(dex.prices(t0, 1).unwrap(), CacheStep::Call(_)));
    dex.finish_prices(t0, "[]".into(), Some(one_price())).unwrap();
    assert!(matches!(dex.prices(t0 + 60_000, 2).unwrap(), CacheStep::Call(_)));
}

#[test]
fn failed_refresh_keeps_old_prices() {
    let mut dex = TheDex::new("k".into(), "s".into());
    let t0: u64 = 1_700_000_000_000;
    dex.finish_prices(t0, "[]".into(), Some(one_price())).unwrap();
    let r = dex.finish_prices(t0 + 70_000, "oops".into(), None);
    match r {
        Err(Error::UnexpectedResponse(b)) => assert_eq!(b, "oops"),
        _ => panic!("expected an unexpected response"),
    }
    assert_eq!(dex.cached_prices().unwrap().len(), 1);
    assert!(matches!(dex.prices(t0 + 70_001, 3).unwrap(), CacheStep::Call(_)));
}

#[test]
fn currencies_cached_within_window() {
    let mut dex = TheDex::new("k".into(), "s".into());
    let c = match dex.currencies(5, 9).unwrap() {
        CacheStep::Call(c) => c,
        CacheStep::Cached => panic!("empty cache must call"),
    };
    assert_eq!(c.url, format!("https://app.thedex.cloud{}", CURRENCIES_PATH));
    assert!(c.body.contains("\"nonce\":\"9\""));
    let cur = Currencies { fiat_currencies: vec!["USD".into()], pay_currencies: vec!["BTC_BITCOIN".into()] };
    dex.finish_currencies(10, "{}".into(), Some(cur)).unwrap();
    assert!(matches!(dex.currencies(100, 10).unwrap(), CacheStep::Cached));
    assert_eq!(dex.cached_currencies().unwrap().fiat_currencies, vec!["USD".to_string()]);
}

#[test]
fn empty_cell_is_stale() {
    let c: CacheCell<u8> = CacheCell::new();
    assert!(!c.is_fresh(0));
    let mut d: CacheCell<u8> = CacheCell::new();
    d.refresh(100, Some(3));
    assert!(d.is_fresh(100));
    assert!(d.is_fresh(60_099));
    assert!(!d.is_fresh(60_100));
    d.refresh(200, None);
    assert_eq!(d.value, Some(3));
    assert_eq!(d.refreshed_at, 100);
}

#[test]
fn probing_takes_first_shape() {
    let cur = Currencies { fiat_currencies: vec![], pay_currencies: vec![] };
    match probe_response("b".into(), None, None, Some(one_price()), Some(cur.clone())) {
        Ok(Response::Prices(p)) => assert_eq!(p.len(), 1),
        _ => panic!("prices come before currencies"),
    }
    match probe_response("b".into(), None, None, None, Some(cur)) {
        Ok(Response::Currencies(_)) => {}
        _ => panic!("currencies parsed"),
    }
    match probe_response("raw".into(), None, None, None, None) {
        Err(Error::UnexpectedResponse(b)) => assert_eq!(b, "raw"),
        _ => panic!("nothing parsed"),
    }
}

#[test]
fn quick_invoice_unexpected_body() {
    let dex = TheDex::new("k".into(), "s".into());
    match dex.finish_create_quick_invoice("{\"error\":1}".into(), None) {
        Err(Error::UnexpectedResponse(b)) => assert_eq!(b, "{\"error\":1}"),
        _ => panic!("body did not parse"),
    }
}
