use vstd::prelude::*;
use vstd::string::*;
use crate::cache::{is_fresh, refreshed, CacheCell};
use crate::canonical::{canonical_body, canonical_entries, canonical_text, request_wf};
use crate::errors::Error;
use crate::models::{CreateQuickInvoice, Currencies, InvoiceCreateQuickResponse, Price, Request};
use crate::response::expect_shape;
use crate::signer::{payload_of, sign, signature_of};

verus! {

/// The gateway's origin; each endpoint's path is appended to it.
pub const BASE_URL: &'static str = "https://app.thedex.cloud";

/// Endpoint of quick invoice creation.
pub const QUICK_INVOICE_PATH: &'static str = "/api/v1/invoices/create/quick";

/// Endpoint of the price list.
pub const PRICES_PATH: &'static str = "/api/v1/info/user/currencies/crypto";

/// Endpoint of the currency list.
pub const CURRENCIES_PATH: &'static str = "/api/v1/info/currencies";

/// A signed POST, ready to send: `body` goes out as the request body with
/// `Content-Type: application/json`, and `api_key`, `payload` and
/// `signature` as the `X-EX-APIKEY`, `X-EX-PAYLOAD` and `X-EX-SIGNATURE` headers.
#[derive(Debug, Clone)]
pub struct SignedCall {
    pub url: String,
    pub api_key: String,
    pub body: String,
    pub payload: String,
    pub signature: String,
}

/// `c` is the call to `path` with the canonical text of `req` and `nonce`,
/// signed with `secret` and carrying `api_key`.
pub open spec fn is_signed_call(
    c: SignedCall,
    api_key: Seq<char>,
    secret: Seq<char>,
    req: Option<Request>,
    path: Seq<char>,
    nonce: u64,
) -> bool {
    &&& c.url@ == BASE_URL@ + path
    &&& c.api_key@ == api_key
    &&& c.body@ == canonical_text(canonical_entries(req, path, nonce))
    &&& c.payload@ == payload_of(c.body@)
    &&& c.signature@ == signature_of(c.body@, secret)
    &&& c.signature@.len() == 128
}

/// What a cached read does next: serve the value held, or make this call.
#[derive(Debug, Clone)]
pub enum CacheStep {
    Cached,
    Call(SignedCall),
}

/// The gateway client: its credentials, fixed for its lifetime, and the
/// caches of the price and currency lists.
pub struct TheDex {
    api_key: String,
    api_secret: String,
    prices: CacheCell<Vec<Price>>,
    currencies: CacheCell<Currencies>,
}

impl TheDex {
    /// The API key identifier sent with every call.
    pub closed spec fn key(&self) -> Seq<char> {
        self.api_key@
    }

    /// The secret that signs every call.
    pub closed spec fn secret(&self) -> Seq<char> {
        self.api_secret@
    }

    /// The price list cache.
    pub closed spec fn price_cache(&self) -> CacheCell<Vec<Price>> {
        self.prices
    }

    /// The currency list cache.
    pub closed spec fn currency_cache(&self) -> CacheCell<Currencies> {
        self.currencies
    }

    /// A client with the given credentials and empty caches.
    pub fn new(api_key: String, api_secret: String) -> (r: TheDex)
        ensures
            r.key() == api_key@,
            r.secret() == api_secret@,
            r.price_cache().value is None,
            r.price_cache().refreshed_at == 0,
            r.currency_cache().value is None,
            r.currency_cache().refreshed_at == 0,
    {
        TheDex { api_key, api_secret, prices: CacheCell::new(), currencies: CacheCell::new() }
    }

    /// Builds the signed call to `path` for the request (or none) and nonce:
    /// the canonical text is both the body and what is signed.
    pub fn make_signed_request(&self, request: Option<Request>, path: &str, nonce: u64) -> (r: Result<
        SignedCall,
        Error,
    >)
        requires
            request_wf(request),
        ensures
            r is Ok,
            r matches Ok(c) ==> is_signed_call(c, self.key(), self.secret(), request, path@, nonce),
    {
        let body = match canonical_body(&request, path, nonce) {
            Ok(b) => b,
            Err(e) => return Err(e),
        };
        let signed = sign(body, self.api_secret.as_str());
        let url = String::from_str(BASE_URL).concat(path);
        Ok(SignedCall {
            url,
            api_key: self.api_key.clone(),
            body: signed.body,
            payload: signed.payload,
            signature: signed.signature,
        })
    }

    /// The signed call that creates a quick invoice.
    pub fn create_quick_invoice(&self, request: CreateQuickInvoice, nonce: u64) -> (r: Result<
        SignedCall,
        Error,
    >)
        requires
            request.amount.wf(),
        ensures
            r matches Ok(c) ==> is_signed_call(
                c,
                self.key(),
                self.secret(),
                Some(Request::CreateQuickInvoice(request)),
                QUICK_INVOICE_PATH@,
                nonce,
            ),
            r is Ok,
    {
        self.make_signed_request(Some(Request::CreateQuickInvoice(request)), QUICK_INVOICE_PATH, nonce)
    }

    /// The answer to a quick invoice call: the parsed body, or the raw body
    /// as unexpected where it did not parse.
    pub fn finish_create_quick_invoice(
        &self,
        body: String,
        parsed: Option<InvoiceCreateQuickResponse>,
    ) -> (r: Result<InvoiceCreateQuickResponse, Error>)
        ensures
            parsed matches Some(x) ==> r == Ok::<InvoiceCreateQuickResponse, Error>(x),
            parsed is None ==> r == Err::<InvoiceCreateQuickResponse, Error>(
                Error::UnexpectedResponse(body),
            ),
    {
        expect_shape(body, parsed)
    }

    /// A read of the price list at `now`: served from the cache while it is
    /// fresh, otherwise the signed call that refreshes it.
    pub fn prices(&self, now: u64, nonce: u64) -> (r: Result<CacheStep, Error>)
        ensures
            is_fresh(self.price_cache(), now) ==> r matches Ok(CacheStep::Cached),
            !is_fresh(self.price_cache(), now) ==> match r {
                Ok(CacheStep::Call(c)) => is_signed_call(
                    c,
                    self.key(),
                    self.secret(),
                    None,
                    PRICES_PATH@,
                    nonce,
                ),
                _ => false,
            },
    {
        if self.prices.is_fresh(now) {
            return Ok(CacheStep::Cached);
        }
        match self.make_signed_request(None, PRICES_PATH, nonce) {
            Ok(c) => Ok(CacheStep::Call(c)),
            Err(e) => Err(e),
        }
    }

    /// Takes in the answer to a price call that ended at `now`: where it
    /// parsed, it replaces the cached list and its time; where it did not,
    /// the cache is left as it was and the raw body is reported.
    pub fn finish_prices(&mut self, now: u64, body: String, parsed: Option<Vec<Price>>) -> (r: Result<
        (),
        Error,
    >)
        ensures
            final(self).price_cache() == refreshed(old(self).price_cache(), now, parsed),
            final(self).currency_cache() == old(self).currency_cache(),
            final(self).key() == old(self).key(),
            final(self).secret() == old(self).secret(),
            r is Ok <==> parsed is Some,
            parsed is None ==> r == Err::<(), Error>(Error::UnexpectedResponse(body)),
    {
        let ok = parsed.is_some();
        self.prices.refresh(now, parsed);
        if ok {
            Ok(())
        } else {
            Err(Error::UnexpectedResponse(body))
        }
    }

    /// A read of the currency list at `now`: served from the cache while it
    /// is fresh, otherwise the signed call that refreshes it.
    pub fn currencies(&self, now: u64, nonce: u64) -> (r: Result<CacheStep, Error>)
        ensures
            is_fresh(self.currency_cache(), now) ==> r matches Ok(CacheStep::Cached),
            !is_fresh(self.currency_cache(), now) ==> match r {
                Ok(CacheStep::Call(c)) => is_signed_call(
                    c,
                    self.key(),
                    self.secret(),
                    None,
                    CURRENCIES_PATH@,
                    nonce,
                ),
                _ => false,
            },
    {
        if self.currencies.is_fresh(now) {
            return Ok(CacheStep::Cached);
        }
        match self.make_signed_request(None, CURRENCIES_PATH, nonce) {
            Ok(c) => Ok(CacheStep::Call(c)),
            Err(e) => Err(e),
        }
    }

    /// Takes in the answer to a currency call that ended at `now`: where it
    /// parsed, it replaces the cached lists and their time; where it did not,
    /// the cache is left as it was and the raw body is reported.
    pub fn finish_currencies(&mut self, now: u64, body: String, parsed: Option<Currencies>) -> (r: Result<
        (),
        Error,
    >)
        ensures
            final(self).currency_cache() == refreshed(old(self).currency_cache(), now, parsed),
            final(self).price_cache() == old(self).price_cache(),
            final(self).key() == old(self).key(),
            final(self).secret() == old(self).secret(),
            r is Ok <==> parsed is Some,
            parsed is None ==> r == Err::<(), Error>(Error::UnexpectedResponse(body)),
    {
        let ok = parsed.is_some();
        self.currencies.refresh(now, parsed);
        if ok {
            Ok(())
        } else {
            Err(Error::UnexpectedResponse(body))
        }
    }

    /// The cached price list, fresh or not.
    pub fn cached_prices(&self) -> (r: Option<&Vec<Price>>)
        ensures
            r is None <==> self.price_cache().value is None,
            r matches Some(x) ==> self.price_cache().value == Some(*x),
    {
        self.prices.cached()
    }

    /// The cached currency lists, fresh or not.
    pub fn cached_currencies(&self) -> (r: Option<&Currencies>)
        ensures
            r is None <==> self.currency_cache().value is None,
            r matches Some(x) ==> self.currency_cache().value == Some(*x),
    {
        self.currencies.cached()
    }
}

} // verus!
