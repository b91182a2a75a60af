use vstd::prelude::*;
use crate::errors::Error;
use crate::models::{Currencies, Invoice, InvoiceCreateQuickResponse, Price, Response};

verus! {

/// The first candidate that parsed, in the order invoice, quick invoice,
/// prices, currencies; the raw body as unexpected where none did.
pub open spec fn probe_spec(
    body: String,
    invoice: Option<Invoice>,
    quick: Option<InvoiceCreateQuickResponse>,
    prices: Option<Vec<Price>>,
    currencies: Option<Currencies>,
) -> Result<Response, Error> {
    if let Some(x) = invoice {
        Ok(Response::Invoice(x))
    } else if let Some(x) = quick {
        Ok(Response::InvoiceCreateQuick(x))
    } else if let Some(x) = prices {
        Ok(Response::Prices(x))
    } else if let Some(x) = currencies {
        Ok(Response::Currencies(x))
    } else {
        Err(Error::UnexpectedResponse(body))
    }
}

/// Picks the answer's shape from the outcome of parsing the raw body as each
/// candidate: the first that parsed, in the order invoice, quick invoice,
/// prices, currencies. Where none parsed, the body is reported unchanged.
pub fn probe_response(
    body: String,
    invoice: Option<Invoice>,
    quick: Option<InvoiceCreateQuickResponse>,
    prices: Option<Vec<Price>>,
    currencies: Option<Currencies>,
) -> (r: Result<Response, Error>)
    ensures
        r == probe_spec(body, invoice, quick, prices, currencies),
{
    if let Some(x) = invoice {
        Ok(Response::Invoice(x))
    } else if let Some(x) = quick {
        Ok(Response::InvoiceCreateQuick(x))
    } else if let Some(x) = prices {
        Ok(Response::Prices(x))
    } else if let Some(x) = currencies {
        Ok(Response::Currencies(x))
    } else {
        Err(Error::UnexpectedResponse(body))
    }
}

/// The answer of an operation that expects one shape: the parsed value, or
/// the raw body reported as unexpected where it did not parse.
pub fn expect_shape<T>(body: String, parsed: Option<T>) -> (r: Result<T, Error>)
    ensures
        parsed matches Some(x) ==> r == Ok::<T, Error>(x),
        parsed is None ==> r == Err::<T, Error>(Error::UnexpectedResponse(body)),
{
    match parsed {
        Some(x) => Ok(x),
        None => Err(Error::UnexpectedResponse(body)),
    }
}

} // verus!
