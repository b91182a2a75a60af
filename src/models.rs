use vstd::prelude::*;

pub mod date_format;
pub mod symbol;

verus! {

/// The largest magnitude of a decimal mantissa: 96 bits.
pub const MAX_MANTISSA: i128 = 79228162514264337593543950335;

/// The largest number of digits after the decimal point.
pub const MAX_SCALE: u32 = 28;

/// What rust_decimal's exact parse makes of a text: the mantissa and scale
/// of the decimal, or nothing where the text is no exact decimal.
pub uninterp spec fn decimal_parse_of(s: Seq<char>) -> Option<(int, int)>;

/// Decimal digits of a number, most significant first.
pub open spec fn nat_text(n: nat) -> Seq<char>
    decreases n,
{
    if n < 10 {
        seq![digit_char(n)]
    } else {
        nat_text(n / 10) + seq![digit_char(n % 10)]
    }
}

pub open spec fn digit_char(d: nat) -> char {
    seq!['0', '1', '2', '3', '4', '5', '6', '7', '8', '9'][d as int]
}

/// `n` zero digits.
pub open spec fn zeros(n: nat) -> Seq<char> {
    Seq::new(n, |i: int| '0')
}

/// The digits of the mantissa's magnitude (none for zero), padded on the
/// left with zeros to at least `scale` digits.
pub open spec fn decimal_digits(mantissa: int, scale: nat) -> Seq<char> {
    let d = if mantissa == 0 {
        Seq::<char>::empty()
    } else if mantissa < 0 {
        nat_text((-mantissa) as nat)
    } else {
        nat_text(mantissa as nat)
    };
    if d.len() < scale {
        zeros((scale - d.len()) as nat) + d
    } else {
        d
    }
}

/// The text that rust_decimal writes for the decimal `mantissa * 10^-scale`:
/// a minus sign for a negative mantissa, the integer digits (`0` where there
/// are none), and, for a positive scale, a point and exactly `scale`
/// fraction digits (`7500`, `8` gives `0.00007500`).
pub open spec fn decimal_text_of(mantissa: int, scale: nat) -> Seq<char> {
    let sign = if mantissa < 0 {
        seq!['-']
    } else {
        Seq::<char>::empty()
    };
    let d = decimal_digits(mantissa, scale);
    let w = d.len() - scale;
    let whole = if w == 0 {
        seq!['0']
    } else {
        d.subrange(0, w)
    };
    if scale == 0 {
        sign + whole
    } else {
        sign + whole + seq!['.'] + d.subrange(w, d.len() as int)
    }
}

/// Relies on rust_decimal's `Decimal::from_str_exact`, `mantissa` and `scale`:
/// a parsed decimal always has a 96-bit mantissa and a scale of at most 28.
#[verifier::external_body]
fn parse_decimal(s: &str) -> (r: Option<(i128, u32)>)
    ensures
        r is None <==> decimal_parse_of(s@) is None,
        r matches Some(p) ==> decimal_parse_of(s@) == Some((p.0 as int, p.1 as int)),
        r matches Some(p) ==> p.1 <= MAX_SCALE && -MAX_MANTISSA <= p.0 <= MAX_MANTISSA,
{
    rust_decimal::Decimal::from_str_exact(s).ok().map(|d| (d.mantissa(), d.scale()))
}

/// Relies on rust_decimal's `Decimal::from_i128_with_scale` (which panics
/// outside the bounds required here) and `array_string`, the text that its
/// `serde::str` adapter puts on the wire.
#[verifier::external_body]
fn decimal_text(mantissa: i128, scale: u32) -> (r: String)
    requires
        scale <= MAX_SCALE,
        -MAX_MANTISSA <= mantissa <= MAX_MANTISSA,
    ensures
        r@ == decimal_text_of(mantissa as int, scale as nat),
{
    rust_decimal::Decimal::from_i128_with_scale(mantissa, scale).array_string().as_ref().to_string()
}

/// An exact decimal amount, `mantissa * 10^-scale`. The scale is kept as
/// given, so `0.00007500` keeps its trailing zeros.
#[derive(Debug, Clone, Copy, PartialEq, Eq, Structural)]
pub struct Amount {
    pub mantissa: i128,
    pub scale: u32,
}

impl Amount {
    /// The mantissa fits in 96 bits and the scale is at most 28.
    pub open spec fn wf(&self) -> bool {
        &&& self.scale <= MAX_SCALE
        &&& -MAX_MANTISSA <= self.mantissa <= MAX_MANTISSA
    }

    /// The amount with the given mantissa and scale, where they are in range.
    pub fn from_parts(mantissa: i128, scale: u32) -> (r: Option<Amount>)
        ensures
            r is Some <==> (scale <= MAX_SCALE && -MAX_MANTISSA <= mantissa <= MAX_MANTISSA),
            r matches Some(a) ==> a.mantissa == mantissa && a.scale == scale && a.wf(),
    {
        if scale <= MAX_SCALE && -MAX_MANTISSA <= mantissa && mantissa <= MAX_MANTISSA {
            Some(Amount { mantissa, scale })
        } else {
            None
        }
    }

    /// Parses an exact decimal text, keeping its scale.
    pub fn from_str_exact(s: &str) -> (r: Option<Amount>)
        ensures
            r is None <==> decimal_parse_of(s@) is None,
            r matches Some(a) ==> decimal_parse_of(s@) == Some((a.mantissa as int, a.scale as int))
                && a.wf(),
    {
        match parse_decimal(s) {
            Some(p) => Some(Amount { mantissa: p.0, scale: p.1 }),
            None => None,
        }
    }

    /// The decimal text of the amount, every digit of its scale kept.
    pub fn to_wire(&self) -> (r: String)
        requires
            self.wf(),
        ensures
            r@ == decimal_text_of(self.mantissa as int, self.scale as nat),
    {
        decimal_text(self.mantissa, self.scale)
    }
}

/// An invoice's state; the codes are the wire encoding.
#[derive(Debug, Clone, Copy, PartialEq, Eq, Structural)]
pub enum InvoiceStatus {
    Waiting,
    PendingConfirm,
    Unpaid,
    Successful,
    Rejected,
    Underpaid,
    WaitingEmailConfirmation,
}

/// The wire code of each status, `Waiting` (0) to `WaitingEmailConfirmation` (6).
pub open spec fn status_code(s: InvoiceStatus) -> u8 {
    match s {
        InvoiceStatus::Waiting => 0,
        InvoiceStatus::PendingConfirm => 1,
        InvoiceStatus::Unpaid => 2,
        InvoiceStatus::Successful => 3,
        InvoiceStatus::Rejected => 4,
        InvoiceStatus::Underpaid => 5,
        InvoiceStatus::WaitingEmailConfirmation => 6,
    }
}

impl InvoiceStatus {
    /// The status's wire code.
    pub fn code(&self) -> (r: u8)
        ensures
            r == status_code(*self),
    {
        match self {
            InvoiceStatus::Waiting => 0,
            InvoiceStatus::PendingConfirm => 1,
            InvoiceStatus::Unpaid => 2,
            InvoiceStatus::Successful => 3,
            InvoiceStatus::Rejected => 4,
            InvoiceStatus::Underpaid => 5,
            InvoiceStatus::WaitingEmailConfirmation => 6,
        }
    }

    /// The status with the given wire code; codes above 6 name none.
    pub fn from_code(code: u8) -> (r: Option<InvoiceStatus>)
        ensures
            r is Some <==> code <= 6,
            r matches Some(s) ==> status_code(s) == code,
    {
        match code {
            0 => Some(InvoiceStatus::Waiting),
            1 => Some(InvoiceStatus::PendingConfirm),
            2 => Some(InvoiceStatus::Unpaid),
            3 => Some(InvoiceStatus::Successful),
            4 => Some(InvoiceStatus::Rejected),
            5 => Some(InvoiceStatus::Underpaid),
            6 => Some(InvoiceStatus::WaitingEmailConfirmation),
            _ => None,
        }
    }
}

/// Decoding a status's code gives the status back.
pub proof fn lemma_status_code_injective(a: InvoiceStatus, b: InvoiceStatus)
    ensures
        status_code(a) == status_code(b) ==> a == b,
        status_code(a) <= 6,
{
}

/// The fields of a quick invoice request; `None` fields are left off the wire.
#[derive(Debug, Clone)]
pub struct CreateQuickInvoice {
    pub amount: Amount,
    pub pay_currency: String,
    pub merchant_id: String,
    pub order_id: Option<String>,
    pub email: Option<String>,
    pub client_id: Option<String>,
    pub title: Option<String>,
    pub description: Option<String>,
    pub recalculation: Option<bool>,
    pub needs_email_confirmation: Option<bool>,
    pub success_url: Option<String>,
    pub failure_url: Option<String>,
    pub callback_url: Option<String>,
}

impl Default for CreateQuickInvoice {
    fn default() -> (r: CreateQuickInvoice)
        ensures
            r.amount == (Amount { mantissa: 0, scale: 0 }),
            r.pay_currency@.len() == 0,
            r.merchant_id@.len() == 0,
            r.order_id is None,
            r.email is None,
            r.client_id is None,
            r.title is None,
            r.description is None,
            r.recalculation is None,
            r.needs_email_confirmation is None,
            r.success_url is None,
            r.failure_url is None,
            r.callback_url is None,
    {
        CreateQuickInvoice {
            amount: Amount { mantissa: 0, scale: 0 },
            pay_currency: String::new(),
            merchant_id: String::new(),
            order_id: None,
            email: None,
            client_id: None,
            title: None,
            description: None,
            recalculation: None,
            needs_email_confirmation: None,
            success_url: None,
            failure_url: None,
            callback_url: None,
        }
    }
}

/// The requests that carry fields of their own.
#[derive(Debug, Clone)]
pub enum Request {
    CreateQuickInvoice(CreateQuickInvoice),
}

/// The answer to a quick invoice request.
#[derive(Debug, Clone)]
pub struct InvoiceCreateQuickResponse {
    pub invoice_id: Option<String>,
    pub merchant_id: String,
    pub client_id: Option<String>,
    pub order_id: Option<String>,
    pub create_date: String,
    pub modified_date: String,
    pub status: InvoiceStatus,
    pub pay_url: String,
    pub purse: String,
    pub amount_in_pay_currency: Amount,
    pub pay_currency: String,
}

/// A full invoice record.
#[derive(Debug, Clone)]
pub struct Invoice {
    pub invoice_id: Option<String>,
    pub merchant_id: String,
    pub order_id: Option<String>,
    pub client_id: Option<String>,
    pub status: InvoiceStatus,
    pub status_name: String,
    pub create_date: String,
    pub modified_date: String,
    pub expiration_date: String,
    pub expiration_date_in_milliseconds: u64,
    pub purse: String,
    pub currency: String,
    pub pay_currency: String,
    pub amount: Amount,
    pub amount_in_pay_currency: Amount,
    pub paid_amount: Amount,
    pub pay_url: String,
    pub callback_url: Option<String>,
    pub creation_way: String,
    pub merchant_commission: Amount,
    pub merchant_balance: Amount,
    pub title: Option<String>,
    pub description: Option<String>,
    pub unique_user_id: Option<String>,
    pub deposit_blockchain_fee: Amount,
    pub rate_with_commission: Amount,
    pub tx_id: Vec<String>,
    pub failure_url: Option<String>,
    pub success_url: Option<String>,
    pub merchant_site_url: String,
}

/// The fiat and pay currencies that the gateway lists.
#[derive(Debug, Clone)]
pub struct Currencies {
    pub fiat_currencies: Vec<String>,
    pub pay_currencies: Vec<String>,
}

/// The rates of one crypto currency.
#[derive(Debug, Clone)]
pub struct Price {
    /// On the wire as `SHORT_FULL`, e.g. `BTC_BITCOIN`.
    pub monetary: Symbol,
    pub rates: Vec<Rate>,
}

/// A currency symbol: a short code and a full name, on the wire joined by
/// one underscore (`BTC_BITCOIN`).
#[derive(Debug, Clone)]
pub struct Symbol {
    /// Ex: `BTC`
    pub short: String,
    /// Ex: `BITCOIN`
    pub full: String,
}

/// The rate of a currency in one fiat currency.
#[derive(Debug, Clone)]
pub struct Rate {
    pub fiat_currency: String,
    pub rate: Amount,
}

/// The shapes that a gateway answer can take, in the order in which an
/// untagged body is tried against them.
#[derive(Debug, Clone)]
pub enum Response {
    Invoice(Invoice),
    InvoiceCreateQuick(InvoiceCreateQuickResponse),
    Prices(Vec<Price>),
    Currencies(Currencies),
}

} // verus!
