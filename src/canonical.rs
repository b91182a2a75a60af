use vstd::prelude::*;
use vstd::string::*;
use crate::errors::Error;
use crate::json::{json_string, json_string_of};
use crate::models::{decimal_text_of, digit_char, nat_text, CreateQuickInvoice, Request};

verus! {

/// The keys of the canonical field map, in the order in which they are written.
#[derive(Debug, Clone, Copy, PartialEq, Eq, Structural)]
pub enum FieldKey {
    Amount,
    PayCurrency,
    MerchantId,
    OrderId,
    Email,
    ClientId,
    Title,
    Description,
    Recalculation,
    NeedsEmailConfirmation,
    SuccessUrl,
    FailureUrl,
    CallbackUrl,
    Request,
    Nonce,
}

/// The wire name of each key.
pub open spec fn key_name(k: FieldKey) -> Seq<char> {
    match k {
        FieldKey::Amount => "amount"@,
        FieldKey::PayCurrency => "payCurrency"@,
        FieldKey::MerchantId => "merchantId"@,
        FieldKey::OrderId => "orderId"@,
        FieldKey::Email => "email"@,
        FieldKey::ClientId => "clientId"@,
        FieldKey::Title => "title"@,
        FieldKey::Description => "description"@,
        FieldKey::Recalculation => "recalculation"@,
        FieldKey::NeedsEmailConfirmation => "needsEmailConfirmation"@,
        FieldKey::SuccessUrl => "successUrl"@,
        FieldKey::FailureUrl => "failureUrl"@,
        FieldKey::CallbackUrl => "callbackUrl"@,
        FieldKey::Request => "request"@,
        FieldKey::Nonce => "nonce"@,
    }
}

/// The position of each key in the written order.
pub open spec fn key_rank(k: FieldKey) -> int {
    match k {
        FieldKey::Amount => 0,
        FieldKey::PayCurrency => 1,
        FieldKey::MerchantId => 2,
        FieldKey::OrderId => 3,
        FieldKey::Email => 4,
        FieldKey::ClientId => 5,
        FieldKey::Title => 6,
        FieldKey::Description => 7,
        FieldKey::Recalculation => 8,
        FieldKey::NeedsEmailConfirmation => 9,
        FieldKey::SuccessUrl => 10,
        FieldKey::FailureUrl => 11,
        FieldKey::CallbackUrl => 12,
        FieldKey::Request => 13,
        FieldKey::Nonce => 14,
    }
}

impl FieldKey {
    /// The key's wire name.
    pub fn name(&self) -> (r: &'static str)
        ensures
            r@ == key_name(*self),
    {
        match self {
            FieldKey::Amount => "amount",
            FieldKey::PayCurrency => "payCurrency",
            FieldKey::MerchantId => "merchantId",
            FieldKey::OrderId => "orderId",
            FieldKey::Email => "email",
            FieldKey::ClientId => "clientId",
            FieldKey::Title => "title",
            FieldKey::Description => "description",
            FieldKey::Recalculation => "recalculation",
            FieldKey::NeedsEmailConfirmation => "needsEmailConfirmation",
            FieldKey::SuccessUrl => "successUrl",
            FieldKey::FailureUrl => "failureUrl",
            FieldKey::CallbackUrl => "callbackUrl",
            FieldKey::Request => "request",
            FieldKey::Nonce => "nonce",
        }
    }
}

/// A field's value: a JSON string or a JSON boolean. There is no null: an
/// absent field has no entry at all.
#[derive(Debug, Clone)]
pub enum FieldValue {
    Text(String),
    Flag(bool),
}

/// What a field value holds.
pub enum FieldModel {
    Text(Seq<char>),
    Flag(bool),
}

/// One entry of the canonical field map.
#[derive(Debug, Clone)]
pub struct Field {
    pub key: FieldKey,
    pub value: FieldValue,
}

pub open spec fn value_model(v: FieldValue) -> FieldModel {
    match v {
        FieldValue::Text(s) => FieldModel::Text(s@),
        FieldValue::Flag(b) => FieldModel::Flag(b),
    }
}

pub open spec fn field_model(f: Field) -> (FieldKey, FieldModel) {
    (f.key, value_model(f.value))
}

/// What a list of fields holds.
pub open spec fn fields_model(v: Seq<Field>) -> Seq<(FieldKey, FieldModel)> {
    v.map_values(|f: Field| field_model(f))
}

/// The entry for an optional text field: none where it is absent.
pub open spec fn opt_text(k: FieldKey, o: Option<String>) -> Seq<(FieldKey, FieldModel)> {
    match o {
        Some(s) => seq![(k, FieldModel::Text(s@))],
        None => Seq::empty(),
    }
}

/// The entry for an optional boolean field: none where it is absent.
pub open spec fn opt_flag(k: FieldKey, o: Option<bool>) -> Seq<(FieldKey, FieldModel)> {
    match o {
        Some(b) => seq![(k, FieldModel::Flag(b))],
        None => Seq::empty(),
    }
}

/// The fields of a quick invoice: the three required ones, then each
/// optional one that is present.
pub open spec fn invoice_entries(r: CreateQuickInvoice) -> Seq<(FieldKey, FieldModel)> {
    seq![
        (FieldKey::Amount, FieldModel::Text(decimal_text_of(r.amount.mantissa as int, r.amount.scale as nat))),
        (FieldKey::PayCurrency, FieldModel::Text(r.pay_currency@)),
        (FieldKey::MerchantId, FieldModel::Text(r.merchant_id@)),
    ] + opt_text(FieldKey::OrderId, r.order_id) + opt_text(FieldKey::Email, r.email) + opt_text(
        FieldKey::ClientId,
        r.client_id,
    ) + opt_text(FieldKey::Title, r.title) + opt_text(FieldKey::Description, r.description)
        + opt_flag(FieldKey::Recalculation, r.recalculation) + opt_flag(
        FieldKey::NeedsEmailConfirmation,
        r.needs_email_confirmation,
    ) + opt_text(FieldKey::SuccessUrl, r.success_url) + opt_text(FieldKey::FailureUrl, r.failure_url)
        + opt_text(FieldKey::CallbackUrl, r.callback_url)
}

/// The fields that a request contributes; none for a call without one.
pub open spec fn request_entries(req: Option<Request>) -> Seq<(FieldKey, FieldModel)> {
    match req {
        Some(Request::CreateQuickInvoice(r)) => invoice_entries(r),
        None => Seq::empty(),
    }
}

/// The canonical field map of a call: the request's fields, then `request`
/// set to the endpoint path and `nonce` set to the nonce's decimal text.
pub open spec fn canonical_entries(req: Option<Request>, path: Seq<char>, nonce: u64) -> Seq<
    (FieldKey, FieldModel),
> {
    request_entries(req) + seq![
        (FieldKey::Request, FieldModel::Text(path)),
        (FieldKey::Nonce, FieldModel::Text(nat_text(nonce as nat))),
    ]
}

/// The keys of the entries stand in strictly increasing written order.
pub open spec fn ranks_increasing(e: Seq<(FieldKey, FieldModel)>) -> bool {
    forall|i: int, j: int| 0 <= i < j < e.len() ==> key_rank(e[i].0) < key_rank(e[j].0)
}

/// No two entries share a key.
pub open spec fn keys_distinct(e: Seq<(FieldKey, FieldModel)>) -> bool {
    forall|i: int, j: int| 0 <= i < j < e.len() ==> e[i].0 != e[j].0
}

/// The entries whose keys rank at least `lo` and below `hi`.
pub open spec fn ranks_within(e: Seq<(FieldKey, FieldModel)>, lo: int, hi: int) -> bool {
    forall|i: int| 0 <= i < e.len() ==> lo <= key_rank(#[trigger] e[i].0) && key_rank(e[i].0) < hi
}

proof fn lemma_join_ranked(a: Seq<(FieldKey, FieldModel)>, b: Seq<(FieldKey, FieldModel)>, lo: int, mid: int, hi: int)
    requires
        lo <= mid <= hi,
        ranks_increasing(a),
        ranks_increasing(b),
        ranks_within(a, lo, mid),
        ranks_within(b, mid, hi),
    ensures
        ranks_increasing(a + b),
        ranks_within(a + b, lo, hi),
{
    let c = a + b;
    assert forall|i: int, j: int| 0 <= i < j < c.len() implies key_rank(c[i].0) < key_rank(c[j].0) by {
        if j < a.len() {
        } else if i >= a.len() {
            assert(c[i] == b[i - a.len()]);
            assert(c[j] == b[j - a.len()]);
        } else {
            assert(c[i] == a[i]);
            assert(c[j] == b[j - a.len()]);
            assert(lo <= key_rank(a[i].0) < mid);
            assert(mid <= key_rank(b[j - a.len()].0) < hi);
        }
    }
    assert forall|i: int| 0 <= i < c.len() implies lo <= key_rank(#[trigger] c[i].0) && key_rank(c[i].0) < hi by {
        if i < a.len() {
            assert(c[i] == a[i]);
            assert(lo <= key_rank(a[i].0) && key_rank(a[i].0) < mid);
        } else {
            let k = i - a.len();
            assert(0 <= k < b.len());
            assert(c[i] == b[k]);
            assert(mid <= key_rank(b[k].0) && key_rank(b[k].0) < hi);
        }
    }
}

proof fn lemma_opt_text_ranked(k: FieldKey, o: Option<String>)
    ensures
        ranks_increasing(opt_text(k, o)),
        ranks_within(opt_text(k, o), key_rank(k), key_rank(k) + 1),
{
}

proof fn lemma_opt_flag_ranked(k: FieldKey, o: Option<bool>)
    ensures
        ranks_increasing(opt_flag(k, o)),
        ranks_within(opt_flag(k, o), key_rank(k), key_rank(k) + 1),
{
}

proof fn lemma_invoice_ranked(r: CreateQuickInvoice)
    ensures
        ranks_increasing(invoice_entries(r)),
        ranks_within(invoice_entries(r), 0, 13),
{
    let e0 = seq![
        (FieldKey::Amount, FieldModel::Text(decimal_text_of(r.amount.mantissa as int, r.amount.scale as nat))),
        (FieldKey::PayCurrency, FieldModel::Text(r.pay_currency@)),
        (FieldKey::MerchantId, FieldModel::Text(r.merchant_id@)),
    ];
    assert(ranks_increasing(e0));
    assert(ranks_within(e0, 0, 3));
    lemma_opt_text_ranked(FieldKey::OrderId, r.order_id);
    lemma_join_ranked(e0, opt_text(FieldKey::OrderId, r.order_id), 0, 3, 4);
    let e1 = e0 + opt_text(FieldKey::OrderId, r.order_id);
    lemma_opt_text_ranked(FieldKey::Email, r.email);
    lemma_join_ranked(e1, opt_text(FieldKey::Email, r.email), 0, 4, 5);
    let e2 = e1 + opt_text(FieldKey::Email, r.email);
    lemma_opt_text_ranked(FieldKey::ClientId, r.client_id);
    lemma_join_ranked(e2, opt_text(FieldKey::ClientId, r.client_id), 0, 5, 6);
    let e3 = e2 + opt_text(FieldKey::ClientId, r.client_id);
    lemma_opt_text_ranked(FieldKey::Title, r.title);
    lemma_join_ranked(e3, opt_text(FieldKey::Title, r.title), 0, 6, 7);
    let e4 = e3 + opt_text(FieldKey::Title, r.title);
    lemma_opt_text_ranked(FieldKey::Description, r.description);
    lemma_join_ranked(e4, opt_text(FieldKey::Description, r.description), 0, 7, 8);
    let e5 = e4 + opt_text(FieldKey::Description, r.description);
    lemma_opt_flag_ranked(FieldKey::Recalculation, r.recalculation);
    lemma_join_ranked(e5, opt_flag(FieldKey::Recalculation, r.recalculation), 0, 8, 9);
    let e6 = e5 + opt_flag(FieldKey::Recalculation, r.recalculation);
    lemma_opt_flag_ranked(FieldKey::NeedsEmailConfirmation, r.needs_email_confirmation);
    lemma_join_ranked(e6, opt_flag(FieldKey::NeedsEmailConfirmation, r.needs_email_confirmation), 0, 9, 10);
    let e7 = e6 + opt_flag(FieldKey::NeedsEmailConfirmation, r.needs_email_confirmation);
    lemma_opt_text_ranked(FieldKey::SuccessUrl, r.success_url);
    lemma_join_ranked(e7, opt_text(FieldKey::SuccessUrl, r.success_url), 0, 10, 11);
    let e8 = e7 + opt_text(FieldKey::SuccessUrl, r.success_url);
    lemma_opt_text_ranked(FieldKey::FailureUrl, r.failure_url);
    lemma_join_ranked(e8, opt_text(FieldKey::FailureUrl, r.failure_url), 0, 11, 12);
    let e9 = e8 + opt_text(FieldKey::FailureUrl, r.failure_url);
    lemma_opt_text_ranked(FieldKey::CallbackUrl, r.callback_url);
    lemma_join_ranked(e9, opt_text(FieldKey::CallbackUrl, r.callback_url), 0, 12, 13);
}

/// Whatever request is given and whichever of its optional fields are
/// present, the canonical map has no two entries with one key, holds
/// `request` set to the path and `nonce` set to the nonce exactly once each,
/// and holds an entry for an optional field only where that field is present.
pub proof fn lemma_canonical_keys(req: Option<Request>, path: Seq<char>, nonce: u64)
    ensures
        keys_distinct(canonical_entries(req, path, nonce)),
        canonical_entries(req, path, nonce).len() >= 2,
        canonical_entries(req, path, nonce)[canonical_entries(req, path, nonce).len() - 2] == (
        FieldKey::Request,
        FieldModel::Text(path),
        ),
        canonical_entries(req, path, nonce)[canonical_entries(req, path, nonce).len() - 1] == (
        FieldKey::Nonce,
        FieldModel::Text(nat_text(nonce as nat)),
        ),
        all_present(req, canonical_entries(req, path, nonce)),
{
    let e = request_entries(req);
    let tail = seq![
        (FieldKey::Request, FieldModel::Text(path)),
        (FieldKey::Nonce, FieldModel::Text(nat_text(nonce as nat))),
    ];
    match req {
        Some(Request::CreateQuickInvoice(r)) => {
            lemma_invoice_ranked(r);
            lemma_invoice_present(r);
        },
        None => {},
    }
    assert(ranks_increasing(e));
    assert(ranks_within(e, 0, 13));
    assert(ranks_increasing(tail));
    assert(ranks_within(tail, 13, 15));
    lemma_join_ranked(e, tail, 0, 13, 15);
    let c = canonical_entries(req, path, nonce);
    assert(c == e + tail);
    assert forall|i: int, j: int| 0 <= i < j < c.len() implies c[i].0 != c[j].0 by {
        assert(key_rank(c[i].0) < key_rank(c[j].0));
    }
    assert(all_present(req, e));
    assert(all_present(req, tail));
    lemma_join_present(req, e, tail);
}

/// A quick invoice with only its required fields set gives a canonical map
/// of five entries: amount, pay currency, merchant id, `request`, `nonce`.
pub proof fn lemma_required_only_entries(r: CreateQuickInvoice, path: Seq<char>, nonce: u64)
    requires
        r.order_id is None,
        r.email is None,
        r.client_id is None,
        r.title is None,
        r.description is None,
        r.recalculation is None,
        r.needs_email_confirmation is None,
        r.success_url is None,
        r.failure_url is None,
        r.callback_url is None,
    ensures
        canonical_entries(Some(Request::CreateQuickInvoice(r)), path, nonce).len() == 5,
        canonical_entries(Some(Request::CreateQuickInvoice(r)), path, nonce)[0].0 == FieldKey::Amount,
        canonical_entries(Some(Request::CreateQuickInvoice(r)), path, nonce)[1].0
            == FieldKey::PayCurrency,
        canonical_entries(Some(Request::CreateQuickInvoice(r)), path, nonce)[2].0
            == FieldKey::MerchantId,
        canonical_entries(Some(Request::CreateQuickInvoice(r)), path, nonce)[3].0 == FieldKey::Request,
        canonical_entries(Some(Request::CreateQuickInvoice(r)), path, nonce)[4].0 == FieldKey::Nonce,
{
    let e = canonical_entries(Some(Request::CreateQuickInvoice(r)), path, nonce);
    assert(invoice_entries(r).len() == 3);
    assert(e[3] == (FieldKey::Request, FieldModel::Text(path)));
}

/// A key's field is present in the request: always for the required fields
/// and for `request` and `nonce`, only where set for an optional one.
pub open spec fn key_present(req: Option<Request>, k: FieldKey) -> bool {
    match req {
        None => k == FieldKey::Request || k == FieldKey::Nonce,
        Some(Request::CreateQuickInvoice(r)) => match k {
            FieldKey::OrderId => r.order_id is Some,
            FieldKey::Email => r.email is Some,
            FieldKey::ClientId => r.client_id is Some,
            FieldKey::Title => r.title is Some,
            FieldKey::Description => r.description is Some,
            FieldKey::Recalculation => r.recalculation is Some,
            FieldKey::NeedsEmailConfirmation => r.needs_email_confirmation is Some,
            FieldKey::SuccessUrl => r.success_url is Some,
            FieldKey::FailureUrl => r.failure_url is Some,
            FieldKey::CallbackUrl => r.callback_url is Some,
            _ => true,
        },
    }
}

/// Every entry's field is present in the request.
pub open spec fn all_present(req: Option<Request>, e: Seq<(FieldKey, FieldModel)>) -> bool {
    forall|i: int| 0 <= i < e.len() ==> key_present(req, #[trigger] e[i].0)
}

proof fn lemma_join_present(req: Option<Request>, a: Seq<(FieldKey, FieldModel)>, b: Seq<(FieldKey, FieldModel)>)
    requires
        all_present(req, a),
        all_present(req, b),
    ensures
        all_present(req, a + b),
{
    let c = a + b;
    assert forall|i: int| 0 <= i < c.len() implies key_present(req, #[trigger] c[i].0) by {
        if i < a.len() {
            assert(c[i] == a[i]);
        } else {
            assert(c[i] == b[i - a.len()]);
        }
    }
}

proof fn lemma_invoice_present(r: CreateQuickInvoice)
    ensures
        all_present(Some(Request::CreateQuickInvoice(r)), invoice_entries(r)),
{
    let q = Some(Request::CreateQuickInvoice(r));
    let e0 = seq![
        (FieldKey::Amount, FieldModel::Text(decimal_text_of(r.amount.mantissa as int, r.amount.scale as nat))),
        (FieldKey::PayCurrency, FieldModel::Text(r.pay_currency@)),
        (FieldKey::MerchantId, FieldModel::Text(r.merchant_id@)),
    ];
    assert(all_present(q, e0));
    let x1 = opt_text(FieldKey::OrderId, r.order_id);
    assert(all_present(q, x1));
    lemma_join_present(q, e0, x1);
    let e1 = e0 + x1;
    let x2 = opt_text(FieldKey::Email, r.email);
    assert(all_present(q, x2));
    lemma_join_present(q, e1, x2);
    let e2 = e1 + x2;
    let x3 = opt_text(FieldKey::ClientId, r.client_id);
    assert(all_present(q, x3));
    lemma_join_present(q, e2, x3);
    let e3 = e2 + x3;
    let x4 = opt_text(FieldKey::Title, r.title);
    assert(all_present(q, x4));
    lemma_join_present(q, e3, x4);
    let e4 = e3 + x4;
    let x5 = opt_text(FieldKey::Description, r.description);
    assert(all_present(q, x5));
    lemma_join_present(q, e4, x5);
    let e5 = e4 + x5;
    let x6 = opt_flag(FieldKey::Recalculation, r.recalculation);
    assert(all_present(q, x6));
    lemma_join_present(q, e5, x6);
    let e6 = e5 + x6;
    let x7 = opt_flag(FieldKey::NeedsEmailConfirmation, r.needs_email_confirmation);
    assert(all_present(q, x7));
    lemma_join_present(q, e6, x7);
    let e7 = e6 + x7;
    let x8 = opt_text(FieldKey::SuccessUrl, r.success_url);
    assert(all_present(q, x8));
    lemma_join_present(q, e7, x8);
    let e8 = e7 + x8;
    let x9 = opt_text(FieldKey::FailureUrl, r.failure_url);
    assert(all_present(q, x9));
    lemma_join_present(q, e8, x9);
    let e9 = e8 + x9;
    let x10 = opt_text(FieldKey::CallbackUrl, r.callback_url);
    assert(all_present(q, x10));
    lemma_join_present(q, e9, x10);
}

/// The JSON text of a value.
pub open spec fn value_text(m: FieldModel) -> Seq<char> {
    match m {
        FieldModel::Text(s) => json_string_of(s),
        FieldModel::Flag(b) => if b {
            "true"@
        } else {
            "false"@
        },
    }
}

/// One entry as JSON: the quoted key, a colon, the value.
pub open spec fn entry_text(e: (FieldKey, FieldModel)) -> Seq<char> {
    json_string_of(key_name(e.0)) + seq![':'] + value_text(e.1)
}

/// The entries as JSON, separated by commas.
pub open spec fn entries_text(e: Seq<(FieldKey, FieldModel)>) -> Seq<char>
    decreases e.len(),
{
    if e.len() == 0 {
        Seq::empty()
    } else if e.len() == 1 {
        entry_text(e[0])
    } else {
        entries_text(e.drop_last()) + seq![','] + entry_text(e.last())
    }
}

/// The canonical text: a JSON object of the entries, without white space.
pub open spec fn canonical_text(e: Seq<(FieldKey, FieldModel)>) -> Seq<char> {
    seq!['{'] + entries_text(e) + seq!['}']
}

fn push_field(v: &mut Vec<Field>, f: Field)
    ensures
        fields_model(final(v)@) == fields_model(old(v)@) + seq![field_model(f)],
{
    let ghost before = v@;
    v.push(f);
    proof {
        assert(fields_model(v@) =~= fields_model(before) + seq![field_model(f)]);
    }
}

fn push_opt_text(v: &mut Vec<Field>, k: FieldKey, o: &Option<String>)
    ensures
        fields_model(final(v)@) == fields_model(old(v)@) + opt_text(k, *o),
{
    match o {
        Some(s) => push_field(v, Field { key: k, value: FieldValue::Text(s.clone()) }),
        None => {
            assert(fields_model(v@) =~= fields_model(v@) + opt_text(k, *o));
        },
    }
}

fn push_opt_flag(v: &mut Vec<Field>, k: FieldKey, o: &Option<bool>)
    ensures
        fields_model(final(v)@) == fields_model(old(v)@) + opt_flag(k, *o),
{
    match o {
        Some(b) => push_field(v, Field { key: k, value: FieldValue::Flag(*b) }),
        None => {
            assert(fields_model(v@) =~= fields_model(v@) + opt_flag(k, *o));
        },
    }
}

/// The decimal text of a nonce.
pub fn nonce_text(n: u64) -> (r: String)
    ensures
        r@ == nat_text(n as nat),
    decreases n,
{
    let digits: &str = "0123456789";
    proof {
        reveal_strlit("0123456789");
        assert(digits@ =~= seq!['0', '1', '2', '3', '4', '5', '6', '7', '8', '9']);
        assert(digits.is_ascii());
    }
    if n < 10 {
        let d = n as usize;
        let r = String::from_str(digits.substring_ascii(d, d + 1));
        assert(r@ =~= seq![digit_char(n as nat)]);
        r
    } else {
        let mut r = nonce_text(n / 10);
        let d = (n % 10) as usize;
        r.append(digits.substring_ascii(d, d + 1));
        r
    }
}

/// The fields of a quick invoice, required ones first, then each optional
/// one that is set, in written order.
pub fn invoice_fields(r: &CreateQuickInvoice) -> (v: Vec<Field>)
    requires
        r.amount.wf(),
    ensures
        fields_model(v@) == invoice_entries(*r),
{
    let mut v: Vec<Field> = Vec::new();
    push_field(&mut v, Field { key: FieldKey::Amount, value: FieldValue::Text(r.amount.to_wire()) });
    push_field(&mut v, Field { key: FieldKey::PayCurrency, value: FieldValue::Text(r.pay_currency.clone()) });
    push_field(&mut v, Field { key: FieldKey::MerchantId, value: FieldValue::Text(r.merchant_id.clone()) });
    let ghost head = fields_model(v@);
    assert(head =~= seq![
        (FieldKey::Amount, FieldModel::Text(decimal_text_of(r.amount.mantissa as int, r.amount.scale as nat))),
        (FieldKey::PayCurrency, FieldModel::Text(r.pay_currency@)),
        (FieldKey::MerchantId, FieldModel::Text(r.merchant_id@)),
    ]);
    push_opt_text(&mut v, FieldKey::OrderId, &r.order_id);
    push_opt_text(&mut v, FieldKey::Email, &r.email);
    push_opt_text(&mut v, FieldKey::ClientId, &r.client_id);
    push_opt_text(&mut v, FieldKey::Title, &r.title);
    push_opt_text(&mut v, FieldKey::Description, &r.description);
    push_opt_flag(&mut v, FieldKey::Recalculation, &r.recalculation);
    push_opt_flag(&mut v, FieldKey::NeedsEmailConfirmation, &r.needs_email_confirmation);
    push_opt_text(&mut v, FieldKey::SuccessUrl, &r.success_url);
    push_opt_text(&mut v, FieldKey::FailureUrl, &r.failure_url);
    push_opt_text(&mut v, FieldKey::CallbackUrl, &r.callback_url);
    v
}

/// The amount of a request, where it has one, is in range.
pub open spec fn request_wf(req: Option<Request>) -> bool {
    match req {
        Some(Request::CreateQuickInvoice(r)) => r.amount.wf(),
        None => true,
    }
}

/// The canonical field map of a call: the request's set fields, then
/// `request` (the endpoint path) and `nonce` (its decimal text).
pub fn canonical_fields(request: &Option<Request>, path: &str, nonce: u64) -> (v: Vec<Field>)
    requires
        request_wf(*request),
    ensures
        fields_model(v@) == canonical_entries(*request, path@, nonce),
{
    let mut v = match request {
        Some(Request::CreateQuickInvoice(r)) => invoice_fields(r),
        None => Vec::new(),
    };
    assert(fields_model(v@) == request_entries(*request)) by {
        if request.is_none() {
            assert(fields_model(v@) =~= Seq::empty());
        }
    }
    push_field(&mut v, Field { key: FieldKey::Request, value: FieldValue::Text(String::from_str(path)) });
    push_field(&mut v, Field { key: FieldKey::Nonce, value: FieldValue::Text(nonce_text(nonce)) });
    v
}

fn append_value(out: &mut String, v: &FieldValue) -> (ok: bool)
    ensures
        ok,
        final(out)@ == old(out)@ + value_text(value_model(*v)),
{
    match v {
        FieldValue::Text(s) => match json_string(s.as_str()) {
            Some(t) => {
                out.append(t.as_str());
                true
            },
            None => false,
        },
        FieldValue::Flag(b) => {
            if *b {
                out.append("true");
            } else {
                out.append("false");
            }
            true
        },
    }
}

/// Writes the fields as one JSON object, in their order, without white
/// space: the text that is both signed and sent.
pub fn encode_fields(fields: &Vec<Field>) -> (r: Result<String, Error>)
    ensures
        r is Ok,
        r matches Ok(t) ==> t@ == canonical_text(fields_model(fields@)),
{
    proof {
        reveal_strlit("{");
        reveal_strlit("}");
        reveal_strlit(",");
        reveal_strlit(":");
    }
    let mut out = String::from_str("{");
    let mut i: usize = 0;
    while i < fields.len()
        invariant
            i <= fields@.len(),
            out@ == seq!['{'] + entries_text(fields_model(fields@).subrange(0, i as int)),
        decreases fields@.len() - i,
    {
        let ghost m = fields_model(fields@);
        let ghost before = out@;
        let f = &fields[i];
        if i > 0 {
            out.append(",");
        }
        let ghost c1 = out@;
        let name = f.key.name();
        match json_string(name) {
            Some(t) => out.append(t.as_str()),
            None => return Err(Error::SerdeError(String::from_str(name))),
        }
        out.append(":");
        let ghost c2 = out@;
        if !append_value(&mut out, &f.value) {
            return Err(Error::SerdeError(String::from_str(name)));
        }
        proof {
            reveal_strlit(",");
            reveal_strlit(":");
            let s = m.subrange(0, i + 1);
            let e = field_model(fields@[i as int]);
            assert(m[i as int] == e);
            assert(s.drop_last() =~= m.subrange(0, i as int));
            assert(s.last() == e);
            assert(c2 =~= c1 + json_string_of(key_name(f.key)) + seq![':']);
            assert(out@ == c2 + value_text(e.1));
            assert(out@ =~= c1 + entry_text(e));
            if i == 0 {
                assert(s =~= seq![e]);
                assert(c1 == before);
                assert(before =~= seq!['{']);
                assert(out@ =~= seq!['{'] + entry_text(s[0]));
            } else {
                assert(c1 =~= before + seq![',']);
                assert(out@ =~= seq!['{'] + (entries_text(s.drop_last()) + seq![','] + entry_text(s.last())));
            }
        }
        i = i + 1;
    }
    assert(fields_model(fields@).subrange(0, fields@.len() as int) =~= fields_model(fields@));
    out.append("}");
    Ok(out)
}

/// The canonical text of a call: the request's set fields plus `request`
/// and `nonce`, as one JSON object.
pub fn canonical_body(request: &Option<Request>, path: &str, nonce: u64) -> (r: Result<String, Error>)
    requires
        request_wf(*request),
    ensures
        r is Ok,
        r matches Ok(t) ==> t@ == canonical_text(canonical_entries(*request, path@, nonce)),
{
    let fields = canonical_fields(request, path, nonce);
    encode_fields(&fields)
}

} // verus!
