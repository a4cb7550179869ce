//! The two-step quote wallet: a payment is first quoted, then the quote is
//! executed, and only a completed execution counts as paid.

use crate::encoding::{hex_bytes, hex_decode, hex_encode, hex_text, is_hex_text, str_equal, text_view};
use crate::lightning::error::{body_view, check_status, status_outcome, PaymentError, PaymentErrorView};
use crate::lightning::json::{json_field, json_quote, json_quoted, json_text_field, JsonField, JsonFieldView};
use crate::lightning::model::{HttpCall, HttpCallView, HttpMethod};
use vstd::prelude::*;

verus! {

/// The wallet's base address.
pub open spec fn strike_base() -> Seq<char> {
    "https://api.strike.me"@
}

/// A client of the quote wallet: the key that authorises its calls and the
/// address that its paths are joined to.
#[derive(Debug)]
pub struct StrikeClient {
    pub api_key: String,
    pub strike_url: String,
}

/// The body that asks for a payment quote on an invoice.
pub open spec fn payment_quote_body(bolt11: Seq<char>) -> Seq<char> {
    "{\"lnInvoice\":"@ + json_quoted(bolt11) + ",\"sourceCurrency\":\"BTC\"}"@
}

/// The call that asks for a payment quote on an invoice.
pub open spec fn payment_quote_call(bolt11: Seq<char>) -> HttpCallView {
    HttpCallView {
        method: HttpMethod::Post,
        endpoint: "v1/payment-quotes/lightning"@,
        body: payment_quote_body(bolt11),
    }
}

/// The call that executes a payment quote.
pub open spec fn execute_quote_call(quote_id: Seq<char>) -> HttpCallView {
    HttpCallView {
        method: HttpMethod::Patch,
        endpoint: "v1/payment-quotes/"@ + quote_id + "/execute"@,
        body: "{}"@,
    }
}

/// What is asked of the wallet when one of its invoices is quoted.
#[derive(Debug)]
pub struct QuoteRequest {
    pub description_hash: String,
}

/// The body that a quote request is sent as.
pub open spec fn quote_request_body(description_hash: Seq<char>) -> Seq<char> {
    "{\"descriptionHash\":"@ + json_quoted(description_hash) + "}"@
}

/// The call that asks for the quote of one of the wallet's own invoices.
pub open spec fn invoice_quote_call(invoice_id: Seq<char>, description_hash: Seq<char>) -> HttpCallView {
    HttpCallView {
        method: HttpMethod::Post,
        endpoint: "v1/invoices/"@ + invoice_id + "/quote"@,
        body: quote_request_body(description_hash),
    }
}

/// The call that asks for the state of one of the wallet's own invoices.
pub open spec fn invoice_state_call(invoice_id: Seq<char>) -> HttpCallView {
    HttpCallView { method: HttpMethod::Get, endpoint: "v1/invoices/"@ + invoice_id, body: Seq::empty() }
}

/// The text under a key that a reply must hold: a reply that is not JSON,
/// or holds no text there, is an invalid response with the reply as detail.
pub open spec fn required_text(body: Seq<char>, field: JsonFieldView) -> Result<Seq<char>, PaymentErrorView> {
    match field {
        JsonFieldView::Text(t) => Ok(t),
        _ => Err(PaymentErrorView::InvalidResponse(body)),
    }
}

/// Whether the state that a reply reports is `expected`: a reply without a
/// state reports none, and a reply that is not JSON is an invalid response.
pub open spec fn state_is(body: Seq<char>, field: JsonFieldView, expected: Seq<char>) -> Result<
    bool,
    PaymentErrorView,
> {
    match field {
        JsonFieldView::Text(t) => Ok(t == expected),
        JsonFieldView::Absent => Ok(false),
        JsonFieldView::Invalid => Err(PaymentErrorView::InvalidResponse(body)),
    }
}

/// Mathematical value of a yes-or-no outcome.
pub open spec fn flag_view(r: Result<bool, PaymentError>) -> Result<bool, PaymentErrorView> {
    match r {
        Ok(b) => Ok(b),
        Err(e) => Err(e@),
    }
}

/// The text that a reply must hold under a key, given what it holds there.
pub fn text_from(body: String, field: JsonField) -> (r: Result<String, PaymentError>)
    ensures
        body_view(r) == required_text(body@, field@),
{
    match field {
        JsonField::Text(t) => Ok(t),
        _ => Err(PaymentError::InvalidResponse(body)),
    }
}

/// Whether a reply reports the state `expected`, given what it holds under
/// the key `state`.
pub fn state_from(body: String, field: JsonField, expected: &str) -> (r: Result<bool, PaymentError>)
    ensures
        flag_view(r) == state_is(body@, field@, expected@),
{
    match field {
        JsonField::Text(t) => Ok(str_equal(t.as_str(), expected)),
        JsonField::Absent => Ok(false),
        JsonField::Invalid => Err(PaymentError::InvalidResponse(body)),
    }
}

/// What the reply to a quote request gives: the quote's identifier.
pub open spec fn quote_reply(status: u16, body: Seq<char>) -> Result<Seq<char>, PaymentErrorView> {
    match status_outcome(status, body) {
        Ok(b) => required_text(b, json_text_field(b, "paymentQuoteId"@)),
        Err(e) => Err(e),
    }
}

/// What the reply to an execution gives: whether the payment completed.
pub open spec fn execution_reply(status: u16, body: Seq<char>) -> Result<bool, PaymentErrorView> {
    match status_outcome(status, body) {
        Ok(b) => state_is(b, json_text_field(b, "state"@), "COMPLETED"@),
        Err(e) => Err(e),
    }
}

/// What the reply to a state request gives: whether the invoice is paid.
pub open spec fn paid_reply(status: u16, body: Seq<char>) -> Result<bool, PaymentErrorView> {
    match status_outcome(status, body) {
        Ok(b) => state_is(b, json_text_field(b, "state"@), "PAID"@),
        Err(e) => Err(e),
    }
}

/// What the reply to a quote request on an invoice of the wallet gives: the
/// Lightning invoice to pay.
pub open spec fn invoice_quote_reply(status: u16, body: Seq<char>) -> Result<Seq<char>, PaymentErrorView> {
    match status_outcome(status, body) {
        Ok(b) => required_text(b, json_text_field(b, "lnInvoice"@)),
        Err(e) => Err(e),
    }
}

/// What the reply to the making of an invoice gives: the identifier of the
/// wallet's invoice.
pub open spec fn invoice_reply(status: u16, body: Seq<char>) -> Result<Seq<char>, PaymentErrorView> {
    match status_outcome(status, body) {
        Ok(b) => required_text(b, json_text_field(b, "invoiceId"@)),
        Err(e) => Err(e),
    }
}

/// `text` without its hyphens.
pub open spec fn without_hyphens(text: Seq<char>) -> Seq<char>
    decreases text.len(),
{
    if text.len() == 0 {
        text
    } else if text.last() == '-' {
        without_hyphens(text.drop_last())
    } else {
        without_hyphens(text.drop_last()).push(text.last())
    }
}

/// `text` with zeros put before it until it has `width` characters.
pub open spec fn zero_padded(text: Seq<char>, width: nat) -> Seq<char> {
    if text.len() >= width {
        text
    } else {
        Seq::new((width - text.len()) as nat, |i: int| '0') + text
    }
}

/// The description hash that stands for an invoice identifier: the
/// identifier's hexadecimal digits without the hyphens, in lower case, with
/// zeros before them up to 64 characters; none where the identifier holds
/// anything but hyphens and an even number of hexadecimal digits.
pub open spec fn description_hash_of(invoice_id: Seq<char>) -> Option<Seq<char>> {
    let digits = without_hyphens(invoice_id);
    if is_hex_text(digits) {
        Some(zero_padded(hex_text(hex_bytes(digits)), 64))
    } else {
        None
    }
}

fn strip_hyphens(text: &str) -> (r: String)
    ensures
        r@ == without_hyphens(text@),
{
    let n = text.unicode_len();
    let mut out = String::new();
    let mut i: usize = 0;
    while i < n
        invariant
            n == text@.len(),
            i <= n,
            out@ == without_hyphens(text@.subrange(0, i as int)),
        decreases n - i,
    {
        let ghost before = text@.subrange(0, i as int);
        let ghost after = text@.subrange(0, i + 1);
        assert(after.drop_last() =~= before);
        assert(after.last() == text@[i as int]);
        if text.get_char(i) != '-' {
            let piece = text.substring_char(i, i + 1);
            assert(piece@ =~= seq![text@[i as int]]);
            out.append(piece);
            assert(out@ =~= without_hyphens(before).push(text@[i as int]));
        }
        i += 1;
    }
    assert(text@.subrange(0, n as int) =~= text@);
    out
}

fn pad_zeros(text: String, width: usize) -> (r: String)
    ensures
        r@ == zero_padded(text@, width as nat),
{
    let n = text.as_str().unicode_len();
    if n >= width {
        return text;
    }
    let mut out = String::new();
    let mut i: usize = 0;
    while i < width - n
        invariant
            n < width,
            i <= width - n,
            out@ == Seq::new(i as nat, |k: int| '0'),
        decreases width - n - i,
    {
        proof {
            reveal_strlit("0");
        }
        out.append("0");
        i += 1;
        assert(out@ =~= Seq::new(i as nat, |k: int| '0'));
    }
    out.append(text.as_str());
    out
}

impl QuoteRequest {
    /// The request for the quote of the invoice `invoice_id`; none where
    /// the identifier holds anything but hyphens and an even number of
    /// hexadecimal digits.
    pub fn for_invoice(invoice_id: &str) -> (r: Option<QuoteRequest>)
        ensures
            r is Some == description_hash_of(invoice_id@) is Some,
            r is Some ==> r->Some_0.description_hash@ == description_hash_of(invoice_id@)->Some_0,
    {
        match StrikeClient::description_hash(invoice_id) {
            Some(description_hash) => Some(QuoteRequest { description_hash }),
            None => None,
        }
    }

    /// The body that the request is sent as.
    pub fn body(&self) -> (body: String)
        ensures
            body@ == quote_request_body(self.description_hash@),
    {
        let mut body = String::from_str("{\"descriptionHash\":");
        let quoted = json_quote(self.description_hash.as_str());
        body.append(quoted.as_str());
        body.append("}");
        body
    }
}

impl StrikeClient {
    /// A client that authorises its calls with `api_key`.
    pub fn new(api_key: &str) -> (client: StrikeClient)
        ensures
            client.api_key@ == api_key@,
            client.strike_url@ == strike_base(),
    {
        StrikeClient { api_key: String::from_str(api_key), strike_url: String::from_str("https://api.strike.me") }
    }

    /// The call that asks the wallet to quote the payment of `bolt11`.
    pub fn payment_quote_request(&self, bolt11: &str) -> (call: HttpCall)
        ensures
            call@ == payment_quote_call(bolt11@),
    {
        let mut body = String::from_str("{\"lnInvoice\":");
        let quoted = json_quote(bolt11);
        body.append(quoted.as_str());
        body.append(",\"sourceCurrency\":\"BTC\"}");
        HttpCall { method: HttpMethod::Post, endpoint: String::from_str("v1/payment-quotes/lightning"), body }
    }

    /// The identifier of the quote that the wallet replied with.
    pub fn payment_quote_id(&self, status: u16, body: String) -> (r: Result<String, PaymentError>)
        ensures
            body_view(r) == quote_reply(status, body@),
    {
        match check_status(status, body) {
            Ok(body) => {
                let field = json_field(body.as_str(), "paymentQuoteId");
                text_from(body, field)
            },
            Err(e) => Err(e),
        }
    }

    /// The call that executes the quote `quote_id`.
    pub fn execute_quote_request(&self, quote_id: &str) -> (call: HttpCall)
        ensures
            call@ == execute_quote_call(quote_id@),
    {
        let mut endpoint = String::from_str("v1/payment-quotes/");
        endpoint.append(quote_id);
        endpoint.append("/execute");
        HttpCall { method: HttpMethod::Patch, endpoint, body: String::from_str("{}") }
    }

    /// Whether the execution that the wallet replied to completed.
    pub fn execution_completed(&self, status: u16, body: String) -> (r: Result<bool, PaymentError>)
        ensures
            flag_view(r) == execution_reply(status, body@),
    {
        match check_status(status, body) {
            Ok(body) => {
                let field = json_field(body.as_str(), "state");
                state_from(body, field, "COMPLETED")
            },
            Err(e) => Err(e),
        }
    }

    /// The call that asks for the state of the wallet's invoice
    /// `invoice_id`.
    pub fn invoice_state_request(&self, invoice_id: &str) -> (call: HttpCall)
        ensures
            call@ == invoice_state_call(invoice_id@),
    {
        let mut endpoint = String::from_str("v1/invoices/");
        endpoint.append(invoice_id);
        HttpCall { method: HttpMethod::Get, endpoint, body: String::new() }
    }

    /// Whether the invoice that the wallet replied about is paid.
    pub fn is_invoice_paid(&self, status: u16, body: String) -> (r: Result<bool, PaymentError>)
        ensures
            flag_view(r) == paid_reply(status, body@),
    {
        match check_status(status, body) {
            Ok(body) => {
                let field = json_field(body.as_str(), "state");
                state_from(body, field, "PAID")
            },
            Err(e) => Err(e),
        }
    }

    /// The identifier of the invoice that the wallet replied with.
    pub fn strike_invoice_id(&self, status: u16, body: String) -> (r: Result<String, PaymentError>)
        ensures
            body_view(r) == invoice_reply(status, body@),
    {
        match check_status(status, body) {
            Ok(body) => {
                let field = json_field(body.as_str(), "invoiceId");
                text_from(body, field)
            },
            Err(e) => Err(e),
        }
    }

    /// The description hash that the wallet expects for `invoice_id`.
    pub fn description_hash(invoice_id: &str) -> (r: Option<String>)
        ensures
            text_view(r) == description_hash_of(invoice_id@),
    {
        let digits = strip_hyphens(invoice_id);
        match hex_decode(digits.as_str()) {
            Some(bytes) => Some(pad_zeros(hex_encode(&bytes), 64)),
            None => None,
        }
    }

    /// The call that asks for the Lightning invoice of the wallet's invoice
    /// `invoice_id`; none where the identifier is not hexadecimal.
    pub fn create_strike_quote_request(&self, invoice_id: &str) -> (r: Option<HttpCall>)
        ensures
            r is Some == description_hash_of(invoice_id@) is Some,
            r is Some ==> r->Some_0@ == invoice_quote_call(invoice_id@, description_hash_of(invoice_id@)->Some_0),
    {
        match QuoteRequest::for_invoice(invoice_id) {
            Some(request) => {
                let mut endpoint = String::from_str("v1/invoices/");
                endpoint.append(invoice_id);
                endpoint.append("/quote");
                Some(HttpCall { method: HttpMethod::Post, endpoint, body: request.body() })
            },
            None => None,
        }
    }

    /// The Lightning invoice that the wallet replied with.
    pub fn strike_quote_invoice(&self, status: u16, body: String) -> (r: Result<String, PaymentError>)
        ensures
            body_view(r) == invoice_quote_reply(status, body@),
    {
        match check_status(status, body) {
            Ok(body) => {
                let field = json_field(body.as_str(), "lnInvoice");
                text_from(body, field)
            },
            Err(e) => Err(e),
        }
    }
}

} // verus!
