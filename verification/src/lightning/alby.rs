//! The custodial REST wallet: one call, authorised by a bearer token, pays
//! an invoice and returns the preimage.

use crate::encoding::{hex_bytes, hex_decode, is_hex_text};
use crate::lightning::error::{check_status, status_outcome, PaymentError, PaymentErrorView};
use crate::lightning::json::{json_field, json_quote, json_quoted, json_text_field, JsonField, JsonFieldView};
use crate::lightning::model::{HttpCall, HttpCallView, HttpMethod};
use vstd::prelude::*;

verus! {

/// A client of the custodial wallet: the key that authorises its calls and
/// the address that its paths are joined to.
#[derive(Debug)]
pub struct AlbyClient {
    pub api_key: String,
    pub alby_url: String,
}

/// The body that asks the wallet to pay an invoice.
pub open spec fn bolt11_payment_body(invoice: Seq<char>) -> Seq<char> {
    "{\"invoice\":"@ + json_quoted(invoice) + "}"@
}

/// The call that asks the wallet to pay an invoice.
pub open spec fn bolt11_payment_call(invoice: Seq<char>) -> HttpCallView {
    HttpCallView { method: HttpMethod::Post, endpoint: "payments/bolt11"@, body: bolt11_payment_body(invoice) }
}

/// The preimage that a reply reports, given what it holds under the key
/// `payment_preimage`: 64 hexadecimal digits give the 32 bytes; other text
/// is an invalid preimage; a reply without that text is an invalid
/// response.
pub open spec fn preimage_of(body: Seq<char>, field: JsonFieldView) -> Result<Seq<u8>, PaymentErrorView> {
    match field {
        JsonFieldView::Text(t) => if is_hex_text(t) && t.len() == 64 {
            Ok(hex_bytes(t))
        } else {
            Err(PaymentErrorView::InvalidPreimage)
        },
        _ => Err(PaymentErrorView::InvalidResponse(body)),
    }
}

/// What the reply to a payment gives.
pub open spec fn payment_reply(status: u16, body: Seq<char>) -> Result<Seq<u8>, PaymentErrorView> {
    match status_outcome(status, body) {
        Ok(b) => preimage_of(b, json_text_field(b, "payment_preimage"@)),
        Err(e) => Err(e),
    }
}

/// Mathematical value of a payment's outcome.
pub open spec fn preimage_view(r: Result<Vec<u8>, PaymentError>) -> Result<Seq<u8>, PaymentErrorView> {
    match r {
        Ok(p) => Ok(p@),
        Err(e) => Err(e@),
    }
}

/// The body that asks the wallet to pay `invoice`.
pub fn payment_body(invoice: &str) -> (body: String)
    ensures
        body@ == bolt11_payment_body(invoice@),
{
    let mut body = String::from_str("{\"invoice\":");
    let quoted = json_quote(invoice);
    body.append(quoted.as_str());
    body.append("}");
    body
}

/// The preimage that a reply reports, given what the reply holds under the
/// key `payment_preimage`.
pub fn preimage_from(body: String, field: JsonField) -> (r: Result<Vec<u8>, PaymentError>)
    ensures
        preimage_view(r) == preimage_of(body@, field@),
        r is Ok ==> r->Ok_0@.len() == 32,
{
    match field {
        JsonField::Text(t) => {
            match hex_decode(t.as_str()) {
                Some(bytes) => {
                    if bytes.len() == 32 {
                        Ok(bytes)
                    } else {
                        Err(PaymentError::InvalidPreimage)
                    }
                },
                None => Err(PaymentError::InvalidPreimage),
            }
        },
        _ => Err(PaymentError::InvalidResponse(body)),
    }
}

/// The preimage that the wallet's reply to a payment reports.
pub fn payment_preimage(status: u16, body: String) -> (r: Result<Vec<u8>, PaymentError>)
    ensures
        preimage_view(r) == payment_reply(status, body@),
        r is Ok ==> r->Ok_0@.len() == 32,
{
    match check_status(status, body) {
        Ok(body) => {
            let field = json_field(body.as_str(), "payment_preimage");
            preimage_from(body, field)
        },
        Err(e) => Err(e),
    }
}

impl AlbyClient {
    /// A client that authorises its calls with `api_key`.
    pub fn new(api_key: &str) -> (client: AlbyClient)
        ensures
            client.api_key@ == api_key@,
            client.alby_url@ == "https://api.getalby.com"@,
    {
        AlbyClient { api_key: String::from_str(api_key), alby_url: String::from_str("https://api.getalby.com") }
    }

    /// The call that asks the wallet to pay `invoice`.
    pub fn pay_invoice_request(&self, invoice: &str) -> (call: HttpCall)
        ensures
            call@ == bolt11_payment_call(invoice@),
    {
        HttpCall {
            method: HttpMethod::Post,
            endpoint: String::from_str("payments/bolt11"),
            body: payment_body(invoice),
        }
    }
}

} // verus!
