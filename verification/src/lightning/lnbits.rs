//! The LNbits wallet, reached with an admin key at an address of the
//! caller's choosing.

use crate::lightning::alby::{preimage_from, preimage_of, preimage_view};
use crate::lightning::error::{check_reply, reply_outcome, BackendReply, BackendReplyView, PaymentError, PaymentErrorView};
use crate::lightning::json::{json_field, json_quote, json_quoted, json_text_field};
use crate::lightning::model::{HttpCall, HttpCallView, HttpMethod};
use vstd::prelude::*;

verus! {

/// A client of an LNbits wallet.
#[derive(Debug)]
pub struct LNBitsClient {
    pub admin_key: String,
    pub lnbits_url: String,
}

/// The call that asks the wallet to pay an invoice out of its funds.
pub open spec fn lnbits_payment_call(bolt11: Seq<char>) -> HttpCallView {
    HttpCallView {
        method: HttpMethod::Post,
        endpoint: "api/v1/payments"@,
        body: "{\"out\":true,\"bolt11\":"@ + json_quoted(bolt11) + "}"@,
    }
}

/// The preimage that the wallet's reply to a payment reports under the key
/// `preimage`; a failure of the wallet or of the network is that failure.
pub open spec fn lnbits_payment_reply(reply: BackendReplyView) -> Result<Seq<u8>, PaymentErrorView> {
    match reply_outcome(reply) {
        Ok(body) => preimage_of(body, json_text_field(body, "preimage"@)),
        Err(e) => Err(e),
    }
}

impl LNBitsClient {
    /// The preimage that the wallet's reply to a payment reports.
    pub fn payment_preimage(&self, reply: BackendReply) -> (r: Result<Vec<u8>, PaymentError>)
        ensures
            preimage_view(r) == lnbits_payment_reply(reply@),
            r is Ok ==> r->Ok_0@.len() == 32,
    {
        match check_reply(reply) {
            Ok(body) => {
                let field = json_field(body.as_str(), "preimage");
                preimage_from(body, field)
            },
            Err(e) => Err(e),
        }
    }

    /// The call that asks the wallet to pay `bolt11`.
    pub fn pay_invoice_request(&self, bolt11: &str) -> (call: HttpCall)
        ensures
            call@ == lnbits_payment_call(bolt11@),
    {
        let mut body = String::from_str("{\"out\":true,\"bolt11\":");
        let quoted = json_quote(bolt11);
        body.append(quoted.as_str());
        body.append("}");
        HttpCall { method: HttpMethod::Post, endpoint: String::from_str("api/v1/payments"), body }
    }

    /// A client of the wallet at `url` that authorises its calls with
    /// `admin_key`.
    pub fn new(admin_key: &str, url: &str) -> (client: LNBitsClient)
        ensures
            client.admin_key@ == admin_key@,
            client.lnbits_url@ == url@,
    {
        LNBitsClient { admin_key: String::from_str(admin_key), lnbits_url: String::from_str(url) }
    }
}

} // verus!
