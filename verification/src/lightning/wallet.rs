//! The REST wallets as payment backends: each pays an invoice by the calls
//! its rules ask for, made through a transport of the caller's.

use crate::encoding::hex_text;
use crate::lightning::error::{BackendReply, PaymentError, PaymentErrorView};
use crate::lightning::model::{outcome_view, HttpCall, HttpCallView, PayInvoiceResult, PayInvoiceResultView};
use crate::lightning::utils::{bolt11_decoded, decode_invoice};
use crate::lightning::{AlbyLightning, Lightning, LnbitsLightning, PaymentAction, StrikeLightning};
use vstd::prelude::*;

verus! {

/// What makes a wallet's calls: it sends one call and reports the reply, or
/// that none came.
pub trait Transport {
    fn send(&self, call: &HttpCall) -> BackendReply;
}

/// What holds of a payment's outcome whatever the wallet replied: an
/// invoice that does not decode is refused as invalid, and a payment is
/// reported only for an invoice that decodes, under that invoice's hash and
/// with a preimage of 32 bytes.
pub open spec fn pays_only_with_proof(
    payment_request: Seq<char>,
    outcome: Result<PayInvoiceResultView, PaymentErrorView>,
) -> bool {
    match outcome {
        Ok(paid) => {
            &&& bolt11_decoded(payment_request) is Ok
            &&& paid.payment_hash == hex_text(bolt11_decoded(payment_request)->Ok_0.payment_hash)
            &&& paid.preimage.len() == 32
        },
        Err(e) => bolt11_decoded(payment_request) is Err ==> e == PaymentErrorView::InvalidInvoice,
    }
}

/// The call that pays an invoice, where the invoice decodes.
pub open spec fn guarded_call(payment_request: Seq<char>, call: HttpCallView) -> Result<
    HttpCallView,
    PaymentErrorView,
> {
    match bolt11_decoded(payment_request) {
        Ok(_) => Ok(call),
        Err(_) => Err(PaymentErrorView::InvalidInvoice),
    }
}

/// Mathematical value of a call that may have been refused.
pub open spec fn call_view(r: Result<HttpCall, PaymentError>) -> Result<HttpCallView, PaymentErrorView> {
    match r {
        Ok(call) => Ok(call@),
        Err(e) => Err(e@),
    }
}

impl LnbitsLightning {
    /// The call that pays `payment_request`; an invoice that does not
    /// decode is refused before anything is sent.
    pub fn begin_payment(&self, payment_request: &str) -> (r: Result<HttpCall, PaymentError>)
        ensures
            call_view(r) == guarded_call(
                payment_request@,
                crate::lightning::lnbits::lnbits_payment_call(payment_request@),
            ),
    {
        match decode_invoice(payment_request) {
            Ok(_) => Ok(self.client.pay_invoice_request(payment_request)),
            Err(_) => Err(PaymentError::InvalidInvoice),
        }
    }

    /// Pays `payment_request` with one call through `transport`.
    pub fn pay_invoice<T: Transport>(&self, transport: &T, payment_request: &str) -> (r: Result<
        PayInvoiceResult,
        PaymentError,
    >)
        ensures
            pays_only_with_proof(payment_request@, outcome_view(r)),
    {
        match self.begin_payment(payment_request) {
            Ok(call) => {
                let reply = transport.send(&call);
                self.pay_invoice_result(payment_request, reply)
            },
            Err(e) => Err(e),
        }
    }
}

impl AlbyLightning {
    /// The call that pays `payment_request`; an invoice that does not
    /// decode is refused before anything is sent.
    pub fn begin_payment(&self, payment_request: &str) -> (r: Result<HttpCall, PaymentError>)
        ensures
            call_view(r) == guarded_call(
                payment_request@,
                crate::lightning::alby::bolt11_payment_call(payment_request@),
            ),
    {
        match decode_invoice(payment_request) {
            Ok(_) => Ok(self.client.pay_invoice_request(payment_request)),
            Err(_) => Err(PaymentError::InvalidInvoice),
        }
    }

    /// Pays `payment_request` with one call through `transport`.
    pub fn pay_invoice<T: Transport>(&self, transport: &T, payment_request: &str) -> (r: Result<
        PayInvoiceResult,
        PaymentError,
    >)
        ensures
            pays_only_with_proof(payment_request@, outcome_view(r)),
    {
        match self.begin_payment(payment_request) {
            Ok(call) => {
                let reply = transport.send(&call);
                self.pay_invoice_result(payment_request, reply)
            },
            Err(e) => Err(e),
        }
    }
}

impl StrikeLightning {
    /// Pays `payment_request` through `transport`: the quote is asked for
    /// once and, where the wallet gives one, executed once; nothing is sent
    /// for an invoice that does not decode, and nothing after a failure.
    pub fn pay_invoice<T: Transport>(&self, transport: &T, payment_request: &str) -> (r: Result<
        PayInvoiceResult,
        PaymentError,
    >)
        ensures
            pays_only_with_proof(payment_request@, outcome_view(r)),
    {
        let (state, action) = self.begin_payment(payment_request);
        match action {
            PaymentAction::Call(quote) => {
                let reply = transport.send(&quote);
                let (state, action) = self.on_reply(state, reply);
                match action {
                    PaymentAction::Call(execution) => {
                        let reply = transport.send(&execution);
                        let (_, action) = self.on_reply(state, reply);
                        match action {
                            PaymentAction::Paid(paid) => Ok(paid),
                            PaymentAction::Failed(e) => Err(e),
                            PaymentAction::Call(_) => Err(PaymentError::NotCompleted),
                        }
                    },
                    PaymentAction::Paid(paid) => Ok(paid),
                    PaymentAction::Failed(e) => Err(e),
                }
            },
            PaymentAction::Paid(paid) => Ok(paid),
            PaymentAction::Failed(e) => Err(e),
        }
    }
}

/// The REST wallets that are known.
#[derive(Debug)]
pub enum RestBackend {
    Lnbits(LnbitsLightning),
    Alby(AlbyLightning),
    Strike(StrikeLightning),
}

/// A REST wallet together with the transport that reaches it.
pub struct Wallet<T: Transport> {
    pub backend: RestBackend,
    pub transport: T,
}

impl<T: Transport> Lightning for Wallet<T> {
    fn pay_invoice(&self, payment_request: String) -> (r: Result<PayInvoiceResult, PaymentError>)
        ensures
            pays_only_with_proof(payment_request@, outcome_view(r)),
    {
        match &self.backend {
            RestBackend::Lnbits(rules) => rules.pay_invoice(&self.transport, payment_request.as_str()),
            RestBackend::Alby(rules) => rules.pay_invoice(&self.transport, payment_request.as_str()),
            RestBackend::Strike(rules) => rules.pay_invoice(&self.transport, payment_request.as_str()),
        }
    }
}

} // verus!
