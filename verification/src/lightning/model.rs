//! Values that the payment backends exchange with their callers.

use crate::encoding::{hex_encode, hex_text};
use crate::lightning::error::{PaymentError, PaymentErrorView};
use vstd::prelude::*;

verus! {

/// The outcome of a settled payment: the hash of the invoice that was paid,
/// in hexadecimal, and the preimage that proves the payment. There is no
/// outcome without its proof: the preimage always has 32 bytes.
#[derive(Debug)]
pub struct PayInvoiceResult {
    payment_hash: String,
    preimage: Vec<u8>,
}

/// Mathematical value of a [`PayInvoiceResult`].
pub struct PayInvoiceResultView {
    pub payment_hash: Seq<char>,
    pub preimage: Seq<u8>,
}

impl View for PayInvoiceResult {
    type V = PayInvoiceResultView;

    closed spec fn view(&self) -> PayInvoiceResultView {
        PayInvoiceResultView { payment_hash: self.payment_hash@, preimage: self.preimage@ }
    }
}

/// Mathematical value of a payment's outcome.
pub open spec fn outcome_view(r: Result<PayInvoiceResult, PaymentError>) -> Result<
    PayInvoiceResultView,
    PaymentErrorView,
> {
    match r {
        Ok(paid) => Ok(paid@),
        Err(e) => Err(e@),
    }
}

/// The outcome that a payment hash in hexadecimal and the proof a backend
/// reports make: a proof of 32 bytes is the payment, any other is an
/// invalid preimage.
pub open spec fn proven_payment(payment_hash: Seq<char>, preimage: Seq<u8>) -> Result<
    PayInvoiceResultView,
    PaymentErrorView,
> {
    if preimage.len() == 32 {
        Ok(PayInvoiceResultView { payment_hash, preimage })
    } else {
        Err(PaymentErrorView::InvalidPreimage)
    }
}

/// The outcome that a payment hash and the proof a backend reports make.
pub open spec fn settled_payment(payment_hash: Seq<u8>, preimage: Seq<u8>) -> Result<
    PayInvoiceResultView,
    PaymentErrorView,
> {
    proven_payment(hex_text(payment_hash), preimage)
}

impl PayInvoiceResult {
    #[verifier::type_invariant]
    spec fn proven(self) -> bool {
        self.preimage@.len() == 32
    }

    /// The outcome of a payment for which a backend reports `preimage`.
    pub fn settled(payment_hash: &Vec<u8>, preimage: Vec<u8>) -> (r: Result<PayInvoiceResult, PaymentError>)
        ensures
            outcome_view(r) == settled_payment(payment_hash@, preimage@),
    {
        PayInvoiceResult::proven_by(hex_encode(payment_hash), preimage)
    }

    /// The outcome of a payment whose hash is at hand in hexadecimal.
    pub fn proven_by(payment_hash: String, preimage: Vec<u8>) -> (r: Result<PayInvoiceResult, PaymentError>)
        ensures
            outcome_view(r) == proven_payment(payment_hash@, preimage@),
    {
        if preimage.len() == 32 {
            Ok(PayInvoiceResult { payment_hash, preimage })
        } else {
            Err(PaymentError::InvalidPreimage)
        }
    }

    /// The hash of the invoice that was paid, in hexadecimal.
    pub fn payment_hash(&self) -> (hash: &String)
        ensures
            hash@ == self@.payment_hash,
    {
        &self.payment_hash
    }

    /// The preimage that proves the payment.
    pub fn preimage(&self) -> (preimage: &Vec<u8>)
        ensures
            preimage@ == self@.preimage,
            preimage@.len() == 32,
    {
        proof {
            use_type_invariant(self);
        }
        &self.preimage
    }

    /// The preimage that proves the payment, out of the outcome.
    pub fn into_preimage(self) -> (preimage: Vec<u8>)
        ensures
            preimage@ == self@.preimage,
            preimage@.len() == 32,
    {
        proof {
            use_type_invariant(&self);
        }
        self.preimage
    }
}

/// The verbs that the REST backends use.
#[derive(Clone, Copy, Debug, PartialEq, Eq, Structural)]
pub enum HttpMethod {
    Get,
    Post,
    Patch,
}

/// A call that a REST backend asks its driver to make: the verb, the path
/// below the backend's base address and the JSON body, empty for none.
#[derive(Debug)]
pub struct HttpCall {
    pub method: HttpMethod,
    pub endpoint: String,
    pub body: String,
}

/// Mathematical value of an [`HttpCall`].
pub struct HttpCallView {
    pub method: HttpMethod,
    pub endpoint: Seq<char>,
    pub body: Seq<char>,
}

impl View for HttpCall {
    type V = HttpCallView;

    open spec fn view(&self) -> HttpCallView {
        HttpCallView { method: self.method, endpoint: self.endpoint@, body: self.body@ }
    }
}

} // verus!
