//! Lightning payment backends and the invoices they settle.

pub mod alby;
pub mod error;
pub mod json;
pub mod lnbits;
pub mod model;
pub mod strike;
pub mod utils;
pub mod wallet;

use crate::encoding::{hex_encode, hex_text};
use crate::lightning::alby::{payment_preimage, payment_reply, preimage_from, preimage_of, AlbyClient};
use crate::lightning::error::{
    check_status, status_outcome, BackendReply, BackendReplyView, PaymentError, PaymentErrorView,
};
use crate::lightning::json::{json_field, json_text_field, JsonField, JsonFieldView};
use crate::lightning::lnbits::{lnbits_payment_reply, LNBitsClient};
use crate::lightning::model::{
    outcome_view, settled_payment, HttpCall, HttpCallView, PayInvoiceResult, PayInvoiceResultView,
};
use crate::lightning::strike::{
    execute_quote_call, execution_reply, payment_quote_call, quote_reply, state_from, state_is, StrikeClient,
};
use crate::lightning::utils::{bolt11_decoded, decode_invoice};
use vstd::prelude::*;

verus! {

/// A payment backend: something that settles an invoice given as text. What
/// it returns on success carries the 32-byte preimage, by the making of
/// [`PayInvoiceResult`].
pub trait Lightning {
    fn pay_invoice(&self, payment_request: String) -> Result<PayInvoiceResult, PaymentError>;
}

/// How to reach an LNbits wallet.
#[derive(Debug, Default)]
pub struct LnbitsLightningSettings {
    pub admin_key: Option<String>,
    pub url: Option<String>,
}

/// How to reach the custodial wallet.
#[derive(Debug, Default)]
pub struct AlbyLightningSettings {
    pub api_key: Option<String>,
}

/// How to reach the quote wallet.
#[derive(Debug, Default)]
pub struct StrikeLightningSettings {
    pub api_key: Option<String>,
}

/// How to reach an LND node over gRPC.
#[derive(Debug, Default)]
pub struct LndLightningSettings {
    pub grpc_host: Option<String>,
    pub tls_cert_path: Option<String>,
    pub macaroon_path: Option<String>,
}

/// How to reach a Core Lightning node over its socket.
#[derive(Debug, Default)]
pub struct ClnLightningSettings {
    pub rpc_path: Option<String>,
}

/// The known payment backends, each with its settings.
#[derive(Debug)]
pub enum LightningType {
    Lnbits(LnbitsLightningSettings),
    Alby(AlbyLightningSettings),
    Strike(StrikeLightningSettings),
    Lnd(LndLightningSettings),
    Cln(ClnLightningSettings),
}

/// The text of an optional setting, empty where it is not set.
pub open spec fn setting_text(setting: Option<String>) -> Seq<char> {
    match setting {
        Some(text) => text@,
        None => Seq::empty(),
    }
}

fn append_setting(out: &mut String, setting: &Option<String>)
    ensures
        final(out)@ == old(out)@ + setting_text(*setting),
{
    match setting {
        Some(text) => {
            out.append(text.as_str());
        },
        None => {
            assert(old(out)@ + Seq::<char>::empty() =~= old(out)@);
        },
    }
}

impl LnbitsLightningSettings {
    pub fn new(admin_key: &str, url: &str) -> (settings: LnbitsLightningSettings)
        ensures
            settings.admin_key is Some,
            settings.url is Some,
            settings.admin_key->Some_0@ == admin_key@,
            settings.url->Some_0@ == url@,
    {
        LnbitsLightningSettings { admin_key: Some(String::from_str(admin_key)), url: Some(String::from_str(url)) }
    }

    /// The settings as one line of text.
    pub open spec fn description(&self) -> Seq<char> {
        "admin_key: "@ + setting_text(self.admin_key) + ", url: "@ + setting_text(self.url)
    }

    /// The settings as one line of text.
    pub fn describe(&self) -> (text: String)
        requires
            self.admin_key is Some,
            self.url is Some,
        ensures
            text@ == self.description(),
    {
        let mut text = String::from_str("admin_key: ");
        append_setting(&mut text, &self.admin_key);
        text.append(", url: ");
        append_setting(&mut text, &self.url);
        text
    }
}

impl AlbyLightningSettings {
    pub fn new(api_key: &str) -> (settings: AlbyLightningSettings)
        ensures
            settings.api_key is Some,
            settings.api_key->Some_0@ == api_key@,
    {
        AlbyLightningSettings { api_key: Some(String::from_str(api_key)) }
    }

    /// The settings as one line of text.
    pub open spec fn description(&self) -> Seq<char> {
        "api_key: "@ + setting_text(self.api_key)
    }

    /// The settings as one line of text.
    pub fn describe(&self) -> (text: String)
        requires
            self.api_key is Some,
        ensures
            text@ == self.description(),
    {
        let mut text = String::from_str("api_key: ");
        append_setting(&mut text, &self.api_key);
        text
    }
}

impl StrikeLightningSettings {
    pub fn new(api_key: &str) -> (settings: StrikeLightningSettings)
        ensures
            settings.api_key is Some,
            settings.api_key->Some_0@ == api_key@,
    {
        StrikeLightningSettings { api_key: Some(String::from_str(api_key)) }
    }

    /// The settings as one line of text.
    pub open spec fn description(&self) -> Seq<char> {
        "api_key: "@ + setting_text(self.api_key)
    }

    /// The settings as one line of text.
    pub fn describe(&self) -> (text: String)
        requires
            self.api_key is Some,
        ensures
            text@ == self.description(),
    {
        let mut text = String::from_str("api_key: ");
        append_setting(&mut text, &self.api_key);
        text
    }
}

impl LndLightningSettings {
    /// Whether every setting is set.
    pub open spec fn complete(&self) -> bool {
        self.grpc_host is Some && self.tls_cert_path is Some && self.macaroon_path is Some
    }

    /// The settings as one line of text.
    pub open spec fn description(&self) -> Seq<char> {
        "grpc_host: "@ + setting_text(self.grpc_host) + ", tls_cert_path: "@ + setting_text(self.tls_cert_path)
            + ", macaroon_path: "@ + setting_text(self.macaroon_path)
    }

    /// The settings as one line of text.
    pub fn describe(&self) -> (text: String)
        requires
            self.complete(),
        ensures
            text@ == self.description(),
    {
        let mut text = String::from_str("grpc_host: ");
        append_setting(&mut text, &self.grpc_host);
        text.append(", tls_cert_path: ");
        append_setting(&mut text, &self.tls_cert_path);
        text.append(", macaroon_path: ");
        append_setting(&mut text, &self.macaroon_path);
        text
    }
}

impl ClnLightningSettings {
    /// The settings as one line of text.
    pub open spec fn description(&self) -> Seq<char> {
        "rpc_path: "@ + setting_text(self.rpc_path)
    }

    /// The settings as one line of text.
    pub fn describe(&self) -> (text: String)
        requires
            self.rpc_path is Some,
        ensures
            text@ == self.description(),
    {
        let mut text = String::from_str("rpc_path: ");
        append_setting(&mut text, &self.rpc_path);
        text
    }
}

impl LightningType {
    /// Whether the backend's settings are all set.
    pub open spec fn complete(&self) -> bool {
        match self {
            LightningType::Lnbits(s) => s.admin_key is Some && s.url is Some,
            LightningType::Alby(s) => s.api_key is Some,
            LightningType::Strike(s) => s.api_key is Some,
            LightningType::Lnd(s) => s.complete(),
            LightningType::Cln(s) => s.rpc_path is Some,
        }
    }

    /// The backend's name and settings as one line of text.
    pub open spec fn description(&self) -> Seq<char> {
        match self {
            LightningType::Lnbits(s) => "Lnbits: "@ + s.description(),
            LightningType::Alby(s) => "Alby: "@ + s.description(),
            LightningType::Strike(s) => "Strike: "@ + s.description(),
            LightningType::Lnd(s) => "Lnd: "@ + s.description(),
            LightningType::Cln(s) => "Cln: "@ + s.description(),
        }
    }

    /// The backend's name and settings as one line of text.
    pub fn describe(&self) -> (text: String)
        requires
            self.complete(),
        ensures
            text@ == self.description(),
    {
        match self {
            LightningType::Lnbits(s) => {
                let mut text = String::from_str("Lnbits: ");
                text.append(s.describe().as_str());
                text
            },
            LightningType::Alby(s) => {
                let mut text = String::from_str("Alby: ");
                text.append(s.describe().as_str());
                text
            },
            LightningType::Strike(s) => {
                let mut text = String::from_str("Strike: ");
                text.append(s.describe().as_str());
                text
            },
            LightningType::Lnd(s) => {
                let mut text = String::from_str("Lnd: ");
                text.append(s.describe().as_str());
                text
            },
            LightningType::Cln(s) => {
                let mut text = String::from_str("Cln: ");
                text.append(s.describe().as_str());
                text
            },
        }
    }
}

/// The LNbits backend.
#[derive(Debug)]
pub struct LnbitsLightning {
    pub client: LNBitsClient,
}

/// What the LNbits wallet's reply to a payment means: for an invoice that
/// decodes, a reply that reports a preimage of 32 bytes is the payment of
/// that invoice's hash; any failure is the wallet's or the network's, and a
/// reply without such a preimage is no payment.
pub open spec fn lnbits_paid(payment_request: Seq<char>, reply: BackendReplyView) -> Result<
    PayInvoiceResultView,
    PaymentErrorView,
> {
    match bolt11_decoded(payment_request) {
        Ok(fields) => match lnbits_payment_reply(reply) {
            Ok(preimage) => settled_payment(fields.payment_hash, preimage),
            Err(e) => Err(e),
        },
        Err(_) => Err(PaymentErrorView::InvalidInvoice),
    }
}

/// What the custodial wallet's reply to a payment means: for an invoice
/// that decodes, a reply that reports a preimage of 32 bytes is the payment
/// of that invoice's hash; any failure is the wallet's or the network's, and
/// a reply without such a preimage is no payment.
pub open spec fn alby_paid(payment_request: Seq<char>, reply: BackendReplyView) -> Result<
    PayInvoiceResultView,
    PaymentErrorView,
> {
    match bolt11_decoded(payment_request) {
        Ok(fields) => match reply {
            BackendReplyView::Response { status, body } => match payment_reply(status, body) {
                Ok(preimage) => settled_payment(fields.payment_hash, preimage),
                Err(e) => Err(e),
            },
            BackendReplyView::Unreachable(detail) => Err(PaymentErrorView::Transport(detail)),
        },
        Err(_) => Err(PaymentErrorView::InvalidInvoice),
    }
}

impl LnbitsLightning {
    pub fn new(admin_key: String, url: String) -> (backend: LnbitsLightning)
        ensures
            backend.client.admin_key@ == admin_key@,
            backend.client.lnbits_url@ == url@,
    {
        LnbitsLightning { client: LNBitsClient::new(admin_key.as_str(), url.as_str()) }
    }

    /// The outcome of paying `payment_request`, given the wallet's reply.
    pub fn pay_invoice_result(&self, payment_request: &str, reply: BackendReply) -> (r: Result<
        PayInvoiceResult,
        PaymentError,
    >)
        ensures
            outcome_view(r) == lnbits_paid(payment_request@, reply@),
    {
        match decode_invoice(payment_request) {
            Ok(invoice) => match self.client.payment_preimage(reply) {
                Ok(preimage) => PayInvoiceResult::settled(invoice.payment_hash(), preimage),
                Err(e) => Err(e),
            },
            Err(_) => Err(PaymentError::InvalidInvoice),
        }
    }
}

/// The custodial wallet backend.
#[derive(Debug)]
pub struct AlbyLightning {
    pub client: AlbyClient,
}

impl AlbyLightning {
    pub fn new(api_key: String) -> (backend: AlbyLightning)
        ensures
            backend.client.api_key@ == api_key@,
    {
        AlbyLightning { client: AlbyClient::new(api_key.as_str()) }
    }

    /// The outcome of paying `payment_request`, given the wallet's reply.
    pub fn pay_invoice_result(&self, payment_request: &str, reply: BackendReply) -> (r: Result<
        PayInvoiceResult,
        PaymentError,
    >)
        ensures
            outcome_view(r) == alby_paid(payment_request@, reply@),
    {
        match decode_invoice(payment_request) {
            Ok(invoice) => match reply {
                BackendReply::Response { status, body } => match payment_preimage(status, body) {
                    Ok(preimage) => PayInvoiceResult::settled(invoice.payment_hash(), preimage),
                    Err(e) => Err(e),
                },
                BackendReply::Unreachable(detail) => Err(PaymentError::Transport(detail)),
            },
            Err(_) => Err(PaymentError::InvalidInvoice),
        }
    }
}

/// The quote wallet backend.
#[derive(Debug)]
pub struct StrikeLightning {
    pub client: StrikeClient,
}

/// Where a payment through the quote wallet stands.
#[derive(Debug)]
pub enum StrikePayment {
    /// A quote was asked for; the payment hash of the invoice is kept.
    AwaitingQuote { payment_hash: String },
    /// The quote's execution was asked for.
    AwaitingExecution { payment_hash: String },
    /// The payment ended, paid or not.
    Finished,
}

/// Mathematical value of a [`StrikePayment`].
pub enum StrikePaymentView {
    AwaitingQuote { payment_hash: Seq<char> },
    AwaitingExecution { payment_hash: Seq<char> },
    Finished,
}

impl View for StrikePayment {
    type V = StrikePaymentView;

    open spec fn view(&self) -> StrikePaymentView {
        match self {
            StrikePayment::AwaitingQuote { payment_hash } => StrikePaymentView::AwaitingQuote {
                payment_hash: payment_hash@,
            },
            StrikePayment::AwaitingExecution { payment_hash } => StrikePaymentView::AwaitingExecution {
                payment_hash: payment_hash@,
            },
            StrikePayment::Finished => StrikePaymentView::Finished,
        }
    }
}

/// What the driver of a payment has to do next.
#[derive(Debug)]
pub enum PaymentAction {
    /// Make this call and report the reply.
    Call(HttpCall),
    /// The invoice is paid.
    Paid(PayInvoiceResult),
    /// The payment failed.
    Failed(PaymentError),
}

/// Mathematical value of a [`PaymentAction`].
pub enum PaymentActionView {
    Call(HttpCallView),
    Paid(PayInvoiceResultView),
    Failed(PaymentErrorView),
}

impl View for PaymentAction {
    type V = PaymentActionView;

    open spec fn view(&self) -> PaymentActionView {
        match self {
            PaymentAction::Call(call) => PaymentActionView::Call(call@),
            PaymentAction::Paid(result) => PaymentActionView::Paid(result@),
            PaymentAction::Failed(e) => PaymentActionView::Failed(e@),
        }
    }
}

/// How a payment through the quote wallet begins: an invoice that decodes
/// is quoted, and its payment hash is kept in hexadecimal; any other text
/// fails as an invalid invoice.
pub open spec fn strike_begin(payment_request: Seq<char>) -> (StrikePaymentView, PaymentActionView) {
    match bolt11_decoded(payment_request) {
        Ok(fields) => (
            StrikePaymentView::AwaitingQuote { payment_hash: hex_text(fields.payment_hash) },
            PaymentActionView::Call(payment_quote_call(payment_request)),
        ),
        Err(_) => (StrikePaymentView::Finished, PaymentActionView::Failed(PaymentErrorView::InvalidInvoice)),
    }
}

/// How a payment through the quote wallet goes on when a reply arrives: a
/// failure of the network ends it as a transport error; an answer goes on
/// as [`strike_response`] says.
pub open spec fn strike_reply(state: StrikePaymentView, reply: BackendReplyView) -> (
    StrikePaymentView,
    PaymentActionView,
) {
    match reply {
        BackendReplyView::Response { status, body } => strike_response(state, status, body),
        BackendReplyView::Unreachable(detail) => match state {
            StrikePaymentView::Finished => (
                StrikePaymentView::Finished,
                PaymentActionView::Failed(PaymentErrorView::NotCompleted),
            ),
            _ => (StrikePaymentView::Finished, PaymentActionView::Failed(PaymentErrorView::Transport(detail))),
        },
    }
}

/// What an execution's reply means, given what the reply holds under the
/// keys `state` and `preimage`: only the state `COMPLETED` together with a
/// preimage of 32 bytes, written as 64 hexadecimal digits, is the payment.
/// Any other state is a payment that did not complete, and a completed
/// execution without such a preimage is a failure too, never a success.
pub open spec fn execution_outcome(
    payment_hash: Seq<char>,
    body: Seq<char>,
    state: JsonFieldView,
    proof: JsonFieldView,
) -> PaymentActionView {
    match state_is(body, state, "COMPLETED"@) {
        Ok(completed) => if completed {
            match preimage_of(body, proof) {
                Ok(preimage) => PaymentActionView::Paid(PayInvoiceResultView { payment_hash, preimage }),
                Err(e) => PaymentActionView::Failed(e),
            }
        } else {
            PaymentActionView::Failed(PaymentErrorView::NotCompleted)
        },
        Err(e) => PaymentActionView::Failed(e),
    }
}

/// Decides what an execution's reply means, given what the reply holds
/// under the keys `state` and `preimage`.
pub fn on_execution(payment_hash: String, body: String, state: JsonField, proof: JsonField) -> (action: PaymentAction)
    ensures
        action@ == execution_outcome(payment_hash@, body@, state@, proof@),
{
    match state_from(body.clone(), state, "COMPLETED") {
        Ok(completed) => {
            if completed {
                match preimage_from(body, proof) {
                    Ok(preimage) => match PayInvoiceResult::proven_by(payment_hash, preimage) {
                        Ok(paid) => PaymentAction::Paid(paid),
                        Err(e) => PaymentAction::Failed(e),
                    },
                    Err(e) => PaymentAction::Failed(e),
                }
            } else {
                PaymentAction::Failed(PaymentError::NotCompleted)
            }
        },
        Err(e) => PaymentAction::Failed(e),
    }
}

/// How a payment through the quote wallet goes on when the wallet answers:
/// a quote is executed, and an execution's reply is judged as
/// [`execution_outcome`] says.
pub open spec fn strike_response(state: StrikePaymentView, status: u16, body: Seq<char>) -> (
    StrikePaymentView,
    PaymentActionView,
) {
    match state {
        StrikePaymentView::AwaitingQuote { payment_hash } => match quote_reply(status, body) {
            Ok(quote_id) => (
                StrikePaymentView::AwaitingExecution { payment_hash },
                PaymentActionView::Call(execute_quote_call(quote_id)),
            ),
            Err(e) => (StrikePaymentView::Finished, PaymentActionView::Failed(e)),
        },
        StrikePaymentView::AwaitingExecution { payment_hash } => match status_outcome(status, body) {
            Ok(b) => (
                StrikePaymentView::Finished,
                execution_outcome(payment_hash, b, json_text_field(b, "state"@), json_text_field(b, "preimage"@)),
            ),
            Err(e) => (StrikePaymentView::Finished, PaymentActionView::Failed(e)),
        },
        StrikePaymentView::Finished => (
            StrikePaymentView::Finished,
            PaymentActionView::Failed(PaymentErrorView::NotCompleted),
        ),
    }
}

impl StrikeLightning {
    pub fn new(api_key: String) -> (backend: StrikeLightning)
        ensures
            backend.client.api_key@ == api_key@,
    {
        StrikeLightning { client: StrikeClient::new(api_key.as_str()) }
    }

    /// Begins the payment of `payment_request`.
    pub fn begin_payment(&self, payment_request: &str) -> (r: (StrikePayment, PaymentAction))
        ensures
            (r.0@, r.1@) == strike_begin(payment_request@),
    {
        match decode_invoice(payment_request) {
            Ok(invoice) => {
                let payment_hash = hex_encode(invoice.payment_hash());
                let call = self.client.payment_quote_request(payment_request);
                (StrikePayment::AwaitingQuote { payment_hash }, PaymentAction::Call(call))
            },
            Err(_) => (StrikePayment::Finished, PaymentAction::Failed(PaymentError::InvalidInvoice)),
        }
    }

    /// Goes on with a payment when the reply to its last call arrives.
    pub fn on_reply(&self, state: StrikePayment, reply: BackendReply) -> (r: (StrikePayment, PaymentAction))
        ensures
            (r.0@, r.1@) == strike_reply(state@, reply@),
    {
        match reply {
            BackendReply::Response { status, body } => self.on_response(state, status, body),
            BackendReply::Unreachable(detail) => match state {
                StrikePayment::Finished => (
                    StrikePayment::Finished,
                    PaymentAction::Failed(PaymentError::NotCompleted),
                ),
                _ => (StrikePayment::Finished, PaymentAction::Failed(PaymentError::Transport(detail))),
            },
        }
    }

    /// Goes on with a payment when the wallet answers its last call.
    pub fn on_response(&self, state: StrikePayment, status: u16, body: String) -> (r: (
        StrikePayment,
        PaymentAction,
    ))
        ensures
            (r.0@, r.1@) == strike_response(state@, status, body@),
    {
        match state {
            StrikePayment::AwaitingQuote { payment_hash } => match self.client.payment_quote_id(status, body) {
                Ok(quote_id) => {
                    let call = self.client.execute_quote_request(quote_id.as_str());
                    (StrikePayment::AwaitingExecution { payment_hash }, PaymentAction::Call(call))
                },
                Err(e) => (StrikePayment::Finished, PaymentAction::Failed(e)),
            },
            StrikePayment::AwaitingExecution { payment_hash } => match check_status(status, body) {
                Ok(body) => {
                    let state = json_field(body.as_str(), "state");
                    let proof = json_field(body.as_str(), "preimage");
                    (StrikePayment::Finished, on_execution(payment_hash, body, state, proof))
                },
                Err(e) => (StrikePayment::Finished, PaymentAction::Failed(e)),
            },
            StrikePayment::Finished => (StrikePayment::Finished, PaymentAction::Failed(PaymentError::NotCompleted)),
        }
    }
}

/// A payment through the quote wallet is reported as paid only by an
/// execution whose reply has a success status, the state `COMPLETED` and a
/// preimage, and what is reported then is the hash that the payment began
/// with and a preimage of 32 bytes.
pub proof fn strike_paid_only_when_completed(state: StrikePaymentView, reply: BackendReplyView)
    requires
        strike_reply(state, reply).1 is Paid,
    ensures
        state is AwaitingExecution,
        reply is Response,
        200 <= reply->status < 300,
        execution_reply(reply->status, reply->body) == Ok::<bool, PaymentErrorView>(true),
        strike_reply(state, reply).1->Paid_0.payment_hash == state->AwaitingExecution_payment_hash,
        strike_reply(state, reply).1->Paid_0.preimage.len() == 32,
        strike_reply(state, reply).0 is Finished,
{
}

/// Whatever a REST wallet replies, a payment that is reported as made
/// carries a preimage of 32 bytes.
pub proof fn paid_means_preimage(payment_request: Seq<char>, reply: BackendReplyView)
    ensures
        alby_paid(payment_request, reply) is Ok ==> alby_paid(payment_request, reply)->Ok_0.preimage.len() == 32,
        lnbits_paid(payment_request, reply) is Ok ==> lnbits_paid(payment_request, reply)->Ok_0.preimage.len()
            == 32,
{
}

/// The hexadecimal digits of `bytes`, grouped as a UUID is: eight, four,
/// four, four and the rest, with hyphens between the groups.
pub open spec fn uuid_text(bytes: Seq<u8>) -> Seq<char> {
    let digits = hex_text(bytes);
    digits.subrange(0, 8) + seq!['-'] + digits.subrange(8, 12) + seq!['-'] + digits.subrange(12, 16) + seq![
        '-',
    ] + digits.subrange(16, 20) + seq!['-'] + digits.subrange(20, digits.len() as int)
}

/// Writes `bytes` in the grouping of a UUID. At least ten bytes are needed
/// to fill the first four groups.
pub fn format_as_uuid_string(bytes: &Vec<u8>) -> (text: String)
    requires
        bytes@.len() >= 10,
    ensures
        text@ == uuid_text(bytes@),
{
    let byte_str = hex_encode(bytes);
    let digits = byte_str.as_str();
    let n = digits.unicode_len();
    proof {
        reveal_strlit("-");
        assert("-"@ =~= seq!['-']);
    }
    let mut text = String::from_str(digits.substring_char(0, 8));
    text.append("-");
    text.append(digits.substring_char(8, 12));
    text.append("-");
    text.append(digits.substring_char(12, 16));
    text.append("-");
    text.append(digits.substring_char(16, 20));
    text.append("-");
    text.append(digits.substring_char(20, n));
    text
}

} // verus!
