//! The credential that answers a payment challenge, and the authenticator
//! that decides, response by response, what a request needs next.

use crate::encoding::{hex_encode, hex_text, text_view};
use crate::http::challenge::{
    challenge_attributes, challenge_fields, fields_are_attribute_values, header_round_trip, header_text,
    invoice_key, is_attribute_value, is_separator, lone_attribute_fields, lone_attribute_header, token_key,
    Attribute, ProtocolError,
};
use crate::lightning::alby::{bolt11_payment_body, payment_body, payment_preimage, payment_reply};
use crate::lightning::error::{BackendReply, BackendReplyView, PaymentError, PaymentErrorView};
use crate::lightning::model::{HttpCall, HttpCallView, HttpMethod, PayInvoiceResult, PayInvoiceResultView};
use crate::lightning::model::outcome_view;
use crate::lightning::utils::{
    is_invoice_char, bolt11_decoded, decode_error_of, decode_invoice, decodes, decoding_view, invoice_of, DecodeFailure,
    Invoice, InvoiceData, InvoiceFields, InvoiceView,
};
use vstd::prelude::*;

verus! {

/// The status code of "Payment Required".
pub const PAYMENT_REQUIRED: u16 = 402;

/// The number of bytes of a payment preimage.
pub const PREIMAGE_LEN: usize = 32;

/// The credential of one challenge round: the server's token, the invoice
/// to settle and, once it is settled, the preimage that proves payment.
#[derive(Debug)]
pub struct L402 {
    token: String,
    invoice: Invoice,
    preimage: Option<Vec<u8>>,
}

/// Mathematical value of an [`L402`].
pub struct L402View {
    pub token: Seq<char>,
    pub invoice: InvoiceView,
    pub preimage: Option<Seq<u8>>,
}

/// `L402 ` and what follows the scheme name in an `Authorization` header.
pub open spec fn with_scheme(rest: Seq<char>) -> Seq<char> {
    seq!['L', '4', '0', '2', ' '] + rest
}

impl L402View {
    /// A credential holds a token and an invoice text that are not empty,
    /// and a preimage, if any, of 32 bytes.
    pub open spec fn wf(self) -> bool {
        &&& self.token.len() > 0
        &&& self.invoice.raw.len() > 0
        &&& self.preimage is Some ==> self.preimage->Some_0.len() == PREIMAGE_LEN
    }

    /// The `Authorization` header of the paid retry: the scheme, the token,
    /// a colon and the preimage in hexadecimal.
    pub open spec fn authorization(self) -> Seq<char>
        recommends
            self.preimage is Some,
    {
        with_scheme(self.token + seq![':'] + hex_text(self.preimage->Some_0))
    }

    /// The credential after payment.
    pub open spec fn settled(self, preimage: Seq<u8>) -> L402View {
        L402View { token: self.token, invoice: self.invoice, preimage: Some(preimage) }
    }
}

impl View for L402 {
    type V = L402View;

    closed spec fn view(&self) -> L402View {
        L402View {
            token: self.token@,
            invoice: self.invoice@,
            preimage: match self.preimage {
                Some(p) => Some(p@),
                None => None,
            },
        }
    }
}

/// Mathematical value of a parsing outcome.
pub open spec fn challenge_view(r: Result<L402, ProtocolError>) -> Result<L402View, ProtocolError> {
    match r {
        Ok(c) => Ok(c@),
        Err(e) => Err(e),
    }
}

/// The credential that a token, an invoice text and the codec's result on
/// that text make: an empty token or invoice text is a missing attribute,
/// and a failed decoding is an invalid invoice.
pub open spec fn challenge_of(
    token: Seq<char>,
    invoice: Seq<char>,
    decoded: Result<InvoiceFields, DecodeFailure>,
) -> Result<L402View, ProtocolError> {
    if token.len() == 0 {
        Err(ProtocolError::MissingAttribute(Attribute::Token))
    } else if invoice.len() == 0 {
        Err(ProtocolError::MissingAttribute(Attribute::Invoice))
    } else {
        match decoded {
            Ok(fields) => Ok(L402View { token, invoice: invoice_of(invoice, fields), preimage: None }),
            Err(failure) => Err(ProtocolError::InvalidInvoice(decode_error_of(failure))),
        }
    }
}

/// What parsing a challenge header gives.
pub open spec fn parsed_header(header: Seq<char>) -> Result<L402View, ProtocolError> {
    match challenge_fields(header) {
        Ok((token, invoice)) => challenge_of(token, invoice, bolt11_decoded(invoice)),
        Err(e) => Err(e),
    }
}

impl L402 {
    /// A fresh credential, not yet paid. An empty token or an invoice
    /// without text is refused as a missing attribute.
    pub fn new(token: String, invoice: Invoice) -> (r: Result<L402, ProtocolError>)
        ensures
            challenge_view(r) == if token@.len() == 0 {
                Err::<L402View, ProtocolError>(ProtocolError::MissingAttribute(Attribute::Token))
            } else if invoice@.raw.len() == 0 {
                Err(ProtocolError::MissingAttribute(Attribute::Invoice))
            } else {
                Ok(L402View { token: token@, invoice: invoice@, preimage: None })
            },
            r is Ok ==> r->Ok_0@.wf(),
    {
        if token.as_str().unicode_len() == 0 {
            Err(ProtocolError::MissingAttribute(Attribute::Token))
        } else if invoice.raw().as_str().unicode_len() == 0 {
            Err(ProtocolError::MissingAttribute(Attribute::Invoice))
        } else {
            Ok(L402 { token, invoice, preimage: None })
        }
    }

    /// The credential for a token and an invoice text, given what the codec
    /// read out of that text.
    pub fn from_decoded(token: String, invoice: &str, decoded: Result<InvoiceData, DecodeFailure>) -> (r: Result<
        L402,
        ProtocolError,
    >)
        ensures
            challenge_view(r) == challenge_of(token@, invoice@, decoding_view(decoded)),
            r is Ok ==> r->Ok_0@.wf(),
    {
        if token.as_str().unicode_len() == 0 {
            return Err(ProtocolError::MissingAttribute(Attribute::Token));
        }
        if invoice.unicode_len() == 0 {
            return Err(ProtocolError::MissingAttribute(Attribute::Invoice));
        }
        match Invoice::from_decoded(invoice, decoded) {
            Ok(invoice) => Ok(L402 { token, invoice, preimage: None }),
            Err(e) => Err(ProtocolError::InvalidInvoice(e)),
        }
    }

    /// Records the proof of payment. A credential is paid once.
    pub fn set_preimage(&mut self, preimage: Vec<u8>)
        requires
            old(self)@.preimage is None,
            preimage@.len() == PREIMAGE_LEN,
        ensures
            final(self)@ == old(self)@.settled(preimage@),
            old(self)@.wf() ==> final(self)@.wf(),
    {
        self.preimage = Some(preimage);
    }

    /// The server's token.
    pub fn token(&self) -> (token: &String)
        ensures
            token@ == self@.token,
    {
        &self.token
    }

    /// The invoice to settle.
    pub fn invoice(&self) -> (invoice: &Invoice)
        ensures
            invoice@ == self@.invoice,
    {
        &self.invoice
    }

    /// Whether the credential has been paid.
    pub fn is_settled(&self) -> (settled: bool)
        ensures
            settled == (self@.preimage is Some),
    {
        self.preimage.is_some()
    }

    /// The value of the `Authorization` header that carries the paid
    /// credential.
    pub fn authorization(&self) -> (header: String)
        requires
            self@.preimage is Some,
        ensures
            header@ == self@.authorization(),
    {
        let mut header = String::from_str("L402 ");
        proof {
            reveal_strlit("L402 ");
            reveal_strlit(":");
            assert("L402 "@ =~= seq!['L', '4', '0', '2', ' ']);
            assert(":"@ =~= seq![':']);
        }
        header.append(self.token.as_str());
        header.append(":");
        match &self.preimage {
            Some(preimage) => {
                let digits = hex_encode(preimage);
                header.append(digits.as_str());
            },
            None => {},
        }
        assert(header@ =~= self@.authorization());
        header
    }

    /// The challenge header that a server would send for this credential.
    pub fn challenge_header(&self) -> (header: String)
        ensures
            header@ == header_text(self@.token, self@.invoice.raw),
            self@.preimage is None && self@.invoice.wf() && is_attribute_value(self@.token) ==> parsed_header(
                header@,
            ) == Ok::<L402View, ProtocolError>(self@),
    {
        proof {
            if self@.preimage is None && self@.invoice.wf() && is_attribute_value(self@.token) {
                challenge_round_trip(self@);
            }
        }
        let mut header = String::from_str("L402 token=\"");
        proof {
            reveal_strlit("L402 token=\"");
            reveal_strlit("\", invoice=\"");
            reveal_strlit("\"");
            assert("L402 token=\""@ =~= seq!['L', '4', '0', '2', ' ', 't', 'o', 'k', 'e', 'n', '=', '"']);
            assert("\", invoice=\""@ =~= seq!['"', ',', ' ', 'i', 'n', 'v', 'o', 'i', 'c', 'e', '=', '"']);
            assert("\""@ =~= seq!['"']);
        }
        header.append(self.token.as_str());
        header.append("\", invoice=\"");
        header.append(self.invoice.raw().as_str());
        header.append("\"");
        assert(header@ =~= header_text(self@.token, self@.invoice.raw));
        header
    }
}

/// Parses the `WWW-Authenticate` header of a payment challenge into a fresh
/// credential. The scheme is checked first, then the token, then the
/// invoice attribute; the invoice text is handed to the codec last, and no
/// payment is ever started from here.
pub fn parse_l402_header(header: &str) -> (r: Result<L402, ProtocolError>)
    ensures
        challenge_view(r) == parsed_header(header@),
        r is Ok ==> r->Ok_0@.wf() && r->Ok_0@.invoice.wf(),
        r is Ok ==> is_attribute_value(r->Ok_0@.token) && is_attribute_value(r->Ok_0@.invoice.raw),
        forall|token: Seq<char>, invoice: Seq<char>|
            header@ == #[trigger] header_text(token, invoice) && is_attribute_value(token) && decodes(invoice)
                ==> challenge_view(r) == Ok::<L402View, ProtocolError>(
                L402View { token, invoice: invoice_of(invoice, bolt11_decoded(invoice)->Ok_0), preimage: None },
            ),
        forall|invoice: Seq<char>|
            header@ == #[trigger] lone_attribute_header(invoice_key(), invoice) && (decodes(invoice)
                || is_attribute_value(invoice)) ==> challenge_view(r) == Err::<L402View, ProtocolError>(
                ProtocolError::MissingAttribute(Attribute::Token),
            ),
        forall|token: Seq<char>|
            header@ == #[trigger] lone_attribute_header(token_key(), token) && is_attribute_value(token)
                ==> challenge_view(r) == Err::<L402View, ProtocolError>(
                ProtocolError::MissingAttribute(Attribute::Invoice),
            ),
{
    proof {
        fields_are_attribute_values(header@);
        assert forall|token: Seq<char>, invoice: Seq<char>|
            header@ == #[trigger] header_text(token, invoice) && is_attribute_value(token) && decodes(
                invoice,
            ) implies parsed_header(header@) == Ok::<L402View, ProtocolError>(
            L402View { token, invoice: invoice_of(invoice, bolt11_decoded(invoice)->Ok_0), preimage: None },
        ) by {
            written_challenge_parses(token, invoice);
        }
        assert forall|invoice: Seq<char>|
            header@ == #[trigger] lone_attribute_header(invoice_key(), invoice) && (decodes(invoice)
                || is_attribute_value(invoice)) implies parsed_header(header@) == Err::<L402View, ProtocolError>(
            ProtocolError::MissingAttribute(Attribute::Token),
        ) by {
            if decodes(invoice) {
                invoice_text_is_attribute_value(invoice);
            }
            lone_attribute_is_refused(invoice);
        }
        assert forall|token: Seq<char>|
            header@ == #[trigger] lone_attribute_header(token_key(), token) && is_attribute_value(
                token,
            ) implies parsed_header(header@) == Err::<L402View, ProtocolError>(
            ProtocolError::MissingAttribute(Attribute::Invoice),
        ) by {
            lone_attribute_is_refused(token);
        }
    }
    match challenge_attributes(header) {
        Err(e) => Err(e),
        Ok((token, invoice_text)) => {
            match decode_invoice(invoice_text.as_str()) {
                Ok(invoice) => Ok(L402 { token, invoice, preimage: None }),
                Err(e) => Err(ProtocolError::InvalidInvoice(e)),
            }
        },
    }
}

/// A text that the codec accepts can stand as an attribute's value.
pub proof fn invoice_text_is_attribute_value(text: Seq<char>)
    requires
        decodes(text),
    ensures
        is_attribute_value(text),
{
    assert forall|k: int| 0 <= k < text.len() implies !is_separator(#[trigger] text[k]) by {
        assert(is_invoice_char(text[k]));
    }
}

/// The header written for a token and an invoice parses to the credential
/// of both: for every token that is not empty and holds no space and no
/// comma, and every invoice text that the codec accepts, the header
/// `L402 token="..", invoice=".."` is read as that token and the invoice
/// that the text decodes to, not yet paid.
pub proof fn written_challenge_parses(token: Seq<char>, invoice: Seq<char>)
    requires
        is_attribute_value(token),
        decodes(invoice),
    ensures
        parsed_header(header_text(token, invoice)) == Ok::<L402View, ProtocolError>(
            L402View { token, invoice: invoice_of(invoice, bolt11_decoded(invoice)->Ok_0), preimage: None },
        ),
{
    invoice_text_is_attribute_value(invoice);
    header_round_trip(token, invoice);
}

/// Round trip of the challenge: a credential that is not paid yet, whose
/// invoice is genuine and whose token holds no space and no comma, is what
/// parsing its own challenge header gives.
pub proof fn challenge_round_trip(c: L402View)
    requires
        c.preimage is None,
        c.invoice.wf(),
        is_attribute_value(c.token),
    ensures
        parsed_header(header_text(c.token, c.invoice.raw)) == Ok::<L402View, ProtocolError>(c),
{
    written_challenge_parses(c.token, c.invoice.raw);
}

/// A header that carries only the invoice is refused for the missing
/// token, and one that carries only the token for the missing invoice,
/// whatever the invoice and the token are.
pub proof fn lone_attribute_is_refused(value: Seq<char>)
    requires
        is_attribute_value(value),
    ensures
        parsed_header(lone_attribute_header(invoice_key(), value)) == Err::<L402View, ProtocolError>(
            ProtocolError::MissingAttribute(Attribute::Token),
        ),
        parsed_header(lone_attribute_header(token_key(), value)) == Err::<L402View, ProtocolError>(
            ProtocolError::MissingAttribute(Attribute::Invoice),
        ),
{
    lone_attribute_fields(value);
}

/// Every challenge that parsing accepts round-trips: writing the header of
/// the credential that a header was read as, and reading that, gives the
/// same credential.
pub proof fn parsed_challenge_round_trips(header: Seq<char>)
    requires
        parsed_header(header) is Ok,
    ensures
        parsed_header(
            header_text(parsed_header(header)->Ok_0.token, parsed_header(header)->Ok_0.invoice.raw),
        ) == parsed_header(header),
{
    fields_are_attribute_values(header);
    let fields = challenge_fields(header)->Ok_0;
    header_round_trip(fields.0, fields.1);
}

/// Why the authenticator gave a request up.
#[derive(Debug)]
pub enum AuthError {
    /// The challenge could not be read; nothing was paid.
    Protocol(ProtocolError),
    /// The payment backend failed; the request was not sent again.
    PaymentFailed(PaymentError),
    /// The call ended while a payment was under way: it may or may not have
    /// been made, and must not be tried again blindly.
    Indeterminate,
    /// The caller gave the request up before any payment was started.
    Cancelled,
    /// An event arrived that the current state does not wait for.
    OutOfSequence,
}

/// Mathematical value of an [`AuthError`].
pub enum AuthErrorView {
    Protocol(ProtocolError),
    PaymentFailed(PaymentErrorView),
    Indeterminate,
    Cancelled,
    OutOfSequence,
}

impl View for AuthError {
    type V = AuthErrorView;

    open spec fn view(&self) -> AuthErrorView {
        match self {
            AuthError::Protocol(e) => AuthErrorView::Protocol(*e),
            AuthError::PaymentFailed(e) => AuthErrorView::PaymentFailed(e@),
            AuthError::Indeterminate => AuthErrorView::Indeterminate,
            AuthError::Cancelled => AuthErrorView::Cancelled,
            AuthError::OutOfSequence => AuthErrorView::OutOfSequence,
        }
    }
}

/// Where one request stands.
#[derive(Debug)]
pub enum AuthState {
    /// Nothing has been sent.
    Idle,
    /// The request went out with the cached token.
    AwaitingCachedResponse,
    /// The request went out without a credential.
    AwaitingFirstResponse,
    /// The server asked for payment: the invoice of this credential is with
    /// the payment backend.
    Settling(L402),
    /// The request went out again with the paid credential.
    Retrying,
    /// A response was handed to the caller.
    Success,
    /// The request was given up.
    Failed,
}

/// Mathematical value of an [`AuthState`].
pub enum AuthStateView {
    Idle,
    AwaitingCachedResponse,
    AwaitingFirstResponse,
    Settling(L402View),
    Retrying,
    Success,
    Failed,
}

impl View for AuthState {
    type V = AuthStateView;

    open spec fn view(&self) -> AuthStateView {
        match self {
            AuthState::Idle => AuthStateView::Idle,
            AuthState::AwaitingCachedResponse => AuthStateView::AwaitingCachedResponse,
            AuthState::AwaitingFirstResponse => AuthStateView::AwaitingFirstResponse,
            AuthState::Settling(c) => AuthStateView::Settling(c@),
            AuthState::Retrying => AuthStateView::Retrying,
            AuthState::Success => AuthStateView::Success,
            AuthState::Failed => AuthStateView::Failed,
        }
    }
}

/// What happened outside since the last action.
#[derive(Debug)]
pub enum AuthEvent {
    /// The caller asks for the request to be executed.
    Start,
    /// The request that was sent got a response.
    Response { status: u16, www_authenticate: Option<String> },
    /// The request that was sent got no response.
    SendFailed,
    /// The payment backend settled the invoice and returned this preimage.
    Paid(Vec<u8>),
    /// The payment backend failed.
    PaymentFailed(PaymentError),
    /// The caller gave the request up.
    Cancelled,
}

/// Mathematical value of an [`AuthEvent`].
pub enum AuthEventView {
    Start,
    Response { status: u16, www_authenticate: Option<Seq<char>> },
    SendFailed,
    Paid(Seq<u8>),
    PaymentFailed(PaymentErrorView),
    Cancelled,
}

impl View for AuthEvent {
    type V = AuthEventView;

    open spec fn view(&self) -> AuthEventView {
        match self {
            AuthEvent::Start => AuthEventView::Start,
            AuthEvent::Response { status, www_authenticate } => AuthEventView::Response {
                status: *status,
                www_authenticate: match www_authenticate {
                    Some(h) => Some(h@),
                    None => None,
                },
            },
            AuthEvent::SendFailed => AuthEventView::SendFailed,
            AuthEvent::Paid(p) => AuthEventView::Paid(p@),
            AuthEvent::PaymentFailed(e) => AuthEventView::PaymentFailed(e@),
            AuthEvent::Cancelled => AuthEventView::Cancelled,
        }
    }
}

/// What the driver has to do next.
#[derive(Debug)]
pub enum AuthAction {
    /// Send a copy of the caller's request, with this `Authorization`
    /// header if there is one, and report the outcome.
    Send { authorization: Option<String> },
    /// Hand this invoice text to the payment backend and report the outcome.
    Pay { invoice: String },
    /// Hand the outcome of the last send to the caller as it is.
    Return,
    /// Hand this error to the caller.
    Fail(AuthError),
}

/// Mathematical value of an [`AuthAction`].
pub enum AuthActionView {
    Send { authorization: Option<Seq<char>> },
    Pay { invoice: Seq<char> },
    Return,
    Fail(AuthErrorView),
}

impl View for AuthAction {
    type V = AuthActionView;

    open spec fn view(&self) -> AuthActionView {
        match self {
            AuthAction::Send { authorization } => AuthActionView::Send {
                authorization: match authorization {
                    Some(h) => Some(h@),
                    None => None,
                },
            },
            AuthAction::Pay { invoice } => AuthActionView::Pay { invoice: invoice@ },
            AuthAction::Return => AuthActionView::Return,
            AuthAction::Fail(e) => AuthActionView::Fail(e@),
        }
    }
}

/// What follows a challenge header, read or not: a credential goes to the
/// payment backend, an error ends the request with nothing paid.
pub open spec fn challenged(parsed: Result<L402View, ProtocolError>) -> (AuthStateView, AuthActionView) {
    match parsed {
        Ok(c) => (AuthStateView::Settling(c), AuthActionView::Pay { invoice: c.invoice.raw }),
        Err(e) => (AuthStateView::Failed, AuthActionView::Fail(AuthErrorView::Protocol(e))),
    }
}

/// What follows the backend's answer to a payment: a preimage of 32 bytes
/// sends the request again with the paid credential, anything else ends the
/// request.
pub open spec fn settled(c: L402View, preimage: Seq<u8>) -> (AuthStateView, AuthActionView) {
    if c.preimage is None && preimage.len() == PREIMAGE_LEN {
        (
            AuthStateView::Retrying,
            AuthActionView::Send { authorization: Some(c.settled(preimage).authorization()) },
        )
    } else {
        (
            AuthStateView::Failed,
            AuthActionView::Fail(AuthErrorView::PaymentFailed(PaymentErrorView::InvalidPreimage)),
        )
    }
}

/// The authenticator's transition: the next state and the action that an
/// event leads to, for an authenticator with or without a cached token.
pub open spec fn transition(cached: Option<Seq<char>>, state: AuthStateView, event: AuthEventView) -> (
    AuthStateView,
    AuthActionView,
) {
    match state {
        AuthStateView::Idle => match event {
            AuthEventView::Start => match cached {
                Some(token) => (
                    AuthStateView::AwaitingCachedResponse,
                    AuthActionView::Send { authorization: Some(with_scheme(token)) },
                ),
                None => (AuthStateView::AwaitingFirstResponse, AuthActionView::Send { authorization: None }),
            },
            _ => unexpected(event),
        },
        AuthStateView::AwaitingCachedResponse => match event {
            AuthEventView::Response { .. } => (AuthStateView::Success, AuthActionView::Return),
            AuthEventView::SendFailed => (AuthStateView::Failed, AuthActionView::Return),
            _ => unexpected(event),
        },
        AuthStateView::AwaitingFirstResponse => match event {
            AuthEventView::Response { status, www_authenticate } => if status != PAYMENT_REQUIRED {
                (AuthStateView::Success, AuthActionView::Return)
            } else {
                match www_authenticate {
                    Some(header) => challenged(parsed_header(header)),
                    None => challenged(Err(ProtocolError::MissingHeader)),
                }
            },
            AuthEventView::SendFailed => (AuthStateView::Failed, AuthActionView::Return),
            _ => unexpected(event),
        },
        AuthStateView::Settling(c) => match event {
            AuthEventView::Paid(preimage) => settled(c, preimage),
            AuthEventView::PaymentFailed(e) => (
                AuthStateView::Failed,
                AuthActionView::Fail(AuthErrorView::PaymentFailed(e)),
            ),
            _ => (AuthStateView::Failed, AuthActionView::Fail(AuthErrorView::Indeterminate)),
        },
        AuthStateView::Retrying => match event {
            AuthEventView::Response { .. } => (AuthStateView::Success, AuthActionView::Return),
            AuthEventView::SendFailed => (AuthStateView::Failed, AuthActionView::Return),
            _ => unexpected(event),
        },
        AuthStateView::Success => (AuthStateView::Success, AuthActionView::Fail(AuthErrorView::OutOfSequence)),
        AuthStateView::Failed => (AuthStateView::Failed, AuthActionView::Fail(AuthErrorView::OutOfSequence)),
    }
}

/// An event that the state does not wait for ends the request: as
/// cancelled where the caller gave it up, as out of sequence otherwise.
pub open spec fn unexpected(event: AuthEventView) -> (AuthStateView, AuthActionView) {
    match event {
        AuthEventView::Cancelled => (AuthStateView::Failed, AuthActionView::Fail(AuthErrorView::Cancelled)),
        _ => (AuthStateView::Failed, AuthActionView::Fail(AuthErrorView::OutOfSequence)),
    }
}

/// The authenticator: where invoices are paid, and the long-lived token, if
/// the caller holds one.
#[derive(Debug)]
pub struct L402Client {
    pub bolt11_endpoint: String,
    pub api_key: String,
    pub l402_token: Option<String>,
}

impl L402Client {
    /// An authenticator for the given payment endpoint and key, with the
    /// cached token if there is one.
    pub fn new(bolt11_endpoint: String, api_key: String, l402_token: Option<String>) -> (client: L402Client)
        ensures
            client.bolt11_endpoint@ == bolt11_endpoint@,
            client.api_key@ == api_key@,
            client.cached() == text_view(l402_token),
    {
        L402Client { bolt11_endpoint, api_key, l402_token }
    }

    /// The cached token, as a mathematical value.
    pub open spec fn cached(&self) -> Option<Seq<char>> {
        text_view(self.l402_token)
    }

    /// The `Authorization` header that carries the cached token.
    pub fn get_auth_header(&self) -> (header: String)
        requires
            self.cached() is Some,
        ensures
            header@ == with_scheme(self.cached()->Some_0),
    {
        let mut header = String::from_str("L402 ");
        proof {
            reveal_strlit("L402 ");
            assert("L402 "@ =~= seq!['L', '4', '0', '2', ' ']);
        }
        match &self.l402_token {
            Some(token) => {
                header.append(token.as_str());
            },
            None => {},
        }
        header
    }

    /// One step of the authenticator: the next state and what to do, for
    /// the event that the last action led to.
    pub fn step(&self, state: AuthState, event: AuthEvent) -> (r: (AuthState, AuthAction))
        ensures
            (r.0@, r.1@) == transition(self.cached(), state@, event@),
    {
        match state {
            AuthState::Idle => match event {
                AuthEvent::Start => {
                    if self.l402_token.is_some() {
                        let header = self.get_auth_header();
                        (AuthState::AwaitingCachedResponse, AuthAction::Send { authorization: Some(header) })
                    } else {
                        (AuthState::AwaitingFirstResponse, AuthAction::Send { authorization: None })
                    }
                },
                other => on_unexpected(other),
            },
            AuthState::AwaitingCachedResponse => match event {
                AuthEvent::Response { .. } => (AuthState::Success, AuthAction::Return),
                AuthEvent::SendFailed => (AuthState::Failed, AuthAction::Return),
                other => on_unexpected(other),
            },
            AuthState::AwaitingFirstResponse => match event {
                AuthEvent::Response { status, www_authenticate } => {
                    if status != PAYMENT_REQUIRED {
                        (AuthState::Success, AuthAction::Return)
                    } else {
                        match www_authenticate {
                            Some(header) => on_challenge(parse_l402_header(header.as_str())),
                            None => on_challenge(Err(ProtocolError::MissingHeader)),
                        }
                    }
                },
                AuthEvent::SendFailed => (AuthState::Failed, AuthAction::Return),
                other => on_unexpected(other),
            },
            AuthState::Settling(credential) => match event {
                AuthEvent::Paid(preimage) => on_payment(credential, preimage),
                AuthEvent::PaymentFailed(e) => (AuthState::Failed, AuthAction::Fail(AuthError::PaymentFailed(e))),
                _ => (AuthState::Failed, AuthAction::Fail(AuthError::Indeterminate)),
            },
            AuthState::Retrying => match event {
                AuthEvent::Response { .. } => (AuthState::Success, AuthAction::Return),
                AuthEvent::SendFailed => (AuthState::Failed, AuthAction::Return),
                other => on_unexpected(other),
            },
            AuthState::Success => (AuthState::Success, AuthAction::Fail(AuthError::OutOfSequence)),
            AuthState::Failed => (AuthState::Failed, AuthAction::Fail(AuthError::OutOfSequence)),
        }
    }
}

/// Decides what follows a challenge: pay the invoice of a credential that
/// was read, or give up with the reason why none was.
pub fn on_challenge(parsed: Result<L402, ProtocolError>) -> (r: (AuthState, AuthAction))
    ensures
        (r.0@, r.1@) == challenged(challenge_view(parsed)),
{
    match parsed {
        Ok(credential) => {
            let invoice = credential.invoice().raw().clone();
            (AuthState::Settling(credential), AuthAction::Pay { invoice })
        },
        Err(e) => (AuthState::Failed, AuthAction::Fail(AuthError::Protocol(e))),
    }
}

/// Decides what follows a payment: with a preimage of 32 bytes the request
/// goes out once more under the paid credential.
pub fn on_payment(credential: L402, preimage: Vec<u8>) -> (r: (AuthState, AuthAction))
    ensures
        (r.0@, r.1@) == settled(credential@, preimage@),
{
    let mut credential = credential;
    if !credential.is_settled() && preimage.len() == PREIMAGE_LEN {
        credential.set_preimage(preimage);
        let header = credential.authorization();
        (AuthState::Retrying, AuthAction::Send { authorization: Some(header) })
    } else {
        (AuthState::Failed, AuthAction::Fail(AuthError::PaymentFailed(PaymentError::InvalidPreimage)))
    }
}

fn on_unexpected(event: AuthEvent) -> (r: (AuthState, AuthAction))
    ensures
        (r.0@, r.1@) == unexpected(event@),
{
    match event {
        AuthEvent::Cancelled => (AuthState::Failed, AuthAction::Fail(AuthError::Cancelled)),
        _ => (AuthState::Failed, AuthAction::Fail(AuthError::OutOfSequence)),
    }
}

/// The number of sends that the authenticator asks for while the events of
/// `events` arrive in turn, beginning in `state`.
pub open spec fn sends(cached: Option<Seq<char>>, state: AuthStateView, events: Seq<AuthEventView>) -> nat
    decreases events.len(),
{
    if events.len() == 0 {
        0
    } else {
        let step = transition(cached, state, events[0]);
        let rest = sends(cached, step.0, events.skip(1));
        if step.1 is Send {
            1 + rest
        } else {
            rest
        }
    }
}

/// The number of payments that the authenticator asks for while the events
/// of `events` arrive in turn, beginning in `state`.
pub open spec fn payments(cached: Option<Seq<char>>, state: AuthStateView, events: Seq<AuthEventView>) -> nat
    decreases events.len(),
{
    if events.len() == 0 {
        0
    } else {
        let step = transition(cached, state, events[0]);
        let rest = payments(cached, step.0, events.skip(1));
        if step.1 is Pay {
            1 + rest
        } else {
            rest
        }
    }
}

/// The sends that a state can still lead to.
pub open spec fn sends_left(cached: Option<Seq<char>>, state: AuthStateView) -> nat {
    match state {
        AuthStateView::Idle => if cached is Some {
            1
        } else {
            2
        },
        AuthStateView::AwaitingFirstResponse => 1,
        AuthStateView::Settling(_) => 1,
        _ => 0,
    }
}

/// The payments that a state can still lead to.
pub open spec fn payments_left(cached: Option<Seq<char>>, state: AuthStateView) -> nat {
    match state {
        AuthStateView::Idle => if cached is Some {
            0
        } else {
            1
        },
        AuthStateView::AwaitingFirstResponse => 1,
        _ => 0,
    }
}

/// Whatever events arrive, and in whatever order, a state leads to no more
/// sends and no more payments than it has left.
pub proof fn run_is_bounded(cached: Option<Seq<char>>, state: AuthStateView, events: Seq<AuthEventView>)
    ensures
        sends(cached, state, events) <= sends_left(cached, state),
        payments(cached, state, events) <= payments_left(cached, state),
    decreases events.len(),
{
    if events.len() > 0 {
        let step = transition(cached, state, events[0]);
        run_is_bounded(cached, step.0, events.skip(1));
    }
}

/// No duplicate payment: one execution, whatever the server and the
/// backend answer, pays at most one invoice and sends at most twice; with a
/// cached token it pays nothing and sends at most once.
pub proof fn one_payment_per_request(cached: Option<Seq<char>>, events: Seq<AuthEventView>)
    ensures
        payments(cached, AuthStateView::Idle, events) <= 1,
        sends(cached, AuthStateView::Idle, events) <= 2,
        cached is Some ==> payments(cached, AuthStateView::Idle, events) == 0 && sends(
            cached,
            AuthStateView::Idle,
            events,
        ) <= 1,
{
    run_is_bounded(cached, AuthStateView::Idle, events);
}

/// With a cached token the response to the one send is handed to the
/// caller whatever its status, and nothing is sent or paid after it.
pub proof fn cached_token_sends_once(
    token: Seq<char>,
    status: u16,
    www_authenticate: Option<Seq<char>>,
    later: Seq<AuthEventView>,
)
    ensures
        transition(Some(token), AuthStateView::Idle, AuthEventView::Start) == (
            AuthStateView::AwaitingCachedResponse,
            AuthActionView::Send { authorization: Some(with_scheme(token)) },
        ),
        transition(
            Some(token),
            AuthStateView::AwaitingCachedResponse,
            AuthEventView::Response { status, www_authenticate },
        ) == (AuthStateView::Success, AuthActionView::Return),
        sends(Some(token), AuthStateView::Success, later) == 0,
        payments(Some(token), AuthStateView::Success, later) == 0,
{
    run_is_bounded(Some(token), AuthStateView::Success, later);
}

/// A challenge that cannot be read, or a challenge without its header,
/// ends the request with the protocol error: no payment is asked for then
/// or later, and nothing is sent again.
pub proof fn unreadable_challenge_pays_nothing(
    cached: Option<Seq<char>>,
    www_authenticate: Option<Seq<char>>,
    later: Seq<AuthEventView>,
)
    requires
        www_authenticate is Some ==> parsed_header(www_authenticate->Some_0) is Err,
    ensures
        ({
            let step = transition(
                cached,
                AuthStateView::AwaitingFirstResponse,
                AuthEventView::Response { status: PAYMENT_REQUIRED, www_authenticate },
            );
            &&& step.0 == AuthStateView::Failed
            &&& step.1 is Fail
            &&& step.1->Fail_0 is Protocol
            &&& payments(cached, step.0, later) == 0
            &&& sends(cached, step.0, later) == 0
        }),
{
    run_is_bounded(cached, AuthStateView::Failed, later);
}

/// A payment that fails ends the request with that failure: the request is
/// not sent again and no second payment is tried.
pub proof fn failed_payment_is_final(
    cached: Option<Seq<char>>,
    c: L402View,
    e: PaymentErrorView,
    later: Seq<AuthEventView>,
)
    ensures
        transition(cached, AuthStateView::Settling(c), AuthEventView::PaymentFailed(e)) == (
            AuthStateView::Failed,
            AuthActionView::Fail(AuthErrorView::PaymentFailed(e)),
        ),
        sends(cached, AuthStateView::Failed, later) == 0,
        payments(cached, AuthStateView::Failed, later) == 0,
{
    run_is_bounded(cached, AuthStateView::Failed, later);
}

/// The response to the paid retry is handed to the caller whatever its
/// status, a second challenge too: nothing is paid or sent after it.
pub proof fn paid_retry_is_final(
    cached: Option<Seq<char>>,
    status: u16,
    www_authenticate: Option<Seq<char>>,
    later: Seq<AuthEventView>,
)
    ensures
        transition(cached, AuthStateView::Retrying, AuthEventView::Response { status, www_authenticate }) == (
            AuthStateView::Success,
            AuthActionView::Return,
        ),
        sends(cached, AuthStateView::Success, later) == 0,
        payments(cached, AuthStateView::Success, later) == 0,
{
    run_is_bounded(cached, AuthStateView::Success, later);
}

/// The paid round: without a cached token, a challenge that reads as the
/// credential `c`, a payment that returns a preimage of 32 bytes and any
/// response to the retry make exactly two sends and one payment, and the
/// second send carries the token, a colon and the preimage in hexadecimal.
pub proof fn paid_round_sends_twice_pays_once(
    header: Seq<char>,
    c: L402View,
    preimage: Seq<u8>,
    status: u16,
    www_authenticate: Option<Seq<char>>,
)
    requires
        parsed_header(header) == Ok::<L402View, ProtocolError>(c),
        preimage.len() == PREIMAGE_LEN,
    ensures
        ({
            let events = seq![
                AuthEventView::Start,
                AuthEventView::Response { status: PAYMENT_REQUIRED, www_authenticate: Some(header) },
                AuthEventView::Paid(preimage),
                AuthEventView::Response { status, www_authenticate },
            ];
            &&& sends(None, AuthStateView::Idle, events) == 2
            &&& payments(None, AuthStateView::Idle, events) == 1
        }),
        transition(None, AuthStateView::Settling(c), AuthEventView::Paid(preimage)) == (
            AuthStateView::Retrying,
            AuthActionView::Send {
                authorization: Some(with_scheme(c.token + seq![':'] + hex_text(preimage))),
            },
        ),
{
    let e0 = AuthEventView::Start;
    let e1 = AuthEventView::Response { status: PAYMENT_REQUIRED, www_authenticate: Some(header) };
    let e2 = AuthEventView::Paid(preimage);
    let e3 = AuthEventView::Response { status, www_authenticate };
    let events = seq![e0, e1, e2, e3];
    let none = None::<Seq<char>>;
    assert(c.preimage is None);
    assert(events.skip(1) =~= seq![e1, e2, e3]);
    assert(seq![e1, e2, e3].skip(1) =~= seq![e2, e3]);
    assert(seq![e2, e3].skip(1) =~= seq![e3]);
    assert(seq![e3].skip(1) =~= Seq::<AuthEventView>::empty());
    let s1 = AuthStateView::AwaitingFirstResponse;
    let s2 = AuthStateView::Settling(c);
    let s3 = AuthStateView::Retrying;
    let s4 = AuthStateView::Success;
    assert(transition(none, AuthStateView::Idle, e0).0 == s1);
    assert(transition(none, s1, e1).0 == s2);
    assert(transition(none, s2, e2).0 == s3);
    assert(transition(none, s3, e3).0 == s4);
    assert(sends(none, s4, Seq::<AuthEventView>::empty()) == 0);
    assert(payments(none, s4, Seq::<AuthEventView>::empty()) == 0);
    assert(sends(none, s3, seq![e3]) == 0);
    assert(payments(none, s3, seq![e3]) == 0);
    assert(sends(none, s2, seq![e2, e3]) == 1);
    assert(payments(none, s2, seq![e2, e3]) == 0);
    assert(sends(none, s1, seq![e1, e2, e3]) == 1);
    assert(payments(none, s1, seq![e1, e2, e3]) == 1);
}

/// The event that the reply to a payment is: the preimage that the wallet
/// reports, the wallet's failure, or the network's as a transport error.
pub open spec fn payment_event_of(reply: BackendReplyView) -> AuthEventView {
    match reply {
        BackendReplyView::Response { status, body } => match payment_reply(status, body) {
            Ok(preimage) => AuthEventView::Paid(preimage),
            Err(e) => AuthEventView::PaymentFailed(e),
        },
        BackendReplyView::Unreachable(detail) => AuthEventView::PaymentFailed(PaymentErrorView::Transport(detail)),
    }
}

impl L402Client {
    /// The call that asks the wallet at the configured endpoint to pay
    /// `invoice`.
    pub fn pay_invoice_request(&self, invoice: &str) -> (call: HttpCall)
        ensures
            call@ == (HttpCallView {
                method: HttpMethod::Post,
                endpoint: self.bolt11_endpoint@,
                body: bolt11_payment_body(invoice@),
            }),
    {
        HttpCall { method: HttpMethod::Post, endpoint: self.bolt11_endpoint.clone(), body: payment_body(invoice) }
    }

    /// The event that the reply to the payment is.
    pub fn payment_event(reply: BackendReply) -> (event: AuthEvent)
        ensures
            event@ == payment_event_of(reply@),
    {
        match reply {
            BackendReply::Response { status, body } => match payment_preimage(status, body) {
                Ok(preimage) => AuthEvent::Paid(preimage),
                Err(e) => AuthEvent::PaymentFailed(e),
            },
            BackendReply::Unreachable(detail) => AuthEvent::PaymentFailed(PaymentError::Transport(detail)),
        }
    }
}

/// The event that a backend's answer to a payment is: the preimage that
/// the backend reports, or the backend's failure as it is.
pub open spec fn backend_event_of(r: Result<PayInvoiceResultView, PaymentErrorView>) -> AuthEventView {
    match r {
        Ok(paid) => AuthEventView::Paid(paid.preimage),
        Err(e) => AuthEventView::PaymentFailed(e),
    }
}

/// The event that a payment backend's answer is.
pub fn backend_event(result: Result<PayInvoiceResult, PaymentError>) -> (event: AuthEvent)
    ensures
        event@ == backend_event_of(outcome_view(result)),
        event@ is Paid ==> event@->Paid_0.len() == PREIMAGE_LEN,
{
    match result {
        Ok(paid) => AuthEvent::Paid(paid.into_preimage()),
        Err(e) => AuthEvent::PaymentFailed(e),
    }
}

} // verus!
