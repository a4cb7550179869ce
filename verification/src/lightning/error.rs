//! What can go wrong when a payment backend is asked to settle an invoice.

use vstd::prelude::*;

verus! {

/// A failure of a payment backend.
#[derive(Debug)]
pub enum PaymentError {
    /// The backend refused the credentials.
    Unauthorized,
    /// The backend knows no such resource.
    NotFound,
    /// The backend answered, but the payment did not complete.
    NotCompleted,
    /// The connection to a node could not be made.
    ConnectionFailed(String),
    /// The network failed below the protocol: time-out, name lookup, TLS.
    Transport(String),
    /// The backend answered with another failure status; the reply's body
    /// is the detail.
    RemoteRejected(String),
    /// The backend's reply could not be read; the reply is the detail.
    InvalidResponse(String),
    /// The proof of payment is not a preimage of 32 bytes.
    InvalidPreimage,
    /// The invoice to pay does not decode.
    InvalidInvoice,
}

/// Mathematical value of a [`PaymentError`].
pub enum PaymentErrorView {
    Unauthorized,
    NotFound,
    NotCompleted,
    ConnectionFailed(Seq<char>),
    Transport(Seq<char>),
    RemoteRejected(Seq<char>),
    InvalidResponse(Seq<char>),
    InvalidPreimage,
    InvalidInvoice,
}

impl View for PaymentError {
    type V = PaymentErrorView;

    open spec fn view(&self) -> PaymentErrorView {
        match self {
            PaymentError::Unauthorized => PaymentErrorView::Unauthorized,
            PaymentError::NotFound => PaymentErrorView::NotFound,
            PaymentError::NotCompleted => PaymentErrorView::NotCompleted,
            PaymentError::ConnectionFailed(d) => PaymentErrorView::ConnectionFailed(d@),
            PaymentError::Transport(d) => PaymentErrorView::Transport(d@),
            PaymentError::RemoteRejected(d) => PaymentErrorView::RemoteRejected(d@),
            PaymentError::InvalidResponse(d) => PaymentErrorView::InvalidResponse(d@),
            PaymentError::InvalidPreimage => PaymentErrorView::InvalidPreimage,
            PaymentError::InvalidInvoice => PaymentErrorView::InvalidInvoice,
        }
    }
}

/// What a REST backend's reply means: a status from 200 to 299 gives the
/// body, 401 is unauthorized, 404 is not found, and any other status is a
/// rejection with the body as its detail.
pub open spec fn status_outcome(status: u16, body: Seq<char>) -> Result<Seq<char>, PaymentErrorView> {
    if 200 <= status < 300 {
        Ok(body)
    } else if status == 401 {
        Err(PaymentErrorView::Unauthorized)
    } else if status == 404 {
        Err(PaymentErrorView::NotFound)
    } else {
        Err(PaymentErrorView::RemoteRejected(body))
    }
}

/// Mathematical value of a reply that was checked.
pub open spec fn body_view(r: Result<String, PaymentError>) -> Result<Seq<char>, PaymentErrorView> {
    match r {
        Ok(body) => Ok(body@),
        Err(e) => Err(e@),
    }
}

/// Tells a REST backend's success from its failures by the status code.
pub fn check_status(status: u16, body: String) -> (r: Result<String, PaymentError>)
    ensures
        body_view(r) == status_outcome(status, body@),
{
    if 200 <= status && status < 300 {
        Ok(body)
    } else if status == 401 {
        Err(PaymentError::Unauthorized)
    } else if status == 404 {
        Err(PaymentError::NotFound)
    } else {
        Err(PaymentError::RemoteRejected(body))
    }
}

/// What came back from a call to a REST backend.
#[derive(Debug)]
pub enum BackendReply {
    /// The backend answered.
    Response { status: u16, body: String },
    /// The network failed before any answer; the detail says how.
    Unreachable(String),
}

/// Mathematical value of a [`BackendReply`].
pub enum BackendReplyView {
    Response { status: u16, body: Seq<char> },
    Unreachable(Seq<char>),
}

impl View for BackendReply {
    type V = BackendReplyView;

    open spec fn view(&self) -> BackendReplyView {
        match self {
            BackendReply::Response { status, body } => BackendReplyView::Response { status: *status, body: body@ },
            BackendReply::Unreachable(detail) => BackendReplyView::Unreachable(detail@),
        }
    }
}

/// What a reply means: an answer is judged by its status, and a failure of
/// the network is a transport error with the same detail.
pub open spec fn reply_outcome(reply: BackendReplyView) -> Result<Seq<char>, PaymentErrorView> {
    match reply {
        BackendReplyView::Response { status, body } => status_outcome(status, body),
        BackendReplyView::Unreachable(detail) => Err(PaymentErrorView::Transport(detail)),
    }
}

/// Tells a backend's success from its failures, those of the network
/// included.
pub fn check_reply(reply: BackendReply) -> (r: Result<String, PaymentError>)
    ensures
        body_view(r) == reply_outcome(reply@),
{
    match reply {
        BackendReply::Response { status, body } => check_status(status, body),
        BackendReply::Unreachable(detail) => Err(PaymentError::Transport(detail)),
    }
}

} // verus!
