//! BOLT11 invoices: the decoded value and the codec that produces it.

use lightning_invoice::{Bolt11Invoice, Bolt11ParseError, ParseOrSemanticError};
use vstd::prelude::*;

verus! {

/// Why an invoice text was not accepted.
#[derive(Clone, Copy, Debug, PartialEq, Eq, Structural)]
pub enum DecodeError {
    /// The text is not a well-formed, correctly signed invoice.
    Malformed,
    /// The text is well-formed but its prefix names no known network.
    UnsupportedNetwork,
}

/// The stage at which the codec gave an invoice text up.
#[derive(Clone, Copy, Debug, PartialEq, Eq, Structural)]
pub enum DecodeFailure {
    /// The text is not bech32: a character, the case, the separator or the
    /// checksum is wrong.
    Encoding,
    /// The prefix does not begin as an invoice's does.
    BadPrefix,
    /// The prefix is not a currency, an amount and a unit.
    MalformedPrefix,
    /// The prefix names a currency that is not known.
    UnknownCurrency,
    /// The data behind the prefix cannot be read: its length, a tagged
    /// field, the amount or the signature's encoding.
    Syntax,
    /// The invoice was read but breaks a rule: a field is missing or
    /// repeated, a feature is not allowed, or the signature does not hold.
    Semantic,
}

/// What a failure of the codec means to a caller: a prefix that was not
/// recognized, in any of its three forms, is an unsupported network; every
/// other failure, the checksum's and the signature's among them, is a
/// malformed invoice.
pub open spec fn decode_error_of(failure: DecodeFailure) -> DecodeError {
    match failure {
        DecodeFailure::BadPrefix => DecodeError::UnsupportedNetwork,
        DecodeFailure::MalformedPrefix => DecodeError::UnsupportedNetwork,
        DecodeFailure::UnknownCurrency => DecodeError::UnsupportedNetwork,
        DecodeFailure::Encoding => DecodeError::Malformed,
        DecodeFailure::Syntax => DecodeError::Malformed,
        DecodeFailure::Semantic => DecodeError::Malformed,
    }
}

impl DecodeError {
    /// The error that a failure of the codec is reported as.
    pub fn from_failure(failure: DecodeFailure) -> (e: DecodeError)
        ensures
            e == decode_error_of(failure),
    {
        match failure {
            DecodeFailure::BadPrefix => DecodeError::UnsupportedNetwork,
            DecodeFailure::MalformedPrefix => DecodeError::UnsupportedNetwork,
            DecodeFailure::UnknownCurrency => DecodeError::UnsupportedNetwork,
            DecodeFailure::Encoding => DecodeError::Malformed,
            DecodeFailure::Syntax => DecodeError::Malformed,
            DecodeFailure::Semantic => DecodeError::Malformed,
        }
    }
}

/// Whether `c` is an ASCII letter or digit.
pub open spec fn is_invoice_char(c: char) -> bool {
    ||| '0' <= c <= '9'
    ||| 'a' <= c <= 'z'
    ||| 'A' <= c <= 'Z'
}

/// Whether `text` is made as an invoice text is: not empty, of ASCII
/// letters and digits alone.
pub open spec fn is_invoice_text(text: Seq<char>) -> bool {
    &&& text.len() > 0
    &&& forall|k: int| 0 <= k < text.len() ==> is_invoice_char(#[trigger] text[k])
}

/// Whether `text` is an invoice text that the codec accepts.
pub open spec fn decodes(text: Seq<char>) -> bool {
    is_invoice_text(text) && bolt11_decoded(text) is Ok
}

/// What the codec reads out of an invoice text.
pub struct InvoiceData {
    pub payment_hash: Vec<u8>,
    pub amount_msat: Option<u64>,
    pub timestamp: u64,
    pub expiry: u64,
}

/// Mathematical value of [`InvoiceData`].
pub struct InvoiceFields {
    pub payment_hash: Seq<u8>,
    pub amount_msat: Option<u64>,
    pub timestamp: u64,
    pub expiry: u64,
}

impl View for InvoiceData {
    type V = InvoiceFields;

    open spec fn view(&self) -> InvoiceFields {
        InvoiceFields {
            payment_hash: self.payment_hash@,
            amount_msat: self.amount_msat,
            timestamp: self.timestamp,
            expiry: self.expiry,
        }
    }
}

/// The result of BOLT11 decoding on `text`: a function of the text alone,
/// computed by the `lightning-invoice` crate.
pub uninterp spec fn bolt11_decoded(text: Seq<char>) -> Result<InvoiceFields, DecodeFailure>;

/// Mathematical value of a codec result.
pub open spec fn decoding_view(r: Result<InvoiceData, DecodeFailure>) -> Result<
    InvoiceFields,
    DecodeFailure,
> {
    match r {
        Ok(data) => Ok(data@),
        Err(e) => Err(e),
    }
}

/// Trusted: `<Bolt11Invoice as FromStr>::from_str` of `lightning-invoice`,
/// which checks the bech32 encoding and checksum, the prefix, the tagged
/// fields and the signature. The result is named, not described. Of an
/// accepted text the source shows two things: the payment hash is a SHA-256
/// value of 32 bytes, and the text is not empty and holds ASCII letters and
/// digits alone (the prefix is `ln`, a known currency, digits and a unit;
/// the separator is `1`; the rest is of the bech32 alphabet). A failure is
/// handed back by its stage: the three prefix errors and the bech32 error
/// each under their own name, the other parse errors as one, the semantic
/// errors as one.
#[verifier::external_body]
fn bolt11_decode(text: &str) -> (r: Result<InvoiceData, DecodeFailure>)
    ensures
        decoding_view(r) == bolt11_decoded(text@),
        r is Ok ==> r->Ok_0.payment_hash@.len() == 32,
        r is Ok ==> is_invoice_text(text@),
{
    match text.parse::<Bolt11Invoice>() {
        Ok(invoice) => Ok(InvoiceData {
            payment_hash: AsRef::<[u8]>::as_ref(invoice.payment_hash()).to_vec(),
            amount_msat: invoice.amount_milli_satoshis(),
            timestamp: invoice.duration_since_epoch().as_secs(),
            expiry: invoice.expiry_time().as_secs(),
        }),
        Err(ParseOrSemanticError::SemanticError(_)) => Err(DecodeFailure::Semantic),
        Err(ParseOrSemanticError::ParseError(Bolt11ParseError::Bech32Error(_))) => Err(DecodeFailure::Encoding),
        Err(ParseOrSemanticError::ParseError(Bolt11ParseError::BadPrefix)) => Err(DecodeFailure::BadPrefix),
        Err(ParseOrSemanticError::ParseError(Bolt11ParseError::MalformedHRP)) => Err(DecodeFailure::MalformedPrefix),
        Err(ParseOrSemanticError::ParseError(Bolt11ParseError::UnknownCurrency)) => Err(DecodeFailure::UnknownCurrency),
        Err(ParseOrSemanticError::ParseError(_)) => Err(DecodeFailure::Syntax),
    }
}

/// A decoded Lightning invoice. It is made by decoding and never changed.
#[derive(Debug)]
pub struct Invoice {
    payment_hash: Vec<u8>,
    amount_msat: Option<u64>,
    timestamp: u64,
    expiry: u64,
    raw: String,
}

/// Mathematical value of an [`Invoice`].
pub struct InvoiceView {
    pub payment_hash: Seq<u8>,
    pub amount_msat: Option<u64>,
    pub timestamp: u64,
    pub expiry: u64,
    pub raw: Seq<char>,
}

/// The invoice that `text` and its decoded fields make.
pub open spec fn invoice_of(text: Seq<char>, fields: InvoiceFields) -> InvoiceView {
    InvoiceView {
        payment_hash: fields.payment_hash,
        amount_msat: fields.amount_msat,
        timestamp: fields.timestamp,
        expiry: fields.expiry,
        raw: text,
    }
}

/// The invoice that decoding `text` gives, for a given result of the codec.
pub open spec fn invoice_from(text: Seq<char>, decoded: Result<InvoiceFields, DecodeFailure>) -> Result<
    InvoiceView,
    DecodeError,
> {
    match decoded {
        Ok(fields) => Ok(invoice_of(text, fields)),
        Err(failure) => Err(decode_error_of(failure)),
    }
}

/// Mathematical value of a decoding outcome.
pub open spec fn invoice_result_view(r: Result<Invoice, DecodeError>) -> Result<InvoiceView, DecodeError> {
    match r {
        Ok(invoice) => Ok(invoice@),
        Err(e) => Err(e),
    }
}

impl View for Invoice {
    type V = InvoiceView;

    closed spec fn view(&self) -> InvoiceView {
        InvoiceView {
            payment_hash: self.payment_hash@,
            amount_msat: self.amount_msat,
            timestamp: self.timestamp,
            expiry: self.expiry,
            raw: self.raw@,
        }
    }
}

impl InvoiceView {
    /// An invoice is genuine when the codec accepts its text and gives its
    /// fields, and its payment hash has the 32 bytes of a SHA-256 value.
    pub open spec fn wf(self) -> bool {
        &&& self.payment_hash.len() == 32
        &&& decodes(self.raw)
        &&& invoice_from(self.raw, bolt11_decoded(self.raw)) == Ok::<InvoiceView, DecodeError>(self)
    }

    /// The second, counted from the Unix epoch, at which the invoice
    /// expires; `None` where that second does not fit in 64 bits.
    pub open spec fn expires_at(self) -> Option<u64> {
        if self.timestamp + self.expiry <= u64::MAX {
            Some((self.timestamp + self.expiry) as u64)
        } else {
            None
        }
    }
}

impl Invoice {
    /// The invoice that `text` holds, given what the codec read out of it.
    pub fn from_decoded(text: &str, decoded: Result<InvoiceData, DecodeFailure>) -> (r: Result<Invoice, DecodeError>)
        ensures
            invoice_result_view(r) == invoice_from(text@, decoding_view(decoded)),
    {
        match decoded {
            Ok(data) => Ok(
                Invoice {
                    payment_hash: data.payment_hash,
                    amount_msat: data.amount_msat,
                    timestamp: data.timestamp,
                    expiry: data.expiry,
                    raw: String::from_str(text),
                },
            ),
            Err(failure) => Err(DecodeError::from_failure(failure)),
        }
    }

    /// The 32-byte hash whose preimage proves payment.
    pub fn payment_hash(&self) -> (hash: &Vec<u8>)
        ensures
            hash@ == self@.payment_hash,
    {
        &self.payment_hash
    }

    /// The amount in millisatoshis, `None` for an invoice of any amount.
    pub fn amount_msat(&self) -> (amount: Option<u64>)
        ensures
            amount == self@.amount_msat,
    {
        self.amount_msat
    }

    /// The second at which the invoice expires.
    pub fn expires_at(&self) -> (at: Option<u64>)
        ensures
            at == self@.expires_at(),
    {
        self.timestamp.checked_add(self.expiry)
    }

    /// The text that the invoice was decoded from.
    pub fn raw(&self) -> (text: &String)
        ensures
            text@ == self@.raw,
    {
        &self.raw
    }

    /// A copy of the invoice.
    pub fn duplicate(&self) -> (copy: Invoice)
        ensures
            copy@ == self@,
    {
        Invoice {
            payment_hash: copy_bytes(&self.payment_hash),
            amount_msat: self.amount_msat,
            timestamp: self.timestamp,
            expiry: self.expiry,
            raw: self.raw.clone(),
        }
    }
}

/// Invoices are equal when their payment hashes are.
impl PartialEq for Invoice {
    fn eq(&self, other: &Invoice) -> (same: bool) {
        same_bytes(&self.payment_hash, &other.payment_hash)
    }
}

impl vstd::std_specs::cmp::PartialEqSpecImpl for Invoice {
    open spec fn obeys_eq_spec() -> bool {
        true
    }

    open spec fn eq_spec(&self, other: &Invoice) -> bool {
        self@.payment_hash == other@.payment_hash
    }
}

/// A copy of `bytes`.
pub fn copy_bytes(bytes: &Vec<u8>) -> (copy: Vec<u8>)
    ensures
        copy@ == bytes@,
{
    let mut copy: Vec<u8> = Vec::new();
    let mut i: usize = 0;
    while i < bytes.len()
        invariant
            i <= bytes.len(),
            copy@ == bytes@.subrange(0, i as int),
        decreases bytes.len() - i,
    {
        copy.push(bytes[i]);
        i += 1;
        assert(copy@ =~= bytes@.subrange(0, i as int));
    }
    assert(bytes@.subrange(0, bytes.len() as int) =~= bytes@);
    copy
}

/// Whether two byte strings hold the same bytes.
pub fn same_bytes(a: &Vec<u8>, b: &Vec<u8>) -> (same: bool)
    ensures
        same == (a@ == b@),
{
    if a.len() != b.len() {
        return false;
    }
    let mut i: usize = 0;
    while i < a.len()
        invariant
            i <= a.len(),
            a.len() == b.len(),
            forall|k: int| 0 <= k < i ==> a@[k] == b@[k],
        decreases a.len() - i,
    {
        if a[i] != b[i] {
            return false;
        }
        i += 1;
    }
    assert(a@ =~= b@);
    true
}

/// Decodes a BOLT11 invoice text. The text is accepted exactly when the
/// codec accepts it, and the invoice keeps the text it came from. A text
/// whose prefix the codec does not recognize is an unsupported network; any
/// other text that it gives up, for the checksum or the signature or the
/// fields, is malformed.
pub fn decode_invoice(payment_request: &str) -> (r: Result<Invoice, DecodeError>)
    ensures
        invoice_result_view(r) == invoice_from(payment_request@, bolt11_decoded(payment_request@)),
        r is Ok == decodes(payment_request@),
        r is Ok ==> r->Ok_0@.wf(),
{
    let decoded = bolt11_decode(payment_request);
    Invoice::from_decoded(payment_request, decoded)
}

} // verus!
