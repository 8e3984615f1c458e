use vstd::prelude::*;

verus! {

/// The errors reported to the caller. `InternalError` carries a diagnostic
/// text that callers are not meant to branch on; the other variants are the
/// stable, actionable ones.
#[derive(Clone, Debug, PartialEq, Eq)]
pub enum PcscHostError {
    InternalError(String),
    AIDParseError(String),
    CardNotFound(String),
    InvalidPin,
    TouchConfirmationTimeout,
}

/// A failure reported by the card backend, as far as this library tells
/// failures apart; each keeps the backend's own description.
#[derive(Clone, Debug, PartialEq, Eq)]
pub enum CardFault {
    /// The card answered "incorrect parameters in command data field".
    IncorrectParameters(String),
    /// The card answered "security-related issues" (how a token reports a
    /// touch confirmation that timed out).
    SecurityIssue(String),
    /// No smart-card reader is attached.
    NoReader(String),
    /// No reachable card matches the requested identifier.
    CardNotFound(String),
    /// Data could not be parsed.
    Parse(String),
    /// Anything else.
    Other(String),
}

impl CardFault {
    pub open spec fn spec_detail(&self) -> Seq<char> {
        match self {
            CardFault::IncorrectParameters(d) => d@,
            CardFault::SecurityIssue(d) => d@,
            CardFault::NoReader(d) => d@,
            CardFault::CardNotFound(d) => d@,
            CardFault::Parse(d) => d@,
            CardFault::Other(d) => d@,
        }
    }

    /// The backend's description of the failure.
    pub fn detail(&self) -> (r: String)
        ensures
            r@ == self.spec_detail(),
    {
        match self {
            CardFault::IncorrectParameters(d) => d.clone(),
            CardFault::SecurityIssue(d) => d.clone(),
            CardFault::NoReader(d) => d.clone(),
            CardFault::CardNotFound(d) => d.clone(),
            CardFault::Parse(d) => d.clone(),
            CardFault::Other(d) => d.clone(),
        }
    }
}

/// The mathematical value of a `PcscHostError`.
pub enum HostErrorView {
    InternalError(Seq<char>),
    AIDParseError(Seq<char>),
    CardNotFound(Seq<char>),
    InvalidPin,
    TouchConfirmationTimeout,
}

impl View for PcscHostError {
    type V = HostErrorView;

    open spec fn view(&self) -> HostErrorView {
        match self {
            PcscHostError::InternalError(d) => HostErrorView::InternalError(d@),
            PcscHostError::AIDParseError(d) => HostErrorView::AIDParseError(d@),
            PcscHostError::CardNotFound(d) => HostErrorView::CardNotFound(d@),
            PcscHostError::InvalidPin => HostErrorView::InvalidPin,
            PcscHostError::TouchConfirmationTimeout => HostErrorView::TouchConfirmationTimeout,
        }
    }
}

/// The error for a failure while opening a session on the card named `aid`:
/// a parse failure is an identifier error, a missing card is
/// `CardNotFound(aid)`, the rest are internal errors.
pub open spec fn open_error(f: CardFault, aid: Seq<char>) -> HostErrorView {
    match f {
        CardFault::Parse(d) => HostErrorView::AIDParseError(d@),
        CardFault::CardNotFound(_) => HostErrorView::CardNotFound(aid),
        _ => HostErrorView::InternalError(f.spec_detail()),
    }
}

pub fn map_open_error(f: &CardFault, aid: &String) -> (r: PcscHostError)
    ensures
        r@ == open_error(*f, aid@),
{
    match f {
        CardFault::Parse(d) => PcscHostError::AIDParseError(d.clone()),
        CardFault::CardNotFound(_) => PcscHostError::CardNotFound(aid.clone()),
        _ => PcscHostError::InternalError(f.detail()),
    }
}

/// The error for a failure of PIN verification: the card's "incorrect
/// parameters" answer means a wrong PIN, anything else is an internal error.
pub open spec fn pin_error(f: CardFault) -> HostErrorView {
    match f {
        CardFault::IncorrectParameters(_) => HostErrorView::InvalidPin,
        _ => HostErrorView::InternalError(f.spec_detail()),
    }
}

pub fn map_pin_error(f: &CardFault) -> (r: PcscHostError)
    ensures
        r@ == pin_error(*f),
{
    match f {
        CardFault::IncorrectParameters(_) => PcscHostError::InvalidPin,
        _ => PcscHostError::InternalError(f.detail()),
    }
}

/// The error for a failure of the signing operation: the card's
/// "security-related issues" answer means that touch confirmation timed out,
/// anything else is an internal error.
pub open spec fn sign_error(f: CardFault) -> HostErrorView {
    match f {
        CardFault::SecurityIssue(_) => HostErrorView::TouchConfirmationTimeout,
        _ => HostErrorView::InternalError(f.spec_detail()),
    }
}

pub fn map_sign_error(f: &CardFault) -> (r: PcscHostError)
    ensures
        r@ == sign_error(*f),
{
    match f {
        CardFault::SecurityIssue(_) => PcscHostError::TouchConfirmationTimeout,
        _ => PcscHostError::InternalError(f.detail()),
    }
}

} // verus!
