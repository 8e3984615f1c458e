use vstd::prelude::*;
use crate::card::OpenpgpCardInfo;
use crate::error::PcscHostError;

verus! {

/// One request read from the caller.
#[derive(Clone, Debug, PartialEq, Eq)]
pub struct PcscHostRequest {
    pub command: PcscHostCommand,
}

/// The commands a caller may send; there are no others.
#[derive(Clone, Debug, PartialEq, Eq)]
pub enum PcscHostCommand {
    ListCards,
    SignMessage { aid: String, message: Vec<u8>, pin: Vec<u8> },
}

/// What a successful answer carries. `AwaitTouch` is the notification sent
/// while a signature waits for the user's touch; it does not end a request.
#[derive(Clone, Debug, PartialEq, Eq)]
pub enum ResponseData {
    ListCards(Vec<OpenpgpCardInfo>),
    SignMessage(Vec<u8>),
    AwaitTouch,
}

/// One answer written to the caller: a payload, or an error.
#[derive(Clone, Debug, PartialEq, Eq)]
pub enum PcscHostResponse {
    Success(ResponseData),
    Failure(PcscHostError),
}

impl PcscHostResponse {
    /// The answer to a listing request.
    pub fn from_listing(r: Result<Vec<OpenpgpCardInfo>, PcscHostError>) -> (res: PcscHostResponse)
        ensures
            match r {
                Ok(cards) => res == PcscHostResponse::Success(ResponseData::ListCards(cards)),
                Err(e) => res == PcscHostResponse::Failure(e),
            },
    {
        match r {
            Ok(cards) => PcscHostResponse::Success(ResponseData::ListCards(cards)),
            Err(e) => PcscHostResponse::Failure(e),
        }
    }

    /// The answer to a signing request.
    pub fn from_signing(r: Result<Vec<u8>, PcscHostError>) -> (res: PcscHostResponse)
        ensures
            match r {
                Ok(sig) => res == PcscHostResponse::Success(ResponseData::SignMessage(sig)),
                Err(e) => res == PcscHostResponse::Failure(e),
            },
    {
        match r {
            Ok(sig) => PcscHostResponse::Success(ResponseData::SignMessage(sig)),
            Err(e) => PcscHostResponse::Failure(e),
        }
    }

    /// The notification that a signature waits for the user's touch.
    pub fn await_touch() -> (res: PcscHostResponse)
        ensures
            res == PcscHostResponse::Success(ResponseData::AwaitTouch),
    {
        PcscHostResponse::Success(ResponseData::AwaitTouch)
    }

    /// Whether this answer ends its request.
    pub fn is_terminal(&self) -> (r: bool)
        ensures
            r <==> !(self matches PcscHostResponse::Success(ResponseData::AwaitTouch)),
    {
        !matches!(self, PcscHostResponse::Success(ResponseData::AwaitTouch))
    }
}

} // verus!
