use pcsc_host::error::{map_open_error, map_pin_error, map_sign_error, CardFault, PcscHostError};
use pcsc_host::protocol::{PcscHostResponse, ResponseData};
use pcsc_host::workflow::{SignAction, SignEvent, SignPhase, SignWorkflow};

const AID: &str = "D2760001240103040006223637060000";

struct Card {
    open: Result<(), CardFault>,
    pin: Result<(), CardFault>,
    touch: Result<Option<bool>, CardFault>,
    sign: Result<Vec<u8>, CardFault>,
    sign_calls: usize,
    pin_calls: usize,
}

fn card(touch: Option<bool>, sign: Result<Vec<u8>, CardFault>) -> Card {
    Card { open: Ok(()), pin: Ok(()), touch: Ok(touch), sign, sign_calls: 0, pin_calls: 0 }
}

/// Drives one request to its end; returns the frames that would be written.
fn drive(aid: &str, card: &mut Card) -> Vec<PcscHostResponse> {
    let mut out = Vec::new();
    let (mut wf, mut action) = SignWorkflow::begin(&aid.to_string());
    loop {
        let ev = match action {
            SignAction::Open(_) => SignEvent::Opened(card.open.clone()),
            SignAction::VerifyPin => {
                card.pin_calls += 1;
                SignEvent::PinChecked(card.pin.clone())
            }
            SignAction::ReadTouchPolicy => SignEvent::TouchPolicy(card.touch.clone()),
            SignAction::NotifyAwaitTouch => {
                out.push(PcscHostResponse::await_touch());
                SignEvent::Notified
            }
            SignAction::Sign => {
                card.sign_calls += 1;
                SignEvent::Signed(card.sign.clone())
            }
            SignAction::Finish(r) => {
                assert_eq!(wf.phase, SignPhase::Done);
                out.push(PcscHostResponse::from_signing(r));
                return out;
            }
        };
        let (w, a) = wf.step(ev);
        wf = w;
        action = a;
    }
}

fn signature() -> Vec<u8> {
    (0..64).collect()
}

#[test]
fn signing_without_touch_policy() {
    let mut c = card(None, Ok(signature()));
    let out = drive(AID, &mut c);
    assert_eq!(out, vec![PcscHostResponse::Success(ResponseData::SignMessage(signature()))]);
    assert_eq!(c.sign_calls, 1);
}

#[test]
fn wrong_pin_yields_invalid_pin_and_no_signing() {
    let mut c = card(Some(true), Ok(signature()));
    c.pin = Err(CardFault::IncorrectParameters("wrong pin".to_string()));
    let out = drive(AID, &mut c);
    assert_eq!(out, vec![PcscHostResponse::Failure(PcscHostError::InvalidPin)]);
    assert_eq!(c.sign_calls, 0);
}

#[test]
fn touch_required_emits_one_notification_first() {
    let mut c = card(Some(true), Ok(signature()));
    let out = drive(AID, &mut c);
    assert_eq!(
        out,
        vec![
            PcscHostResponse::Success(ResponseData::AwaitTouch),
            PcscHostResponse::Success(ResponseData::SignMessage(signature())),
        ]
    );
    assert!(!out[0].is_terminal());
    assert!(out[1].is_terminal());
}

#[test]
fn touch_not_required_emits_no_notification() {
    let mut c = card(Some(false), Ok(signature()));
    let out = drive(AID, &mut c);
    assert_eq!(out.len(), 1);
}

#[test]
fn touch_timeout_yields_touch_confirmation_timeout() {
    let mut c = card(Some(true), Err(CardFault::SecurityIssue("security-related issues".to_string())));
    let out = drive(AID, &mut c);
    assert_eq!(out.last(), Some(&PcscHostResponse::Failure(PcscHostError::TouchConfirmationTimeout)));
}

#[test]
fn unknown_card_yields_card_not_found() {
    let mut c = card(None, Ok(signature()));
    c.open = Err(CardFault::CardNotFound("0006:22363706".to_string()));
    let out = drive(AID, &mut c);
    assert_eq!(out, vec![PcscHostResponse::Failure(PcscHostError::CardNotFound(AID.to_string()))]);
    assert_eq!(c.pin_calls, 0);
}

#[test]
fn bad_identifier_yields_parse_error() {
    let mut c = card(None, Ok(signature()));
    let out = drive("D27600", &mut c);
    assert!(matches!(out[..], [PcscHostResponse::Failure(PcscHostError::AIDParseError(_))]));
    assert_eq!(c.pin_calls, 0);
}

#[test]
fn repeated_requests_sign_each_time() {
    let mut c = card(Some(true), Ok(signature()));
    let first = drive(AID, &mut c);
    let second = drive(AID, &mut c);
    assert_eq!(first, second);
    assert_eq!(first.last(), Some(&PcscHostResponse::Success(ResponseData::SignMessage(signature()))));
    assert_eq!(c.pin_calls, 2);
    assert_eq!(c.sign_calls, 2);
}

#[test]
fn out_of_order_answer_is_internal_error() {
    let (wf, _) = SignWorkflow::begin(&AID.to_string());
    let (wf, action) = wf.step(SignEvent::Notified);
    assert_eq!(wf.phase, SignPhase::Done);
    assert!(matches!(action, SignAction::Finish(Err(PcscHostError::InternalError(_)))));
}

#[test]
fn other_failures_are_internal_errors() {
    let f = CardFault::Other("boom".to_string());
    assert_eq!(map_pin_error(&f), PcscHostError::InternalError("boom".to_string()));
    assert_eq!(map_sign_error(&f), PcscHostError::InternalError("boom".to_string()));
    assert_eq!(map_open_error(&f, &AID.to_string()), PcscHostError::InternalError("boom".to_string()));
    // each card answer has its meaning only in its own step
    let timeout = CardFault::SecurityIssue("t".to_string());
    assert_eq!(map_pin_error(&timeout), PcscHostError::InternalError("t".to_string()));
    let wrong_pin = CardFault::IncorrectParameters("p".to_string());
    assert_eq!(map_sign_error(&wrong_pin), PcscHostError::InternalError("p".to_string()));
    let parse = CardFault::Parse("bad aid".to_string());
    assert_eq!(map_open_error(&parse, &AID.to_string()), PcscHostError::AIDParseError("bad aid".to_string()));
}

#[test]
fn listing_response_wraps_cards() {
    assert_eq!(PcscHostResponse::from_listing(Ok(vec![])), PcscHostResponse::Success(ResponseData::ListCards(vec![])));
    assert_eq!(
        PcscHostResponse::from_listing(Err(PcscHostError::InvalidPin)),
        PcscHostResponse::Failure(PcscHostError::InvalidPin)
    );
}
