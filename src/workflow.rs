use vstd::prelude::*;
use crate::aid::{aid_text, resolve, resolves, CardIdentifier};
use crate::hex::bytes_of_hex;
use crate::error::{
    map_open_error, map_pin_error, map_sign_error, open_error, pin_error, sign_error, CardFault,
    HostErrorView, PcscHostError,
};

verus! {

/// Where a signing request stands: each phase but `Done` waits for the answer
/// to the action that led to it.
#[derive(Clone, Copy, Debug, PartialEq, Eq, Structural)]
pub enum SignPhase {
    Opening,
    VerifyingPin,
    CheckingTouch,
    AwaitingTouch,
    Signing,
    Done,
}

/// What the caller must do next on behalf of a signing request.
#[derive(Debug)]
pub enum SignAction {
    /// Open a session on this card.
    Open(CardIdentifier),
    /// Verify the request's PIN on the open session.
    VerifyPin,
    /// Read the touch policy of the signing key.
    ReadTouchPolicy,
    /// Send the "await touch" notification to the caller.
    NotifyAwaitTouch,
    /// Sign the request's message on the open session.
    Sign,
    /// Close the session and answer the request with this result.
    Finish(Result<Vec<u8>, PcscHostError>),
}

/// The answer to the last action.
#[derive(Debug)]
pub enum SignEvent {
    Opened(Result<(), CardFault>),
    PinChecked(Result<(), CardFault>),
    /// `None` when the card has no touch policy, else whether touch is required.
    TouchPolicy(Result<Option<bool>, CardFault>),
    Notified,
    Signed(Result<Vec<u8>, CardFault>),
}

pub enum ActionView {
    Open(Seq<u8>),
    VerifyPin,
    ReadTouchPolicy,
    NotifyAwaitTouch,
    Sign,
    Finish(Result<Seq<u8>, HostErrorView>),
}

impl View for SignAction {
    type V = ActionView;

    open spec fn view(&self) -> ActionView {
        match self {
            SignAction::Open(id) => ActionView::Open(id.bytes@),
            SignAction::VerifyPin => ActionView::VerifyPin,
            SignAction::ReadTouchPolicy => ActionView::ReadTouchPolicy,
            SignAction::NotifyAwaitTouch => ActionView::NotifyAwaitTouch,
            SignAction::Sign => ActionView::Sign,
            SignAction::Finish(Ok(sig)) => ActionView::Finish(Ok(sig@)),
            SignAction::Finish(Err(e)) => ActionView::Finish(Err(e@)),
        }
    }
}

/// The diagnostic for an answer that does not fit the phase.
pub open spec fn out_of_order() -> Seq<char> {
    "answer out of order in signing workflow"@
}

/// One transition: the next phase and the action that goes with it.
pub open spec fn next(phase: SignPhase, aid: Seq<char>, ev: SignEvent) -> (SignPhase, ActionView) {
    match (phase, ev) {
        (SignPhase::Opening, SignEvent::Opened(Ok(_))) => (SignPhase::VerifyingPin, ActionView::VerifyPin),
        (SignPhase::Opening, SignEvent::Opened(Err(f))) => (SignPhase::Done, ActionView::Finish(Err(open_error(f, aid)))),
        (SignPhase::VerifyingPin, SignEvent::PinChecked(Ok(_))) => (SignPhase::CheckingTouch, ActionView::ReadTouchPolicy),
        (SignPhase::VerifyingPin, SignEvent::PinChecked(Err(f))) => (SignPhase::Done, ActionView::Finish(Err(pin_error(f)))),
        (SignPhase::CheckingTouch, SignEvent::TouchPolicy(Ok(Some(true)))) => (SignPhase::AwaitingTouch, ActionView::NotifyAwaitTouch),
        (SignPhase::CheckingTouch, SignEvent::TouchPolicy(Ok(_))) => (SignPhase::Signing, ActionView::Sign),
        (SignPhase::CheckingTouch, SignEvent::TouchPolicy(Err(f))) => (
            SignPhase::Done,
            ActionView::Finish(Err(HostErrorView::InternalError(f.spec_detail()))),
        ),
        (SignPhase::AwaitingTouch, SignEvent::Notified) => (SignPhase::Signing, ActionView::Sign),
        (SignPhase::Signing, SignEvent::Signed(Ok(sig))) => (SignPhase::Done, ActionView::Finish(Ok(sig@))),
        (SignPhase::Signing, SignEvent::Signed(Err(f))) => (SignPhase::Done, ActionView::Finish(Err(sign_error(f)))),
        _ => (SignPhase::Done, ActionView::Finish(Err(HostErrorView::InternalError(out_of_order())))),
    }
}

/// A signing request in progress. It holds no PIN and no session: the caller
/// owns both for the duration of one request.
#[derive(Debug)]
pub struct SignWorkflow {
    pub phase: SignPhase,
    pub aid: String,
}

impl SignWorkflow {
    /// Starts a request for the card named `aid`: open a session on it, or
    /// finish at once with the identifier's parse error.
    pub fn begin(aid: &String) -> (r: (SignWorkflow, SignAction))
        ensures
            r.0.aid@ == aid@,
            resolves(aid@) ==> r.0.phase == SignPhase::Opening && (r.1 matches SignAction::Open(id) && id.wf()
                && id.bytes@ == bytes_of_hex(aid_text(aid@))),
            !resolves(aid@) ==> r.0.phase == SignPhase::Done && (r.1 matches SignAction::Finish(Err(PcscHostError::AIDParseError(_)))),
    {
        match resolve(aid.as_str()) {
            Ok(id) => (SignWorkflow { phase: SignPhase::Opening, aid: aid.clone() }, SignAction::Open(id)),
            Err(e) => (SignWorkflow { phase: SignPhase::Done, aid: aid.clone() }, SignAction::Finish(Err(e))),
        }
    }

    /// Takes the answer to the last action and gives the next one.
    pub fn step(self, ev: SignEvent) -> (r: (SignWorkflow, SignAction))
        ensures
            r.0.aid == self.aid,
            (r.0.phase, r.1@) == next(self.phase, self.aid@, ev),
    {
        let phase = self.phase;
        let aid = self.aid;
        let (p, a) = match (phase, ev) {
            (SignPhase::Opening, SignEvent::Opened(Ok(_))) => (SignPhase::VerifyingPin, SignAction::VerifyPin),
            (SignPhase::Opening, SignEvent::Opened(Err(f))) => (SignPhase::Done, SignAction::Finish(Err(map_open_error(&f, &aid)))),
            (SignPhase::VerifyingPin, SignEvent::PinChecked(Ok(_))) => (SignPhase::CheckingTouch, SignAction::ReadTouchPolicy),
            (SignPhase::VerifyingPin, SignEvent::PinChecked(Err(f))) => (SignPhase::Done, SignAction::Finish(Err(map_pin_error(&f)))),
            (SignPhase::CheckingTouch, SignEvent::TouchPolicy(Ok(Some(true)))) => (SignPhase::AwaitingTouch, SignAction::NotifyAwaitTouch),
            (SignPhase::CheckingTouch, SignEvent::TouchPolicy(Ok(_))) => (SignPhase::Signing, SignAction::Sign),
            (SignPhase::CheckingTouch, SignEvent::TouchPolicy(Err(f))) => (
                SignPhase::Done,
                SignAction::Finish(Err(PcscHostError::InternalError(f.detail()))),
            ),
            (SignPhase::AwaitingTouch, SignEvent::Notified) => (SignPhase::Signing, SignAction::Sign),
            (SignPhase::Signing, SignEvent::Signed(Ok(sig))) => (SignPhase::Done, SignAction::Finish(Ok(sig))),
            (SignPhase::Signing, SignEvent::Signed(Err(f))) => (SignPhase::Done, SignAction::Finish(Err(map_sign_error(&f)))),
            _ => (
                SignPhase::Done,
                SignAction::Finish(Err(PcscHostError::InternalError("answer out of order in signing workflow".to_owned()))),
            ),
        };
        (SignWorkflow { phase: p, aid }, a)
    }
}

/// How a card answers each step of one request.
pub struct CardAnswers {
    pub open: Result<(), CardFault>,
    pub pin: Result<(), CardFault>,
    pub touch: Result<Option<bool>, CardFault>,
    pub sign: Result<Vec<u8>, CardFault>,
}

/// The answer that the phase waits for.
pub open spec fn answer(phase: SignPhase, c: CardAnswers) -> SignEvent {
    match phase {
        SignPhase::Opening => SignEvent::Opened(c.open),
        SignPhase::VerifyingPin => SignEvent::PinChecked(c.pin),
        SignPhase::CheckingTouch => SignEvent::TouchPolicy(c.touch),
        SignPhase::AwaitingTouch => SignEvent::Notified,
        _ => SignEvent::Signed(c.sign),
    }
}

/// The actions taken from `phase` on, at most `fuel` of them, when every
/// action is answered as `c` says.
pub open spec fn run(phase: SignPhase, aid: Seq<char>, c: CardAnswers, fuel: nat) -> Seq<ActionView>
    decreases fuel,
{
    if fuel == 0 || phase == SignPhase::Done {
        Seq::empty()
    } else {
        let (p, a) = next(phase, aid, answer(phase, c));
        seq![a] + run(p, aid, c, (fuel - 1) as nat)
    }
}

/// The actions of a request once a session was asked for.
pub open spec fn session(aid: Seq<char>, c: CardAnswers) -> Seq<ActionView> {
    run(SignPhase::Opening, aid, c, 5)
}

/// The result that ends a request whose card signs with answer `sign`.
pub open spec fn signing_result(sign: Result<Vec<u8>, CardFault>) -> Result<Seq<u8>, HostErrorView> {
    match sign {
        Ok(sig) => Ok(sig@),
        Err(f) => Err(sign_error(f)),
    }
}

/// A wrong PIN ends the request with exactly `InvalidPin`, and the card is
/// never asked to sign.
pub proof fn lemma_wrong_pin_never_signs(aid: Seq<char>, c: CardAnswers)
    requires
        c.open is Ok,
        c.pin matches Err(CardFault::IncorrectParameters(_)),
    ensures
        session(aid, c) == seq![ActionView::VerifyPin, ActionView::Finish(Err(HostErrorView::InvalidPin))],
        forall|i: int| 0 <= i < session(aid, c).len() ==> !(#[trigger] session(aid, c)[i] is Sign),
{
    reveal_with_fuel(run, 6);
    assert(session(aid, c) =~= seq![ActionView::VerifyPin, ActionView::Finish(Err(HostErrorView::InvalidPin))]);
}

/// When the signing key requires touch, the caller is notified exactly once,
/// after the PIN is verified and before the card is asked to sign; the
/// request then ends with the card's signing result.
pub proof fn lemma_touch_notified_once(aid: Seq<char>, c: CardAnswers)
    requires
        c.open is Ok,
        c.pin is Ok,
        c.touch == Ok::<Option<bool>, CardFault>(Some(true)),
    ensures
        session(aid, c) == seq![
            ActionView::VerifyPin,
            ActionView::ReadTouchPolicy,
            ActionView::NotifyAwaitTouch,
            ActionView::Sign,
            ActionView::Finish(signing_result(c.sign)),
        ],
{
    reveal_with_fuel(run, 6);
    assert(session(aid, c) =~= seq![
        ActionView::VerifyPin,
        ActionView::ReadTouchPolicy,
        ActionView::NotifyAwaitTouch,
        ActionView::Sign,
        ActionView::Finish(signing_result(c.sign)),
    ]);
}

/// When the card has no touch policy, or one that does not require touch,
/// no notification is sent.
pub proof fn lemma_no_touch_no_notice(aid: Seq<char>, c: CardAnswers)
    requires
        c.open is Ok,
        c.pin is Ok,
        c.touch matches Ok(t) && t != Some(true),
    ensures
        session(aid, c) == seq![
            ActionView::VerifyPin,
            ActionView::ReadTouchPolicy,
            ActionView::Sign,
            ActionView::Finish(signing_result(c.sign)),
        ],
{
    reveal_with_fuel(run, 6);
    assert(session(aid, c) =~= seq![
        ActionView::VerifyPin,
        ActionView::ReadTouchPolicy,
        ActionView::Sign,
        ActionView::Finish(signing_result(c.sign)),
    ]);
}

/// A touch timeout reported by the card while signing ends the request with
/// exactly `TouchConfirmationTimeout`.
pub proof fn lemma_touch_timeout(aid: Seq<char>, c: CardAnswers)
    requires
        c.open is Ok,
        c.pin is Ok,
        c.touch is Ok,
        c.sign matches Err(CardFault::SecurityIssue(_)),
    ensures
        session(aid, c).last() == ActionView::Finish(Err(HostErrorView::TouchConfirmationTimeout)),
{
    if c.touch == Ok::<Option<bool>, CardFault>(Some(true)) {
        lemma_touch_notified_once(aid, c);
    } else {
        lemma_no_touch_no_notice(aid, c);
    }
}

/// A request for a card that cannot be found ends at once with
/// `CardNotFound` naming the requested identifier.
pub proof fn lemma_card_not_found(aid: Seq<char>, c: CardAnswers)
    requires
        c.open matches Err(CardFault::CardNotFound(_)),
    ensures
        session(aid, c) == seq![ActionView::Finish(Err(HostErrorView::CardNotFound(aid)))],
{
    reveal_with_fuel(run, 6);
    assert(session(aid, c) =~= seq![ActionView::Finish(Err(HostErrorView::CardNotFound(aid)))]);
}

/// Two requests with a correct PIN each go through the whole sequence: each
/// verifies the PIN first, asks the card to sign, and ends with the signature
/// that its own signing step returned.
pub proof fn lemma_requests_sign_afresh(aid: Seq<char>, c1: CardAnswers, c2: CardAnswers)
    requires
        c1.open is Ok && c1.pin is Ok && c1.touch is Ok && c1.sign is Ok,
        c2.open is Ok && c2.pin is Ok && c2.touch is Ok && c2.sign is Ok,
    ensures
        session(aid, c1)[0] == ActionView::VerifyPin,
        session(aid, c2)[0] == ActionView::VerifyPin,
        session(aid, c1)[session(aid, c1).len() - 2] == ActionView::Sign,
        session(aid, c2)[session(aid, c2).len() - 2] == ActionView::Sign,
        session(aid, c1).last() == ActionView::Finish(Ok(c1.sign->Ok_0@)),
        session(aid, c2).last() == ActionView::Finish(Ok(c2.sign->Ok_0@)),
{
    if c1.touch == Ok::<Option<bool>, CardFault>(Some(true)) {
        lemma_touch_notified_once(aid, c1);
    } else {
        lemma_no_touch_no_notice(aid, c1);
    }
    if c2.touch == Ok::<Option<bool>, CardFault>(Some(true)) {
        lemma_touch_notified_once(aid, c2);
    } else {
        lemma_no_touch_no_notice(aid, c2);
    }
}

} // verus!
