//! Verifying other users and devices.
use vstd::pervasive::unreached;
use vstd::prelude::*;

use crate::base::{
    reported, ClientError, EditInfo, Failure, IambError, IambResult, InfoMessage, UIError, UserId,
    VerifyAction,
};
use crate::client::{Action, Event, Step, VerificationMethod};

verus! {

/// Moves a verification on.
#[derive(Debug, PartialEq, Eq)]
pub enum Verify {
    /// The verification is being asked how far it has come.
    Status(VerifyAction, String),
    /// The verification is being moved on.
    Act(VerifyAction),
}

/// A step that ends in a message to the user.
pub type VerifyStep = Step<Verify, IambResult<EditInfo>>;

/// What the client is to do with a verification.
pub open spec fn sas_action(action: VerifyAction, sas: String) -> Action {
    match action {
        VerifyAction::Accept => Action::SasAccept(sas),
        VerifyAction::Confirm => Action::SasConfirm(sas),
        VerifyAction::Cancel => Action::SasCancel(sas),
        VerifyAction::Mismatch => Action::SasMismatch(sas),
    }
}

/// What is said of a verification that is over, and so cannot be moved on. One that
/// is to be accepted is not asked whether it is over.
pub open spec fn over(action: VerifyAction) -> Failure {
    match action {
        VerifyAction::Confirm => Failure::NotConfirmable,
        _ => Failure::NotCancellable,
    }
}

/// What the user is told when the verification was moved on.
pub open spec fn moved_on(action: VerifyAction) -> InfoMessage {
    match action {
        VerifyAction::Accept => InfoMessage::Accepted,
        VerifyAction::Confirm => InfoMessage::Confirmed,
        VerifyAction::Cancel => InfoMessage::Cancelled,
        VerifyAction::Mismatch => InfoMessage::Cancelled,
    }
}

fn make_sas_action(action: VerifyAction, sas: String) -> (r: Action)
    ensures
        r == sas_action(action, sas),
{
    match action {
        VerifyAction::Accept => Action::SasAccept(sas),
        VerifyAction::Confirm => Action::SasConfirm(sas),
        VerifyAction::Cancel => Action::SasCancel(sas),
        VerifyAction::Mismatch => Action::SasMismatch(sas),
    }
}

impl Verify {
    /// Whether the event answers what the operation last asked for.
    pub open spec fn awaits(self, event: Event) -> bool {
        match self {
            Verify::Status(_, _) => event is Sas,
            Verify::Act(_) => event is Done,
        }
    }

    /// How the operation starts: all but accepting asks first whether the verification
    /// is over.
    pub open spec fn starts(action: VerifyAction, sas: String) -> VerifyStep {
        if action is Accept {
            Step::Perform(Verify::Act(action), sas_action(action, sas))
        } else {
            Step::Perform(Verify::Status(action, sas), Action::SasStatus(sas))
        }
    }

    /// How the operation goes on after an event.
    pub open spec fn next(self, event: Event) -> VerifyStep {
        match (self, event) {
            (Verify::Status(action, sas), Event::Sas { is_done, is_cancelled }) => if is_done
                || is_cancelled {
                Step::Done(Err(UIError::Failure(over(action))))
            } else {
                Step::Perform(Verify::Act(action), sas_action(action, sas))
            },
            (Verify::Act(action), Event::Done(Ok(_))) => Step::Done(Ok(Some(moved_on(action)))),
            (Verify::Act(_), Event::Done(Err(error))) => Step::Done(Err(reported(error))),
            _ => arbitrary(),
        }
    }

    /// Starts moving a verification on.
    pub fn start(action: VerifyAction, sas: String) -> (r: VerifyStep)
        ensures
            r == Verify::starts(action, sas),
    {
        match action {
            VerifyAction::Accept => Step::Perform(
                Verify::Act(action),
                make_sas_action(action, sas),
            ),
            _ => {
                let asked = Action::SasStatus(sas.clone());
                Step::Perform(Verify::Status(action, sas), asked)
            },
        }
    }

    /// Goes on after an event.
    pub fn step(self, event: Event) -> (r: VerifyStep)
        requires
            self.awaits(event),
        ensures
            r == self.next(event),
    {
        match (self, event) {
            (Verify::Status(action, sas), Event::Sas { is_done, is_cancelled }) => {
                if is_done || is_cancelled {
                    let failure = match action {
                        VerifyAction::Confirm => Failure::NotConfirmable,
                        _ => Failure::NotCancellable,
                    };
                    Step::Done(Err(UIError::Failure(failure)))
                } else {
                    Step::Perform(Verify::Act(action), make_sas_action(action, sas))
                }
            },
            (Verify::Act(action), Event::Done(done)) => match done {
                Ok(_) => {
                    let info = match action {
                        VerifyAction::Accept => InfoMessage::Accepted,
                        VerifyAction::Confirm => InfoMessage::Confirmed,
                        VerifyAction::Cancel => InfoMessage::Cancelled,
                        VerifyAction::Mismatch => InfoMessage::Cancelled,
                    };
                    Step::Done(Ok(Some(info)))
                },
                Err(error) => Step::Done(Err(UIError::client(error))),
            },
            _ => unreached(),
        }
    }
}

/// Requests a verification of a user.
#[derive(Debug, PartialEq, Eq)]
pub enum VerifyRequest {
    /// The user's identity is being looked up.
    Identity(UserId),
    /// The verification is being requested.
    Request(UserId),
}

/// A step of requesting a verification.
pub type RequestStep = Step<VerifyRequest, IambResult<EditInfo>>;

impl VerifyRequest {
    /// Whether the event answers what the operation last asked for.
    pub open spec fn awaits(self, event: Event) -> bool {
        match self {
            VerifyRequest::Identity(_) => event is Identity,
            VerifyRequest::Request(_) => event is Done,
        }
    }

    /// How the operation starts.
    pub open spec fn starts(user_id: UserId) -> RequestStep {
        Step::Perform(VerifyRequest::Identity(user_id), Action::GetUserIdentity(user_id))
    }

    /// How the operation goes on after an event.
    pub open spec fn next(self, event: Event) -> RequestStep {
        match (self, event) {
            (VerifyRequest::Identity(user_id), Event::Identity(Ok(known))) => if known {
                Step::Perform(
                    VerifyRequest::Request(user_id),
                    Action::RequestVerification(user_id, VerificationMethod::SasV1),
                )
            } else {
                Step::Done(Err(UIError::Failure(Failure::NoIdentity(user_id))))
            },
            (VerifyRequest::Identity(_), Event::Identity(Err(error))) => Step::Done(
                Err(reported(error)),
            ),
            (VerifyRequest::Request(user_id), Event::Done(Ok(_))) => Step::Done(
                Ok(Some(InfoMessage::RequestSent(user_id))),
            ),
            (VerifyRequest::Request(_), Event::Done(Err(error))) => Step::Done(
                Err(reported(error)),
            ),
            _ => arbitrary(),
        }
    }

    /// Starts requesting a verification.
    pub fn start(user_id: UserId) -> (r: RequestStep)
        ensures
            r == VerifyRequest::starts(user_id),
    {
        let action = Action::GetUserIdentity(user_id.clone());
        Step::Perform(VerifyRequest::Identity(user_id), action)
    }

    /// Goes on after an event.
    pub fn step(self, event: Event) -> (r: RequestStep)
        requires
            self.awaits(event),
        ensures
            r == self.next(event),
    {
        match (self, event) {
            (VerifyRequest::Identity(user_id), Event::Identity(known)) => match known {
                Ok(true) => {
                    let action = Action::RequestVerification(
                        user_id.clone(),
                        VerificationMethod::SasV1,
                    );
                    Step::Perform(VerifyRequest::Request(user_id), action)
                },
                Ok(false) => Step::Done(Err(UIError::Failure(Failure::NoIdentity(user_id)))),
                Err(error) => Step::Done(Err(UIError::client(error))),
            },
            (VerifyRequest::Request(user_id), Event::Done(done)) => match done {
                Ok(_) => Step::Done(Ok(Some(InfoMessage::RequestSent(user_id)))),
                Err(error) => Step::Done(Err(UIError::client(error))),
            },
            _ => unreached(),
        }
    }
}

/// A verification that is done or cancelled is neither confirmed nor cancelled nor
/// reported as a mismatch: the client is only asked how far it has come, and the user
/// is told that it is over.
pub proof fn law_finished_verification_untouched(
    action: VerifyAction,
    sas: String,
    is_done: bool,
    is_cancelled: bool,
)
    requires
        !(action is Accept),
        is_done || is_cancelled,
    ensures
        Verify::starts(action, sas) == VerifyStep::Perform(
            Verify::Status(action, sas),
            Action::SasStatus(sas),
        ),
        Verify::Status(action, sas).next(Event::Sas { is_done, is_cancelled }) == VerifyStep::Done(
            Err(UIError::Failure(over(action))),
        ),
{
}

/// A verification that is under way is moved on as was asked, and the user is told.
pub proof fn law_open_verification_moved_on(action: VerifyAction, sas: String)
    requires
        !(action is Accept),
    ensures
        Verify::starts(action, sas) == VerifyStep::Perform(
            Verify::Status(action, sas),
            Action::SasStatus(sas),
        ),
        Verify::Status(action, sas).next(Event::Sas { is_done: false, is_cancelled: false })
            == VerifyStep::Perform(Verify::Act(action), sas_action(action, sas)),
        Verify::Act(action).next(Event::Done(Ok(()))) == VerifyStep::Done(
            Ok(Some(moved_on(action))),
        ),
{
}

/// A verification is requested of a user exactly when the client knows the user's
/// identity; otherwise the failure names the user.
pub proof fn law_request_needs_identity(user_id: UserId, known: bool)
    ensures
        ({
            let asked = VerifyRequest::Identity(user_id).next(Event::Identity(Ok(known)));
            &&& known <==> asked == RequestStep::Perform(
                VerifyRequest::Request(user_id),
                Action::RequestVerification(user_id, VerificationMethod::SasV1),
            )
            &&& !known <==> asked == RequestStep::Done(
                Err(UIError::Failure(Failure::NoIdentity(user_id))),
            )
        }),
{
}

/// A verification is accepted without a look at how far it has come; the user is told, or gets
/// the client's error.
pub proof fn law_verification_accepted(sas: String, done: Result<(), ClientError>)
    ensures
        Verify::starts(VerifyAction::Accept, sas) matches Step::Perform(op, asked) && {
            &&& asked == Action::SasAccept(sas)
            &&& done is Ok ==> op.next(Event::Done(done)) == VerifyStep::Done(
                Ok(Some(InfoMessage::Accepted)),
            )
            &&& done matches Err(error) ==> op.next(Event::Done(done)) == VerifyStep::Done(
                Err(UIError::Application(IambError::Client(error))),
            )
        },
{
}

/// A verification is confirmed exactly if it is neither done nor cancelled; the user is told
/// which of the two it came to, or gets the client's error.
pub proof fn law_verification_confirmed(
    sas: String,
    is_done: bool,
    is_cancelled: bool,
    done: Result<(), ClientError>,
)
    ensures
        Verify::starts(VerifyAction::Confirm, sas) matches Step::Perform(op, asked) && {
            let answered = op.next(Event::Sas { is_done, is_cancelled });
            &&& asked == Action::SasStatus(sas)
            &&& is_done || is_cancelled ==> answered == VerifyStep::Done(
                Err(UIError::Failure(Failure::NotConfirmable)),
            )
            &&& !is_done && !is_cancelled ==> (answered matches Step::Perform(act, ask) && {
                &&& ask == Action::SasConfirm(sas)
                &&& done is Ok ==> act.next(Event::Done(done)) == VerifyStep::Done(
                    Ok(Some(InfoMessage::Confirmed)),
                )
                &&& done matches Err(error) ==> act.next(Event::Done(done)) == VerifyStep::Done(
                    Err(UIError::Application(IambError::Client(error))),
                )
            })
        },
{
}

/// A verification is cancelled, or reported as a mismatch, exactly if it is neither done nor
/// cancelled; either way the user is told that it was cancelled, or that it cannot be, or gets
/// the client's error.
pub proof fn law_verification_cancelled(
    sas: String,
    is_done: bool,
    is_cancelled: bool,
    mismatch: bool,
    done: Result<(), ClientError>,
)
    ensures
        ({
            let action = if mismatch {
                VerifyAction::Mismatch
            } else {
                VerifyAction::Cancel
            };
            Verify::starts(action, sas) matches Step::Perform(op, asked) && {
                let answered = op.next(Event::Sas { is_done, is_cancelled });
                &&& asked == Action::SasStatus(sas)
                &&& is_done || is_cancelled ==> answered == VerifyStep::Done(
                    Err(UIError::Failure(Failure::NotCancellable)),
                )
                &&& !is_done && !is_cancelled ==> (answered matches Step::Perform(act, ask) && {
                    &&& mismatch ==> ask == Action::SasMismatch(sas)
                    &&& !mismatch ==> ask == Action::SasCancel(sas)
                    &&& done is Ok ==> act.next(Event::Done(done)) == VerifyStep::Done(
                        Ok(Some(InfoMessage::Cancelled)),
                    )
                    &&& done matches Err(error) ==> act.next(Event::Done(done))
                        == VerifyStep::Done(Err(UIError::Application(IambError::Client(error))))
                })
            }
        }),
{
}

/// A verification is requested of the user that was named, by short authentication strings,
/// exactly if the client knows the user's identity; what the user is told names the same user,
/// and what goes wrong is reported with the client's error.
pub proof fn law_verification_requested(
    user_id: UserId,
    done: Result<(), ClientError>,
    error: ClientError,
)
    ensures
        VerifyRequest::starts(user_id) matches Step::Perform(op, asked) && {
            &&& asked == Action::GetUserIdentity(user_id)
            &&& op.next(Event::Identity(Err(error))) == RequestStep::Done(
                Err(UIError::Application(IambError::Client(error))),
            )
            &&& op.next(Event::Identity(Ok(false))) == RequestStep::Done(
                Err(UIError::Failure(Failure::NoIdentity(user_id))),
            )
            &&& op.next(Event::Identity(Ok(true))) matches Step::Perform(request, ask) && {
                &&& ask == Action::RequestVerification(user_id, VerificationMethod::SasV1)
                &&& done is Ok ==> request.next(Event::Done(done)) == RequestStep::Done(
                    Ok(Some(InfoMessage::RequestSent(user_id))),
                )
                &&& done matches Err(failure) ==> request.next(Event::Done(done))
                    == RequestStep::Done(Err(UIError::Application(IambError::Client(failure))))
            }
        },
{
}

} // verus!
