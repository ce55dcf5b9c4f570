//! Logging in, and keeping in sync with the server.
use vstd::pervasive::unreached;
use vstd::prelude::*;

use crate::base::{
    reported, ClientError, EditInfo, IambError, IambResult, InfoMessage, LoginStyle, Session,
    UIError, UserId,
};
use crate::client::{Action, Event, Step};
use crate::text::join;

verus! {

/// What the client calls itself.
pub const IAMB_DEVICE_NAME: &'static str = "iamb";

/// What a device is called, given the name of its host.
pub open spec fn device_name(host: Seq<char>) -> Seq<char> {
    IAMB_DEVICE_NAME@ + " on "@ + host
}

/// Whether asking this machine for the name of its host can come to this name.
pub closed spec fn is_host(host: String) -> bool {
    call_ensures(host_name, (), host)
}

/// Whether a device of this name is called after the host that it is.
pub open spec fn named_after_host(name: String) -> bool {
    exists|host: String| #[trigger] is_host(host) && name@ == device_name(host@)
}

/// Calls `gethostname::gethostname`, and replaces what is not Unicode in its result.
///
/// The name depends on the machine, and the contract claims nothing of it.
#[verifier::external_body]
fn host_name() -> (r: String) {
    gethostname::gethostname().to_string_lossy().into_owned()
}

/// What a device is called, given the name of its host.
pub fn devname(host: &str) -> (r: String)
    ensures
        r@ == device_name(host@),
{
    join(join(IAMB_DEVICE_NAME, " on ").as_str(), host)
}

/// What this device is called when it first logs in.
pub fn initial_devname() -> (r: String)
    ensures
        named_after_host(r),
{
    let host = host_name();
    assert(is_host(host));
    devname(host.as_str())
}

/// Logs in, and starts to sync with the server.
#[derive(Debug, PartialEq, Eq)]
pub enum LoginAndSync {
    /// An earlier session is being resumed.
    Restore,
    /// A new session is being opened.
    Login,
    /// The new session is being written to its file.
    Save,
    /// The task that syncs is being started.
    Spawn,
    /// The first sync is under way.
    SyncOnce,
}

/// A step of logging in.
pub type LoginStep = Step<LoginAndSync, IambResult<EditInfo>>;

/// Starts the task that syncs.
pub open spec fn spawn_sync() -> LoginStep {
    Step::Perform(LoginAndSync::Spawn, Action::StartSync)
}

impl LoginAndSync {
    /// Whether the event answers what the operation last asked for.
    pub open spec fn awaits(self, event: Event) -> bool {
        match self {
            LoginAndSync::Restore => event is Done,
            LoginAndSync::Login => event is Session,
            LoginAndSync::Save => event is Saved,
            LoginAndSync::Spawn => event is SyncStarted,
            LoginAndSync::SyncOnce => event is Done,
        }
    }

    /// How the operation starts, given what the device is called.
    pub open spec fn starts(style: LoginStyle, user_id: UserId, device_name: String) -> LoginStep {
        match style {
            LoginStyle::SessionRestore(session) => Step::Perform(
                LoginAndSync::Restore,
                Action::RestoreLogin(session),
            ),
            LoginStyle::Password(password) => Step::Perform(
                LoginAndSync::Login,
                Action::LoginUsername { user_id, password, device_name },
            ),
        }
    }

    /// Whether the operation starts like this on this device: a device that logs in with a
    /// password is called after its host.
    pub open spec fn starts_here(style: LoginStyle, user_id: UserId, r: LoginStep) -> bool {
        match style {
            LoginStyle::SessionRestore(session) => r == LoginStep::Perform(
                LoginAndSync::Restore,
                Action::RestoreLogin(session),
            ),
            LoginStyle::Password(_) => exists|name: String|
                r == #[trigger] LoginAndSync::starts(style, user_id, name) && named_after_host(
                    name,
                ),
        }
    }

    /// How the operation goes on after an event.
    pub open spec fn next(self, event: Event) -> LoginStep {
        match (self, event) {
            (LoginAndSync::Restore, Event::Done(Ok(_))) => spawn_sync(),
            (LoginAndSync::Restore, Event::Done(Err(error))) => Step::Done(Err(reported(error))),
            (LoginAndSync::Login, Event::Session(Ok(session))) => Step::Perform(
                LoginAndSync::Save,
                Action::SaveSession(session),
            ),
            (LoginAndSync::Login, Event::Session(Err(error))) => Step::Done(Err(reported(error))),
            (LoginAndSync::Save, Event::Saved(Ok(_))) => spawn_sync(),
            (LoginAndSync::Save, Event::Saved(Err(error))) => Step::Done(Err(error)),
            (LoginAndSync::Spawn, Event::SyncStarted(_)) => Step::Perform(
                LoginAndSync::SyncOnce,
                Action::SyncOnce,
            ),
            (LoginAndSync::SyncOnce, Event::Done(Ok(_))) => Step::Done(
                Ok(Some(InfoMessage::LoggedIn)),
            ),
            (LoginAndSync::SyncOnce, Event::Done(Err(error))) => Step::Done(Err(reported(error))),
            _ => arbitrary(),
        }
    }

    /// Starts logging in, given what the device is called.
    pub fn begin(style: LoginStyle, user_id: UserId, device_name: String) -> (r: LoginStep)
        ensures
            r == LoginAndSync::starts(style, user_id, device_name),
    {
        match style {
            LoginStyle::SessionRestore(session) => Step::Perform(
                LoginAndSync::Restore,
                Action::RestoreLogin(session),
            ),
            LoginStyle::Password(password) => Step::Perform(
                LoginAndSync::Login,
                Action::LoginUsername { user_id, password, device_name },
            ),
        }
    }

    /// Starts logging in, from this device.
    pub fn start(style: LoginStyle, user_id: UserId) -> (r: LoginStep)
        ensures
            LoginAndSync::starts_here(style, user_id, r),
    {
        match style {
            LoginStyle::SessionRestore(session) => Step::Perform(
                LoginAndSync::Restore,
                Action::RestoreLogin(session),
            ),
            LoginStyle::Password(_) => LoginAndSync::begin(style, user_id, initial_devname()),
        }
    }

    /// Goes on after an event.
    pub fn step(self, event: Event) -> (r: LoginStep)
        requires
            self.awaits(event),
        ensures
            r == self.next(event),
    {
        match (self, event) {
            (LoginAndSync::Restore, Event::Done(restored)) => match restored {
                Ok(_) => Step::Perform(LoginAndSync::Spawn, Action::StartSync),
                Err(error) => Step::Done(Err(UIError::client(error))),
            },
            (LoginAndSync::Login, Event::Session(opened)) => match opened {
                Ok(session) => Step::Perform(LoginAndSync::Save, Action::SaveSession(session)),
                Err(error) => Step::Done(Err(UIError::client(error))),
            },
            (LoginAndSync::Save, Event::Saved(saved)) => match saved {
                Ok(_) => Step::Perform(LoginAndSync::Spawn, Action::StartSync),
                Err(error) => Step::Done(Err(error)),
            },
            (LoginAndSync::Spawn, Event::SyncStarted(_)) => Step::Perform(
                LoginAndSync::SyncOnce,
                Action::SyncOnce,
            ),
            (LoginAndSync::SyncOnce, Event::Done(synced)) => match synced {
                Ok(_) => Step::Done(Ok(Some(InfoMessage::LoggedIn))),
                Err(error) => Step::Done(Err(UIError::client(error))),
            },
            _ => unreached(),
        }
    }
}

/// What logging in comes to while the client answers, one event after the other.
pub open spec fn drive(step: LoginStep, events: Seq<Event>) -> LoginStep
    decreases events.len(),
{
    match step {
        Step::Perform(op, _) if events.len() > 0 => drive(
            op.next(events.first()),
            events.drop_first(),
        ),
        _ => step,
    }
}

/// The events answer what is asked for, one after the other.
pub open spec fn fits(step: LoginStep, events: Seq<Event>) -> bool
    decreases events.len(),
{
    events.len() == 0 || match step {
        Step::Perform(op, _) => op.awaits(events.first()) && fits(
            op.next(events.first()),
            events.drop_first(),
        ),
        Step::Done(_) => false,
    }
}

/// A login with a password succeeds exactly when the server opens a session, the
/// session is written to its file, the task that syncs is started and the first sync
/// works, in this order.
pub proof fn law_password_login(
    password: String,
    user_id: UserId,
    device_name: String,
    events: Seq<Event>,
)
    requires
        fits(LoginAndSync::starts(LoginStyle::Password(password), user_id, device_name), events),
    ensures
        ({
            let end = drive(
                LoginAndSync::starts(LoginStyle::Password(password), user_id, device_name),
                events,
            );
            (end matches Step::Done(Ok(_))) <==> {
                &&& events.len() == 4
                &&& events[0] matches Event::Session(Ok(_))
                &&& events[1] matches Event::Saved(Ok(_))
                &&& events[2] is SyncStarted
                &&& events[3] matches Event::Done(Ok(_))
            }
        }),
{
    reveal_with_fuel(drive, 6);
    reveal_with_fuel(fits, 6);
}

/// A login that resumes a session succeeds exactly when the client takes the session,
/// the task that syncs is started and the first sync works, in this order; the session
/// is not written again.
pub proof fn law_restored_login(
    session: Session,
    user_id: UserId,
    device_name: String,
    events: Seq<Event>,
)
    requires
        fits(
            LoginAndSync::starts(LoginStyle::SessionRestore(session), user_id, device_name),
            events,
        ),
    ensures
        ({
            let end = drive(
                LoginAndSync::starts(LoginStyle::SessionRestore(session), user_id, device_name),
                events,
            );
            (end matches Step::Done(Ok(_))) <==> {
                &&& events.len() == 3
                &&& events[0] matches Event::Done(Ok(_))
                &&& events[1] is SyncStarted
                &&& events[2] matches Event::Done(Ok(_))
            }
        }),
{
    reveal_with_fuel(drive, 5);
    reveal_with_fuel(fits, 5);
}

/// A login that succeeds tells the user so, and nothing else.
pub proof fn law_login_message(op: LoginAndSync, event: Event, info: EditInfo)
    requires
        op.awaits(event),
        op.next(event) == LoginStep::Done(Ok(info)),
    ensures
        info == Some(InfoMessage::LoggedIn),
{
}

/// The task that syncs is started only once the user is logged in: after a session was
/// resumed, or after a new one was written to its file.
pub proof fn law_sync_follows_login(op: LoginAndSync, event: Event)
    requires
        op.awaits(event),
    ensures
        op.next(event) == spawn_sync() <==> {
            ||| op is Restore && (event matches Event::Done(Ok(_)))
            ||| op is Save && (event matches Event::Saved(Ok(_)))
        },
{
}

/// A password opens a session for this user, under this name for the device; the session that
/// the server opens is the one that is written, with every field as the server gave it.
pub proof fn law_session_saved(
    password: String,
    user_id: UserId,
    device_name: String,
    session: Session,
    error: ClientError,
    unwritten: UIError,
)
    ensures
        LoginAndSync::starts(
            LoginStyle::Password(password),
            user_id,
            device_name,
        ) matches Step::Perform(op, asked) && {
            &&& asked matches Action::LoginUsername {
                user_id: user,
                password: secret,
                device_name: name,
            } && user == user_id && secret == password && name == device_name
            &&& op.next(Event::Session(Err(error))) == LoginStep::Done(
                Err(UIError::Application(IambError::Client(error))),
            )
            &&& op.next(Event::Session(Ok(session))) matches Step::Perform(save, ask) && {
                &&& ask matches Action::SaveSession(saved) && {
                    &&& saved.access_token == session.access_token
                    &&& saved.refresh_token == session.refresh_token
                    &&& saved.user_id == session.user_id
                    &&& saved.device_id == session.device_id
                }
                &&& save.next(Event::Saved(Err(unwritten))) == LoginStep::Done(Err(unwritten))
            }
        },
{
}

/// A session that is resumed is the one that was given, with every field as it was.
pub proof fn law_session_resumed(
    session: Session,
    user_id: UserId,
    device_name: String,
    error: ClientError,
)
    ensures
        LoginAndSync::starts(
            LoginStyle::SessionRestore(session),
            user_id,
            device_name,
        ) matches Step::Perform(op, asked) && {
            &&& asked matches Action::RestoreLogin(resumed) && {
                &&& resumed.access_token == session.access_token
                &&& resumed.refresh_token == session.refresh_token
                &&& resumed.user_id == session.user_id
                &&& resumed.device_id == session.device_id
            }
            &&& op.next(Event::Done(Err(error))) == LoginStep::Done(
                Err(UIError::Application(IambError::Client(error))),
            )
        },
{
}

/// Once the user is logged in, by a password or by an earlier session, the task that syncs is
/// started and then a first sync is made; the user is told that the login has worked, or gets
/// the client's error.
pub proof fn law_login_syncs(
    style: LoginStyle,
    user_id: UserId,
    device_name: String,
    session: Session,
    handle: u64,
    synced: Result<(), ClientError>,
)
    ensures
        LoginAndSync::starts(style, user_id, device_name) matches Step::Perform(op, _) && {
            let logged_in = match style {
                LoginStyle::SessionRestore(_) => op.next(Event::Done(Ok(()))),
                LoginStyle::Password(_) => match op.next(Event::Session(Ok(session))) {
                    Step::Perform(save, _) => save.next(Event::Saved(Ok(()))),
                    Step::Done(r) => Step::Done(r),
                },
            };
            logged_in matches Step::Perform(spawn, ask) && {
                &&& ask == Action::StartSync
                &&& spawn.next(Event::SyncStarted(handle)) matches Step::Perform(sync, last) && {
                    &&& last == Action::SyncOnce
                    &&& synced is Ok ==> sync.next(Event::Done(synced)) == LoginStep::Done(
                        Ok(Some(InfoMessage::LoggedIn)),
                    )
                    &&& synced matches Err(error) ==> sync.next(Event::Done(synced))
                        == LoginStep::Done(Err(UIError::Application(IambError::Client(error))))
                }
            }
        },
{
}

/// A device is called after what the program is called and the host that it is, with ` on `
/// between the two.
pub proof fn law_device_name(host: Seq<char>)
    ensures
        device_name(host) == "iamb"@ + " on "@ + host,
{
}

/// A login from this device uses the password and the user that were given, and names the
/// device after a host that this machine can be; one that resumes a session asks for just that.
pub proof fn law_login_here(style: LoginStyle, user_id: UserId, r: LoginStep)
    requires
        LoginAndSync::starts_here(style, user_id, r),
    ensures
        style matches LoginStyle::Password(password) ==> (r matches Step::Perform(_, asked)
            && asked matches Action::LoginUsername {
            user_id: user,
            password: secret,
            device_name: name,
        } && user == user_id && secret == password && exists|host: String| #[trigger]
            is_host(host) && name@ == "iamb"@ + " on "@ + host@),
        style matches LoginStyle::SessionRestore(session) ==> (r matches Step::Perform(_, asked)
            && asked == Action::RestoreLogin(session)),
{
}

} // verus!
