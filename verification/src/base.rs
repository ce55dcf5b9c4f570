//! The values that requests, replies and errors are made of.
use vstd::prelude::*;

use crate::text::{join, quote};

verus! {

/// The text of a room identifier.
pub type RoomId = String;

/// The text of a user identifier.
pub type UserId = String;

/// The text of an event identifier.
pub type EventId = String;

/// The account that the client works for.
#[derive(Debug, PartialEq, Eq)]
pub struct Profile {
    /// The account's user.
    pub user_id: UserId,
    /// The address of the account's homeserver.
    pub url: String,
}

/// What the user has configured.
#[derive(Debug, PartialEq, Eq)]
pub struct ApplicationSettings {
    /// The selected account.
    pub profile: Profile,
    /// The directory of the client's own state.
    pub matrix_dir: String,
    /// The file that keeps the session between runs.
    pub session_json: String,
}

/// What it takes to resume an earlier login.
#[derive(Debug, PartialEq, Eq)]
pub struct Session {
    /// The token that authenticates requests.
    pub access_token: String,
    /// The token that renews the access token.
    pub refresh_token: Option<String>,
    /// The user that is logged in.
    pub user_id: UserId,
    /// The device that is logged in.
    pub device_id: String,
}

/// How to log in.
#[derive(Debug, PartialEq, Eq)]
pub enum LoginStyle {
    /// Resume an earlier session.
    SessionRestore(Session),
    /// Open a new session with the account's password.
    Password(String),
}

/// A room, as far as the worker looks at it.
#[derive(Debug, PartialEq, Eq)]
pub struct Room {
    /// The room's identifier.
    pub room_id: RoomId,
    /// Whether the room is a space.
    pub is_space: bool,
    /// Whether the room is a direct chat.
    pub is_direct: bool,
}

impl Clone for Room {
    fn clone(&self) -> (r: Room)
        ensures
            r == *self,
    {
        Room {
            room_id: self.room_id.clone(),
            is_space: self.is_space,
            is_direct: self.is_direct,
        }
    }
}

/// The name that a room is shown under.
#[derive(Debug, PartialEq, Eq)]
pub enum DisplayName {
    /// The room has this name.
    Named(String),
    /// The room has no name, but this alias.
    Aliased(String),
    /// A name made of the members' names.
    Calculated(String),
    /// The room is empty; it would have had this name.
    EmptyWas(String),
    /// The room is empty.
    Empty,
}

impl Clone for DisplayName {
    fn clone(&self) -> (r: DisplayName)
        ensures
            r == *self,
    {
        match self {
            DisplayName::Named(s) => DisplayName::Named(s.clone()),
            DisplayName::Aliased(s) => DisplayName::Aliased(s.clone()),
            DisplayName::Calculated(s) => DisplayName::Calculated(s.clone()),
            DisplayName::EmptyWas(s) => DisplayName::EmptyWas(s.clone()),
            DisplayName::Empty => DisplayName::Empty,
        }
    }
}

/// The text that a display name is shown as.
pub open spec fn display_name_text(name: DisplayName) -> Seq<char> {
    match name {
        DisplayName::Named(s) => s@,
        DisplayName::Aliased(s) => s@,
        DisplayName::Calculated(s) => s@,
        DisplayName::EmptyWas(s) => "Empty Room (was "@ + s@ + ")"@,
        DisplayName::Empty => "Empty Room"@,
    }
}

/// Calls `to_string` on `matrix_sdk::DisplayName`, that is, its `Display` impl.
///
/// The contract claims that a name, an alias and a calculated name are shown as
/// they are, and that an empty room is shown as `Empty Room`, with the name that
/// it had in brackets if it had one.
#[verifier::external_body]
pub(crate) fn render_display_name(name: DisplayName) -> (r: String)
    ensures
        r@ == display_name_text(name),
{
    let name = match name {
        DisplayName::Named(s) => matrix_sdk::DisplayName::Named(s),
        DisplayName::Aliased(s) => matrix_sdk::DisplayName::Aliased(s),
        DisplayName::Calculated(s) => matrix_sdk::DisplayName::Calculated(s),
        DisplayName::EmptyWas(s) => matrix_sdk::DisplayName::EmptyWas(s),
        DisplayName::Empty => matrix_sdk::DisplayName::Empty,
    };
    name.to_string()
}

/// An event that says how a user belongs to a room.
#[derive(Debug, PartialEq, Eq)]
pub struct MemberEvent {
    /// The event's identifier, if the server has told it.
    pub event_id: Option<EventId>,
    /// Who sent it.
    pub sender: UserId,
    /// When it was sent, in milliseconds since 1970, if the server has told it.
    pub origin_server_ts: Option<u64>,
    /// The JSON text of what it holds, unless it was taken back.
    pub content: Option<String>,
}

/// A member of a room.
#[derive(Debug, PartialEq, Eq)]
pub struct RoomMember {
    /// The member's user.
    pub user_id: UserId,
    /// The name that the member goes by in the room.
    pub display_name: Option<String>,
    /// Where the member's picture is kept.
    pub avatar_url: Option<String>,
    /// The display name, or else the first part of the user's identifier.
    pub name: String,
    /// Whether another member of the room goes by the same name.
    pub name_ambiguous: bool,
    /// The member's power level.
    pub power_level: i64,
    /// The member's power level in percent of the highest one in the room.
    pub normalized_power_level: i64,
    /// How the member belongs to the room.
    pub membership: String,
    /// The event that says so.
    pub event: MemberEvent,
}

/// A room of a space, as the server lists it.
#[derive(Debug, PartialEq, Eq)]
pub struct SpaceChild {
    /// The room's identifier.
    pub room_id: RoomId,
    /// The room's name.
    pub name: Option<String>,
}

/// A field of a room that can be set.
#[derive(Debug, PartialEq, Eq)]
pub enum SetRoomField {
    /// The room's name.
    Name(String),
    /// The room's topic.
    Topic(String),
}

/// What to do with a verification.
#[derive(Clone, Copy, Debug, PartialEq, Eq, Structural)]
pub enum VerifyAction {
    /// Accept the request.
    Accept,
    /// Confirm that both sides show the same.
    Confirm,
    /// Give up.
    Cancel,
    /// Report that the two sides show different things.
    Mismatch,
}

/// A plain text message.
#[derive(Debug, PartialEq, Eq)]
pub struct TextMessage {
    /// The text.
    pub body: String,
}

/// A message that was sent, with the event that it became.
pub type EchoPair = (EventId, TextMessage);

/// Which part of the client an error comes from.
#[derive(Clone, Copy, Debug, PartialEq, Eq, Structural)]
pub enum ErrorKind {
    /// The client as a whole.
    Matrix,
    /// The connection to the server, or the server's answer.
    Http,
    /// The client's own state.
    Store,
    /// The keys that the client keeps.
    CryptoStore,
    /// Writing or reading a serialized value.
    Serde,
    /// A request for verification.
    VerificationRequest,
}

/// An error of the client.
#[derive(Debug, PartialEq, Eq)]
pub struct ClientError {
    /// Where it comes from.
    pub kind: ErrorKind,
    /// What it says.
    pub message: String,
}

/// An error of the application.
#[derive(Debug, PartialEq, Eq)]
pub enum IambError {
    /// No room with this identifier is known.
    UnknownRoom(RoomId),
    /// The client failed.
    Client(ClientError),
}

/// Why a request was not carried out.
#[derive(Debug, PartialEq, Eq)]
pub enum Failure {
    /// No direct chat with the user could be opened.
    DirectRoom(UserId),
    /// The server refused to let the user join, for this reason.
    Join(String),
    /// The text names neither a room nor a user.
    InvalidName(String),
    /// The verification to confirm is over.
    NotConfirmable,
    /// The verification to cancel is over.
    NotCancellable,
    /// Nothing is known of the user's identity.
    NoIdentity(UserId),
}

/// An error that is reported to the user.
#[derive(Debug, PartialEq, Eq)]
pub enum UIError {
    /// The request was not carried out.
    Failure(Failure),
    /// The application failed.
    Application(IambError),
    /// A file could not be written.
    IOError(String),
}

/// What a request comes to.
pub type IambResult<T> = Result<T, UIError>;

/// A page of a room's history: where the next page starts, and its messages, each
/// as the JSON text of its event.
pub type MessageFetchResult = IambResult<(Option<String>, Vec<String>)>;

/// What a successful request tells the user.
#[derive(Debug, PartialEq, Eq)]
pub enum InfoMessage {
    /// The login succeeded.
    LoggedIn,
    /// The verification was accepted.
    Accepted,
    /// The verification was confirmed.
    Confirmed,
    /// The verification was cancelled.
    Cancelled,
    /// A verification was requested of the user.
    RequestSent(UserId),
}

/// An optional message to the user.
pub type EditInfo = Option<InfoMessage>;

/// The text of an invalid-name failure, given the quoted name.
pub open spec fn invalid_name_text(quoted: Seq<char>) -> Seq<char> {
    quoted + " is not a valid room or user name"@
}

/// The text that a failure is shown as.
pub open spec fn failure_text(failure: Failure) -> Seq<char> {
    match failure {
        Failure::DirectRoom(user) => "Could not open a room with "@ + user@,
        Failure::Join(reason) => reason@,
        Failure::InvalidName(name) => invalid_name_text(quoted_text_of(name)),
        Failure::NotConfirmable => "Can only confirm in-progress verifications!"@,
        Failure::NotCancellable => "Can only cancel in-progress verifications!"@,
        Failure::NoIdentity(user) => "Could not find identity information for "@ + user@,
    }
}

/// A name between double quotes.
pub open spec fn quoted_text_of(name: String) -> Seq<char> {
    crate::text::quoted_text(name@)
}

/// The text that a message to the user is shown as.
pub open spec fn info_text(info: InfoMessage) -> Seq<char> {
    match info {
        InfoMessage::LoggedIn => "Successfully logged in!"@,
        InfoMessage::Accepted => "Accepted verification request"@,
        InfoMessage::Confirmed => "Confirmed verification"@,
        InfoMessage::Cancelled => "Cancelled verification"@,
        InfoMessage::RequestSent(user) => "Sent verification request to "@ + user@,
    }
}

/// Says of a quoted name that it names neither a room nor a user.
pub fn invalid_name_message(quoted: &str) -> (r: String)
    ensures
        r@ == invalid_name_text(quoted@),
{
    join(quoted, " is not a valid room or user name")
}

impl Failure {
    /// The text that the failure is shown as.
    pub fn message(&self) -> (r: String)
        ensures
            r@ == failure_text(*self),
    {
        match self {
            Failure::DirectRoom(user) => join("Could not open a room with ", user.as_str()),
            Failure::Join(reason) => reason.clone(),
            Failure::InvalidName(name) => invalid_name_message(quote(name.as_str()).as_str()),
            Failure::NotConfirmable => "Can only confirm in-progress verifications!".to_owned(),
            Failure::NotCancellable => "Can only cancel in-progress verifications!".to_owned(),
            Failure::NoIdentity(user) => join(
                "Could not find identity information for ",
                user.as_str(),
            ),
        }
    }
}

impl InfoMessage {
    /// The text that the message is shown as.
    pub fn message(&self) -> (r: String)
        ensures
            r@ == info_text(*self),
    {
        match self {
            InfoMessage::LoggedIn => "Successfully logged in!".to_owned(),
            InfoMessage::Accepted => "Accepted verification request".to_owned(),
            InfoMessage::Confirmed => "Confirmed verification".to_owned(),
            InfoMessage::Cancelled => "Cancelled verification".to_owned(),
            InfoMessage::RequestSent(user) => join("Sent verification request to ", user.as_str()),
        }
    }
}

/// A client error, as it is reported to the user.
pub open spec fn reported(error: ClientError) -> UIError {
    UIError::Application(IambError::Client(error))
}

/// That a room is not known, as it is reported to the user.
pub open spec fn unknown_room(room_id: RoomId) -> UIError {
    UIError::Application(IambError::UnknownRoom(room_id))
}

impl UIError {
    /// Reports an error of the client.
    pub fn client(error: ClientError) -> (r: UIError)
        ensures
            r == reported(error),
    {
        UIError::Application(IambError::Client(error))
    }

    /// Reports that a room is not known.
    pub fn unknown_room(room_id: RoomId) -> (r: UIError)
        ensures
            r == unknown_room(room_id),
    {
        UIError::Application(IambError::UnknownRoom(room_id))
    }
}

/// A failure is shown in these words, with the user, the reason or the quoted name in its
/// place.
pub proof fn law_failure_texts(user: UserId, reason: String, name: String)
    ensures
        failure_text(Failure::DirectRoom(user)) == "Could not open a room with "@ + user@,
        failure_text(Failure::Join(reason)) == reason@,
        failure_text(Failure::InvalidName(name)) == crate::text::quoted_text(name@)
            + " is not a valid room or user name"@,
        failure_text(Failure::NotConfirmable) == "Can only confirm in-progress verifications!"@,
        failure_text(Failure::NotCancellable) == "Can only cancel in-progress verifications!"@,
        failure_text(Failure::NoIdentity(user)) == "Could not find identity information for "@
            + user@,
{
}

/// A message to the user is shown in these words, with the user that it speaks of in its
/// place.
pub proof fn law_info_texts(user: UserId)
    ensures
        info_text(InfoMessage::LoggedIn) == "Successfully logged in!"@,
        info_text(InfoMessage::Accepted) == "Accepted verification request"@,
        info_text(InfoMessage::Confirmed) == "Confirmed verification"@,
        info_text(InfoMessage::Cancelled) == "Cancelled verification"@,
        info_text(InfoMessage::RequestSent(user)) == "Sent verification request to "@ + user@,
{
}

/// What is said of a name that is neither a room nor a user starts with the quoted name.
pub proof fn law_invalid_name_text(quoted: Seq<char>)
    ensures
        invalid_name_text(quoted) == quoted + " is not a valid room or user name"@,
{
}

/// A room with a name, an alias or a calculated name is shown under just that, whichever of
/// the three it is; an empty room is shown as one, with the name that it had, if any.
pub proof fn law_display_names(name: String)
    ensures
        display_name_text(DisplayName::Named(name)) == name@,
        display_name_text(DisplayName::Aliased(name)) == name@,
        display_name_text(DisplayName::Calculated(name)) == name@,
        display_name_text(DisplayName::EmptyWas(name)) == "Empty Room (was "@ + name@ + ")"@,
        display_name_text(DisplayName::Empty) == "Empty Room"@,
{
}

/// An error of the client reaches the user as it is, with its kind and its message, and a room
/// that is not known with its identifier.
pub proof fn law_errors_kept(error: ClientError, room_id: RoomId)
    ensures
        reported(error) == UIError::Application(IambError::Client(error)),
        unknown_room(room_id) == UIError::Application(IambError::UnknownRoom(room_id)),
{
}

} // verus!
