//! Telling rooms and users apart by what the user typed.
use std::str::FromStr;

use vstd::prelude::*;

verus! {

/// Whether the text is a well-formed room identifier or room alias.
pub uninterp spec fn room_or_alias_id(text: Seq<char>) -> bool;

/// Whether the text is a well-formed user identifier.
pub uninterp spec fn user_id(text: Seq<char>) -> bool;

/// The text starts with the character.
pub open spec fn starts_with(text: Seq<char>, c: char) -> bool {
    text.len() > 0 && text[0] == c
}

/// Calls `OwnedRoomOrAliasId::from_str`.
///
/// The contract claims that whether the text is accepted depends on its
/// characters alone, and that only a text that starts with `#` or `!` and has a colon in
/// it is. The rest of the grammar is left unsaid.
#[verifier::external_body]
pub(crate) fn is_room_or_alias_id(text: &str) -> (r: bool)
    ensures
        r == room_or_alias_id(text@),
        r ==> starts_with(text@, '#') || starts_with(text@, '!'),
        r ==> text@.contains(':'),
{
    matrix_sdk::ruma::OwnedRoomOrAliasId::from_str(text).is_ok()
}

/// Calls `OwnedUserId::try_from`.
///
/// The contract claims that whether the text is accepted depends on its
/// characters alone, and that only a text that starts with `@` and has a colon in it is.
/// The rest of the grammar is left unsaid.
#[verifier::external_body]
pub(crate) fn is_user_id(text: &str) -> (r: bool)
    ensures
        r == user_id(text@),
        r ==> starts_with(text@, '@'),
        r ==> text@.contains(':'),
{
    matrix_sdk::ruma::OwnedUserId::try_from(text).is_ok()
}

/// What a name that the user typed stands for.
#[derive(Clone, Copy, Debug, PartialEq, Eq, Structural)]
pub enum NameKind {
    /// A room, by its identifier or an alias.
    RoomOrAlias,
    /// A user.
    User,
    /// Neither.
    Invalid,
}

/// What a text stands for, given what it could be read as.
pub open spec fn name_kind(room: bool, user: bool) -> NameKind {
    if room {
        NameKind::RoomOrAlias
    } else if user {
        NameKind::User
    } else {
        NameKind::Invalid
    }
}

/// Tells what a name stands for: a room if it can be read as one, else a user.
/// Rooms start with `#` or `!` and users with `@`, so that no text is both.
pub fn classify_name(name: &str) -> (r: NameKind)
    ensures
        r == name_kind(room_or_alias_id(name@), user_id(name@)),
        r is RoomOrAlias ==> starts_with(name@, '#') || starts_with(name@, '!'),
        r is User ==> starts_with(name@, '@'),
        !(r is Invalid) ==> name@.contains(':'),
{
    if is_room_or_alias_id(name) {
        NameKind::RoomOrAlias
    } else if is_user_id(name) {
        NameKind::User
    } else {
        NameKind::Invalid
    }
}

/// A text that can be read as a room is one, whatever else it could be read as; otherwise it
/// is a user if it can be read as one; otherwise it is neither.
pub proof fn law_rooms_before_users(user: bool)
    ensures
        name_kind(true, user) is RoomOrAlias,
        name_kind(false, true) is User,
        name_kind(false, false) is Invalid,
{
}

} // verus!
