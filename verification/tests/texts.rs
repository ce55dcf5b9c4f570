//! The texts that the user sees, and the names that the user types.
use iamb_worker::base::{invalid_name_message, Failure, InfoMessage};
use iamb_worker::ident::{classify_name, NameKind};
use iamb_worker::ops::login::{devname, initial_devname, IAMB_DEVICE_NAME};
use iamb_worker::text::join;

#[test]
fn texts_are_joined() {
    assert_eq!(join("ab", "cd"), "abcd");
    assert_eq!(join("", ""), "");
    assert_eq!(join("\u{e4}", "\u{1f600}"), "\u{e4}\u{1f600}");
}

#[test]
fn failures_have_their_texts() {
    let user = "@alice:example.org".to_string();
    assert_eq!(
        Failure::DirectRoom(user.clone()).message(),
        "Could not open a room with @alice:example.org"
    );
    assert_eq!(Failure::Join("the server said no".to_string()).message(), "the server said no");
    assert_eq!(
        Failure::NotConfirmable.message(),
        "Can only confirm in-progress verifications!"
    );
    assert_eq!(
        Failure::NotCancellable.message(),
        "Can only cancel in-progress verifications!"
    );
    assert_eq!(
        Failure::NoIdentity(user).message(),
        "Could not find identity information for @alice:example.org"
    );
}

#[test]
fn invalid_names_are_quoted() {
    assert_eq!(
        Failure::InvalidName("hello".to_string()).message(),
        "\"hello\" is not a valid room or user name"
    );
    assert_eq!(
        Failure::InvalidName("a\"b\n".to_string()).message(),
        "\"a\\\"b\\n\" is not a valid room or user name"
    );
    assert_eq!(
        Failure::InvalidName(String::new()).message(),
        "\"\" is not a valid room or user name"
    );
    assert_eq!(invalid_name_message("<x>"), "<x> is not a valid room or user name");
}

#[test]
fn messages_have_their_texts() {
    assert_eq!(InfoMessage::LoggedIn.message(), "Successfully logged in!");
    assert_eq!(InfoMessage::Accepted.message(), "Accepted verification request");
    assert_eq!(InfoMessage::Confirmed.message(), "Confirmed verification");
    assert_eq!(InfoMessage::Cancelled.message(), "Cancelled verification");
    assert_eq!(
        InfoMessage::RequestSent("@bob:example.org".to_string()).message(),
        "Sent verification request to @bob:example.org"
    );
}

#[test]
fn rooms_are_told_from_users() {
    assert_eq!(classify_name("#room:example.org"), NameKind::RoomOrAlias);
    assert_eq!(classify_name("!abc:example.org"), NameKind::RoomOrAlias);
    assert_eq!(classify_name("@alice:example.org"), NameKind::User);
}

#[test]
fn other_names_are_neither() {
    assert_eq!(classify_name(""), NameKind::Invalid);
    assert_eq!(classify_name("alice"), NameKind::Invalid);
    assert_eq!(classify_name("#"), NameKind::Invalid);
    assert_eq!(classify_name("@alice"), NameKind::Invalid);
    assert_eq!(classify_name("alice:example.org"), NameKind::Invalid);
}

#[test]
fn devices_are_called_after_their_host() {
    assert_eq!(IAMB_DEVICE_NAME, "iamb");
    assert_eq!(devname("box"), "iamb on box");
    assert_eq!(devname(""), "iamb on ");
    let here = initial_devname();
    assert!(here.starts_with("iamb on "));
    assert_eq!(here, devname(&gethostname::gethostname().to_string_lossy()));
}
