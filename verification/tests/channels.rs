//! Requests and their answers on their way between threads.
use std::sync::mpsc::{sync_channel, Receiver};

use iamb_worker::base::{LoginStyle, SetRoomField, VerifyAction};
use iamb_worker::channel::{oneshot, Disconnected};
use iamb_worker::task::{answered, queued, RequestError, Requester, WorkerTask};

fn requester() -> (Requester<u64>, Receiver<WorkerTask<u64>>) {
    let (tx, rx) = sync_channel(5);
    (Requester { tx }, rx)
}

#[test]
fn an_answer_arrives_where_it_was_asked_for() {
    let (reply, response) = oneshot();
    assert_eq!(reply.send("hello".to_string()), Ok(()));
    assert_eq!(response.recv(), Ok("hello".to_string()));
}

#[test]
fn an_unwanted_answer_is_given_back() {
    let (reply, response) = oneshot();
    drop(response);
    assert_eq!(reply.send(7), Err(7));
}

#[test]
fn an_answer_that_never_comes_is_noticed() {
    let (reply, response) = oneshot::<u8>();
    drop(reply);
    assert_eq!(response.recv(), Err(Disconnected));
}

#[test]
fn a_typing_notice_waits_for_nothing() {
    let (requester, tasks) = requester();
    assert!(requester.typing_notice("!r:x".to_string()).is_ok());
    assert!(matches!(tasks.recv(), Ok(WorkerTask::TypingNotice(room)) if room == "!r:x"));
}

#[test]
fn clones_send_to_the_same_worker() {
    let (requester, tasks) = requester();
    let other = requester.clone();
    assert!(requester.typing_notice("!a:x".to_string()).is_ok());
    assert!(other.typing_notice("!b:x".to_string()).is_ok());
    assert!(matches!(tasks.recv(), Ok(WorkerTask::TypingNotice(room)) if room == "!a:x"));
    assert!(matches!(tasks.recv(), Ok(WorkerTask::TypingNotice(room)) if room == "!b:x"));
}

#[test]
fn requests_to_a_worker_that_is_gone_are_given_back() {
    let (to, tasks) = requester();
    drop(tasks);
    let room = "!r:x".to_string();

    assert!(matches!(to.init(9), Err(RequestError::NotSent(WorkerTask::Init(9, _)))));
    assert!(matches!(
        to.load_older(room.clone(), Some("t".to_string()), 3),
        Err(RequestError::NotSent(WorkerTask::LoadOlder(r, Some(f), 3, _))) if r == room && f == "t"
    ));
    assert!(matches!(
        to.login(LoginStyle::Password("pw".to_string())),
        Err(RequestError::NotSent(WorkerTask::Login(LoginStyle::Password(p), _))) if p == "pw"
    ));
    assert!(matches!(
        to.send_message(room.clone(), "hi".to_string()),
        Err(RequestError::NotSent(WorkerTask::SendMessage(r, m, _))) if r == room && m == "hi"
    ));
    assert!(matches!(
        to.direct_messages(),
        Err(RequestError::NotSent(WorkerTask::DirectMessages(_)))
    ));
    assert!(matches!(
        to.get_room(room.clone()),
        Err(RequestError::NotSent(WorkerTask::GetRoom(r, _))) if r == room
    ));
    assert!(matches!(
        to.join_room("#a:x".to_string()),
        Err(RequestError::NotSent(WorkerTask::JoinRoom(n, _))) if n == "#a:x"
    ));
    assert!(matches!(to.joined_rooms(), Err(RequestError::NotSent(WorkerTask::JoinedRooms(_)))));
    assert!(matches!(
        to.members(room.clone()),
        Err(RequestError::NotSent(WorkerTask::Members(r, _))) if r == room
    ));
    assert!(matches!(
        to.space_members(room.clone()),
        Err(RequestError::NotSent(WorkerTask::SpaceMembers(r, _))) if r == room
    ));
    assert!(matches!(
        to.set_room(room.clone(), SetRoomField::Topic("t".to_string())),
        Err(RequestError::NotSent(WorkerTask::SetRoom(r, SetRoomField::Topic(t), _)))
            if r == room && t == "t"
    ));
    assert!(matches!(to.spaces(), Err(RequestError::NotSent(WorkerTask::Spaces(_)))));
    assert!(matches!(
        to.typing_notice(room.clone()),
        Err(RequestError::NotSent(WorkerTask::TypingNotice(r))) if r == room
    ));
    assert!(matches!(
        to.verify(VerifyAction::Mismatch, "@a:x/D".to_string()),
        Err(RequestError::NotSent(WorkerTask::Verify(VerifyAction::Mismatch, s, _)))
            if s == "@a:x/D"
    ));
    assert!(matches!(
        to.verify_request("@a:x".to_string()),
        Err(RequestError::NotSent(WorkerTask::VerifyRequest(u, _))) if u == "@a:x"
    ));
}

#[test]
fn a_worker_that_goes_away_leaves_a_request_without_an_answer() {
    let runtime = tokio::runtime::Builder::new_multi_thread().build().unwrap();
    let (requester, tasks) = requester();
    let asking = runtime.spawn_blocking(move || requester.joined_rooms());
    let task = tasks.recv().unwrap();
    assert!(matches!(task, WorkerTask::JoinedRooms(_)));
    drop(task);
    let answer = runtime.block_on(asking).unwrap();
    assert!(matches!(answer, Err(RequestError::NoReply)));
}

#[test]
fn a_request_comes_to_what_was_received() {
    assert!(matches!(answered::<u64, u8>(Ok(4)), Ok(4)));
    assert!(matches!(answered::<u64, u8>(Err(Disconnected)), Err(RequestError::NoReply)));
    assert!(queued::<u64>(Ok(())).is_ok());
    assert!(matches!(
        queued::<u64>(Err(WorkerTask::TypingNotice("!r:x".to_string()))),
        Err(RequestError::NotSent(WorkerTask::TypingNotice(_)))
    ));
}
