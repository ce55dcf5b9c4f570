//! The worker, from the request to the answer.
use std::sync::mpsc::sync_channel;

use iamb_worker::base::{
    ApplicationSettings, ClientError, DisplayName, ErrorKind, IambError, InfoMessage, LoginStyle,
    Profile, Room, Session, UIError, VerifyAction,
};
use iamb_worker::channel::{oneshot, Received};
use iamb_worker::client::{Action, Event, Step};
use iamb_worker::job::{Answer, Job, JobStep, Outcome};
use iamb_worker::task::{RequestError, WorkerTask};
use iamb_worker::worker::{ClientWorker, Spawned, Started, Turn};

fn s(text: &str) -> String {
    text.to_string()
}

fn spawned() -> Spawned<u64> {
    ClientWorker::spawn(ApplicationSettings {
        profile: Profile { user_id: s("@me:x"), url: s("https://x") },
        matrix_dir: s("/var/iamb"),
        session_json: s("/var/iamb/session.json"),
    })
}

fn ready() -> ClientWorker {
    let mut worker = spawned().worker;
    let (reply, _response) = oneshot();
    assert!(matches!(
        worker.run(WorkerTask::Init(5u64, reply)),
        Started::Init { store: 5, .. }
    ));
    worker
}

fn job(started: Started<u64>) -> JobStep {
    match started {
        Started::Job(step) => step,
        Started::Init { .. } => panic!("the worker is being made ready"),
    }
}

fn perform(step: JobStep, action: Action) -> Job {
    match step {
        Step::Perform(job, asked) => {
            assert_eq!(asked, action);
            job
        },
        Step::Done(_) => panic!("the request is over"),
    }
}

fn outcome(step: JobStep) -> Outcome {
    match step {
        Step::Perform(_, asked) => panic!("the request asks for {:?}", asked),
        Step::Done(outcome) => outcome,
    }
}

#[test]
fn the_client_is_set_up_for_the_account() {
    let config = spawned().config;
    assert_eq!(config.user_agent, "iamb");
    assert_eq!(config.timeout, 60);
    assert_eq!(config.pool_idle_timeout, 120);
    assert_eq!(config.pool_max_idle_per_host, 5);
    assert!(config.http1_only);
    assert_eq!(config.homeserver_url, "https://x");
    assert_eq!(config.store_path, "/var/iamb");
    assert_eq!(config.store_passphrase, None);
    assert_eq!(config.request_timeout, 60);
    assert_eq!(config.retry_timeout, 60);
}

#[test]
fn the_first_request_makes_the_worker_ready() {
    let mut worker = spawned().worker;
    let (reply, response) = oneshot();
    let task = WorkerTask::Init(7u64, reply);
    assert!(worker.accepts(&task));
    assert!(!worker.accepts(&WorkerTask::<u64>::TypingNotice(s("!r:x"))));
    match worker.run(task) {
        Started::Init { store, handlers, reply } => {
            assert_eq!(store, 7);
            assert_eq!(handlers.len(), 10);
            assert_eq!(reply.send(()), Ok(()));
        },
        Started::Job(_) => panic!("the worker is not ready"),
    }
    assert_eq!(response.recv(), Ok(()));
    let (reply, _response) = oneshot();
    assert!(!worker.accepts(&WorkerTask::Init(8u64, reply)));
    assert!(worker.accepts(&WorkerTask::<u64>::TypingNotice(s("!r:x"))));
}

#[test]
fn an_answer_reaches_whoever_asked() {
    let mut worker = ready();
    let (reply, response) = oneshot();
    let step = job(worker.run(WorkerTask::GetRoom(s("!a:x"), reply)));
    let getting = perform(step, Action::GetRoom(s("!a:x")));
    let step = worker.advance(getting, Event::Room(None));
    assert_eq!(outcome(step).deliver(), Ok(()));
    let unknown = UIError::Application(IambError::UnknownRoom(s("!a:x")));
    assert_eq!(response.recv(), Ok(Err(unknown)));
}

#[test]
fn an_answer_that_nobody_waits_for_is_given_back() {
    let mut worker = ready();
    let (reply, response) = oneshot();
    drop(response);
    let step = job(worker.run(WorkerTask::Spaces(reply)));
    let listing = perform(step, Action::JoinedRooms);
    let step = worker.advance(listing, Event::Rooms(vec![]));
    assert_eq!(outcome(step).deliver(), Err(Answer::Rooms(vec![])));
}

#[test]
fn a_request_can_be_over_at_once() {
    let mut worker = ready();
    let (reply, response) = oneshot();
    let step = job(worker.run(WorkerTask::JoinRoom(s("nowhere"), reply)));
    assert_eq!(outcome(step).deliver(), Ok(()));
    assert!(matches!(response.recv(), Ok(Err(UIError::Failure(_)))));
}

#[test]
fn a_typing_notice_has_no_answer() {
    let mut worker = ready();
    let step = job(worker.run(WorkerTask::<u64>::TypingNotice(s("!r:x"))));
    let typing = perform(step, Action::GetJoinedRoom(s("!r:x")));
    let end = outcome(worker.advance(typing, Event::Room(None)));
    assert!(matches!(end, Outcome::Nothing));
    assert_eq!(end.deliver(), Ok(()));
}

#[test]
fn every_request_starts() {
    let mut worker = ready();
    let (reply, _r) = oneshot();
    perform(job(worker.run(WorkerTask::DirectMessages(reply))), Action::JoinedRooms);
    let (reply, _r) = oneshot();
    perform(job(worker.run(WorkerTask::JoinedRooms(reply))), Action::JoinedRooms);
    let (reply, _r) = oneshot();
    perform(
        job(worker.run(WorkerTask::LoadOlder(s("!r:x"), None, 4, reply))),
        Action::GetRoom(s("!r:x")),
    );
    let (reply, _r) = oneshot();
    perform(
        job(worker.run(WorkerTask::Members(s("!r:x"), reply))),
        Action::GetRoom(s("!r:x")),
    );
    let (reply, _r) = oneshot();
    assert!(matches!(
        job(worker.run(WorkerTask::SpaceMembers(s("!s:x"), reply))),
        Step::Perform(Job::SpaceMembers(_, _), Action::SpaceHierarchy(request))
            if request.space == "!s:x"
    ));
    let (reply, _r) = oneshot();
    perform(
        job(worker.run(WorkerTask::SendMessage(s("!r:x"), s("hi"), reply))),
        Action::GetJoinedRoom(s("!r:x")),
    );
    let (reply, _r) = oneshot();
    let field = iamb_worker::base::SetRoomField::Topic(s("t"));
    perform(
        job(worker.run(WorkerTask::SetRoom(s("!r:x"), field, reply))),
        Action::GetJoinedRoom(s("!r:x")),
    );
    let (reply, _r) = oneshot();
    perform(
        job(worker.run(WorkerTask::Verify(VerifyAction::Accept, s("k"), reply))),
        Action::SasAccept(s("k")),
    );
    let (reply, _r) = oneshot();
    perform(
        job(worker.run(WorkerTask::VerifyRequest(s("@u:x"), reply))),
        Action::GetUserIdentity(s("@u:x")),
    );
}

#[test]
fn a_login_is_for_the_selected_account() {
    let mut worker = ready();
    let (reply, _r) = oneshot();
    let login = WorkerTask::<u64>::Login(LoginStyle::Password(s("pw")), reply);
    match job(worker.run(login)) {
        Step::Perform(Job::Login(_, _), Action::LoginUsername { user_id, password, .. }) => {
            assert_eq!(user_id, "@me:x");
            assert_eq!(password, "pw");
        },
        _ => panic!("the password is not used"),
    }
}

fn log_in(worker: &mut ClientWorker, handle: u64) {
    let session = || Session {
        access_token: s("a"),
        refresh_token: None,
        user_id: s("@me:x"),
        device_id: s("D"),
    };
    let (reply, response) = oneshot();
    let login = WorkerTask::<u64>::Login(LoginStyle::SessionRestore(session()), reply);
    let job = perform(job(worker.run(login)), Action::RestoreLogin(session()));
    let job = perform(worker.advance(job, Event::Done(Ok(()))), Action::StartSync);
    let job = perform(worker.advance(job, Event::SyncStarted(handle)), Action::SyncOnce);
    let end = outcome(worker.advance(job, Event::Done(Ok(()))));
    assert_eq!(end.deliver(), Ok(()));
    assert_eq!(response.recv(), Ok(Ok(Some(InfoMessage::LoggedIn))));
}

#[test]
fn the_last_sync_is_stopped_with_the_worker() {
    let mut worker = ready();
    log_in(&mut worker, 3);
    log_in(&mut worker, 4);
    let step = job(worker.run(WorkerTask::<u64>::TypingNotice(s("!r:x"))));
    let typing = perform(step, Action::GetJoinedRoom(s("!r:x")));
    outcome(worker.advance(typing, Event::Room(None)));

    assert!(matches!(worker.turn::<u64>(Received::Timeout), Turn::Wait));
    assert!(matches!(
        worker.turn(Received::Item(WorkerTask::<u64>::TypingNotice(s("!r:x")))),
        Turn::Run(WorkerTask::TypingNotice(_))
    ));
    assert!(matches!(worker.turn::<u64>(Received::Disconnected), Turn::Stop(Some(4))));
    assert!(matches!(worker.turn::<u64>(Received::Disconnected), Turn::Stop(None)));
}

#[test]
fn a_failed_first_sync_leaves_the_sync_to_the_worker() {
    let mut worker = ready();
    let (reply, response) = oneshot();
    let session = || Session {
        access_token: s("a"),
        refresh_token: None,
        user_id: s("@me:x"),
        device_id: s("D"),
    };
    let login = WorkerTask::<u64>::Login(LoginStyle::SessionRestore(session()), reply);
    let job = perform(job(worker.run(login)), Action::RestoreLogin(session()));
    let job = perform(worker.advance(job, Event::Done(Ok(()))), Action::StartSync);
    let job = perform(worker.advance(job, Event::SyncStarted(9)), Action::SyncOnce);
    let error = ClientError { kind: ErrorKind::Matrix, message: s("down") };
    let end = outcome(worker.advance(job, Event::Done(Err(error))));
    assert_eq!(end.deliver(), Ok(()));
    assert!(matches!(response.recv(), Ok(Err(UIError::Application(IambError::Client(_))))));
    assert!(matches!(worker.turn::<u64>(Received::Disconnected), Turn::Stop(Some(9))));
}

#[test]
fn a_worker_without_a_login_has_no_sync_to_stop() {
    let mut worker = ready();
    assert!(matches!(worker.turn::<u64>(Received::Disconnected), Turn::Stop(None)));
}

#[test]
fn the_worker_takes_requests_until_nobody_can_send_any() {
    let Spawned { requester, mut worker, tasks, .. } = spawned();
    assert!(requester.typing_notice(s("!r:x")).is_ok());
    assert!(matches!(
        worker.work(&tasks),
        Turn::Run(WorkerTask::TypingNotice(room)) if room == "!r:x"
    ));
    assert!(matches!(worker.work(&tasks), Turn::Wait));
    drop(requester);
    assert!(matches!(worker.work(&tasks), Turn::Stop(None)));
}

#[test]
fn the_queue_of_the_worker_holds_five_requests() {
    let Spawned { requester, tasks, .. } = spawned();
    for _ in 0..5 {
        let room = WorkerTask::TypingNotice(s("!r:x"));
        assert!(requester.tx.try_send(room).is_ok());
    }
    assert!(requester.tx.try_send(WorkerTask::TypingNotice(s("!r:x"))).is_err());
    drop(tasks);
}

#[test]
fn requests_are_answered_across_threads() {
    let runtime = tokio::runtime::Builder::new_multi_thread().build().unwrap();
    let Spawned { requester, mut worker, tasks, .. } = spawned();

    let asker = requester.clone();
    let init = runtime.spawn_blocking(move || asker.init(1));
    match worker.work(&tasks) {
        Turn::Run(task) => match worker.run(task) {
            Started::Init { reply, .. } => assert_eq!(reply.send(()), Ok(())),
            Started::Job(_) => panic!("the worker is not ready"),
        },
        _ => panic!("no request"),
    }
    assert!(runtime.block_on(init).unwrap().is_ok());

    let asking = runtime.spawn_blocking(move || requester.joined_rooms());
    let room = || Room { room_id: s("!r:x"), is_space: false, is_direct: false };
    match worker.work(&tasks) {
        Turn::Run(task) => {
            let listing = perform(job(worker.run(task)), Action::JoinedRooms);
            let step = worker.advance(listing, Event::Rooms(vec![room()]));
            let listing = perform(step, Action::DisplayName(s("!r:x")));
            let step = worker.advance(listing, Event::Name(Ok(DisplayName::Empty)));
            assert_eq!(outcome(step).deliver(), Ok(()));
        },
        _ => panic!("no request"),
    }
    match runtime.block_on(asking).unwrap() {
        Ok(rooms) => assert_eq!(rooms, vec![(room(), DisplayName::Empty)]),
        Err(RequestError::NoReply) => panic!("no answer"),
        Err(RequestError::NotSent(_)) => panic!("not sent"),
    }
}

#[test]
fn requests_are_carried_out_in_order() {
    let Spawned { requester, mut worker, tasks, .. } = spawned();
    let other = requester.clone();
    assert!(requester.typing_notice(s("!1:x")).is_ok());
    assert!(other.typing_notice(s("!2:x")).is_ok());
    drop(other);
    assert!(requester.typing_notice(s("!3:x")).is_ok());
    drop(requester);
    let mut ran = vec![];
    loop {
        match worker.work(&tasks) {
            Turn::Run(WorkerTask::TypingNotice(room)) => ran.push(room),
            Turn::Run(_) => panic!("another request"),
            Turn::Wait => {},
            Turn::Stop(handle) => {
                assert_eq!(handle, None);
                break;
            },
        }
    }
    assert_eq!(ran, vec![s("!1:x"), s("!2:x"), s("!3:x")]);
}

#[test]
fn a_second_store_is_refused() {
    let runtime = tokio::runtime::Builder::new_multi_thread().build().unwrap();
    let Spawned { requester, mut worker, tasks, .. } = spawned();
    let (reply, _response) = oneshot();
    assert!(matches!(worker.run(WorkerTask::Init(1u64, reply)), Started::Init { .. }));

    let asking = runtime.spawn_blocking(move || requester.init(2));
    match worker.work(&tasks) {
        Turn::Run(task) => {
            assert!(!worker.accepts(&task));
            drop(task);
        },
        _ => panic!("no request"),
    }
    assert!(matches!(runtime.block_on(asking).unwrap(), Err(RequestError::NoReply)));
}

#[test]
fn a_login_before_the_store_is_refused() {
    let runtime = tokio::runtime::Builder::new_multi_thread().build().unwrap();
    let Spawned { requester, mut worker, tasks, .. } = spawned();
    let asker = requester.clone();
    let asking = runtime.spawn_blocking(move || asker.login(LoginStyle::Password(s("pw"))));
    match worker.work(&tasks) {
        Turn::Run(task) => {
            assert!(!worker.accepts(&task));
            drop(task);
        },
        _ => panic!("no request"),
    }
    assert!(matches!(runtime.block_on(asking).unwrap(), Err(RequestError::NoReply)));
    drop(tasks);
    assert!(matches!(requester.spaces(), Err(RequestError::NotSent(WorkerTask::Spaces(_)))));
}

#[test]
fn settings_stay_as_they_were_given() {
    let worker = spawned().worker;
    assert_eq!(worker.settings().session_json, "/var/iamb/session.json");
    let (tx, rx) = sync_channel::<WorkerTask<u64>>(1);
    drop(tx);
    let mut worker = worker;
    assert!(matches!(worker.work(&rx), Turn::Stop(None)));
    assert_eq!(worker.settings().profile.user_id, "@me:x");
}
