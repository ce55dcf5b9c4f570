//! The worker: it takes requests, one at a time, and has the client carry them out.
use std::sync::mpsc::Receiver;

use vstd::prelude::*;

use crate::base::{
    reported, ApplicationSettings, ClientError, EditInfo, Failure, IambResult, LoginStyle, RoomId,
    UIError, UserId, VerifyAction,
};
use crate::channel::{
    can_receive_within, made, make_channel, wait_for_item, ClientReply, Received,
};
use crate::client::{Action, Event, Step};
use crate::handlers::{handlers, needed_handlers, Handler};
use crate::ident::{name_kind, room_or_alias_id, user_id};
use crate::job::{
    get_room_job, joins, lists, members_job, send_message_job, set_room_job, sound,
    typing_job, verify_job, verify_request_job, Job, JobStep, Outcome,
};
use crate::ops::direct::{DirectState, JoinRoom, JoinState};
use crate::ops::listing::{Listing, ListingState, ListingStep, RoomListing};
use crate::ops::login::{is_host, LoginAndSync};
use crate::ops::message::SendMessage;
use crate::ops::room::{GetRoom, LoadOlder, Members, SetRoom, SpaceMembers, TypingNotice};
use crate::ops::verify::{Verify, VerifyRequest};
use crate::task::{Requester, WorkerTask};

verus! {

/// What the client calls itself towards the server.
pub const IAMB_USER_AGENT: &'static str = "iamb";

/// How many seconds a request to the server may take, with all its retries.
pub const REQ_TIMEOUT: u64 = 60;

/// How many seconds a single exchange with the server may take.
pub const HTTP_TIMEOUT: u64 = 60;

/// How many seconds a connection to the server is kept while it is not used.
pub const POOL_IDLE_TIMEOUT: u64 = 120;

/// How many connections to a server are kept while they are not used.
pub const POOL_MAX_IDLE: usize = 5;

/// How many requests the worker's queue holds.
pub const QUEUE_BOUND: usize = 5;

/// How many seconds the worker waits for a request before it looks again.
pub const WAIT_SECONDS: u64 = 1;

/// How the client is set up.
#[derive(Debug, PartialEq, Eq)]
pub struct ClientConfig {
    /// What the client calls itself towards the server.
    pub user_agent: String,
    /// How many seconds an exchange with the server may take.
    pub timeout: u64,
    /// How many seconds a connection is kept while it is not used.
    pub pool_idle_timeout: u64,
    /// How many connections to a server are kept while they are not used.
    pub pool_max_idle_per_host: usize,
    /// Whether the client keeps to HTTP/1.
    pub http1_only: bool,
    /// The address of the homeserver.
    pub homeserver_url: String,
    /// The directory of the client's own state.
    pub store_path: String,
    /// What the client's own state is encrypted with, if it is.
    pub store_passphrase: Option<String>,
    /// How many seconds a request may take.
    pub request_timeout: u64,
    /// How many seconds a request may be retried.
    pub retry_timeout: u64,
}

/// Whether the client is set up for the selected account, and to use HTTP/1 only.
pub open spec fn configured(config: ClientConfig, settings: ApplicationSettings) -> bool {
    &&& config.user_agent@ == IAMB_USER_AGENT@
    &&& config.timeout == HTTP_TIMEOUT
    &&& config.pool_idle_timeout == POOL_IDLE_TIMEOUT
    &&& config.pool_max_idle_per_host == POOL_MAX_IDLE
    &&& config.http1_only
    &&& config.homeserver_url == settings.profile.url
    &&& config.store_path == settings.matrix_dir
    &&& config.store_passphrase is None
    &&& config.request_timeout == REQ_TIMEOUT
    &&& config.retry_timeout == REQ_TIMEOUT
}

impl ClientConfig {
    /// How the client is set up for the selected account.
    pub fn new(settings: &ApplicationSettings) -> (r: ClientConfig)
        ensures
            configured(r, *settings),
    {
        ClientConfig {
            user_agent: IAMB_USER_AGENT.to_owned(),
            timeout: HTTP_TIMEOUT,
            pool_idle_timeout: POOL_IDLE_TIMEOUT,
            pool_max_idle_per_host: POOL_MAX_IDLE,
            http1_only: true,
            homeserver_url: settings.profile.url.clone(),
            store_path: settings.matrix_dir.clone(),
            store_passphrase: None,
            request_timeout: REQ_TIMEOUT,
            retry_timeout: REQ_TIMEOUT,
        }
    }
}

/// Takes requests and has the client carry them out.
#[derive(Debug, PartialEq, Eq)]
pub struct ClientWorker {
    initialized: bool,
    settings: ApplicationSettings,
    sync_handle: Option<u64>,
}

/// The worker, as a value.
pub ghost struct WorkerState {
    /// Whether the worker has the program's store.
    pub initialized: bool,
    /// What the user has configured.
    pub settings: ApplicationSettings,
    /// The task that syncs with the server, by its number.
    pub sync_handle: Option<u64>,
}

impl View for ClientWorker {
    type V = WorkerState;

    closed spec fn view(&self) -> WorkerState {
        WorkerState {
            initialized: self.initialized,
            settings: self.settings,
            sync_handle: self.sync_handle,
        }
    }
}

/// A worker that was made, with all that belongs to it.
#[verifier::reject_recursive_types(S)]
pub struct Spawned<S> {
    /// Sends requests to the worker.
    pub requester: Requester<S>,
    /// The worker.
    pub worker: ClientWorker,
    /// The queue that the requests arrive in.
    pub tasks: Receiver<WorkerTask<S>>,
    /// How its client is to be set up.
    pub config: ClientConfig,
}

/// How a request starts.
#[verifier::reject_recursive_types(S)]
pub enum Started<S> {
    /// The client is to have these handlers added to it, with the program's store; then
    /// the reply is to be sent.
    Init {
        /// The program's store.
        store: S,
        /// The handlers.
        handlers: Vec<Handler>,
        /// Where the answer goes.
        reply: ClientReply<()>,
    },
    /// The request is being carried out, or was already.
    Job(JobStep),
}

/// What the worker does next.
#[verifier::reject_recursive_types(S)]
pub enum Turn<S> {
    /// Carry a request out.
    Run(WorkerTask<S>),
    /// Wait for a request.
    Wait,
    /// Stop, and with it the syncing task, if there is one.
    Stop(Option<u64>),
}

/// Whether the worker can take a request: the first one, and no other, hands it the
/// program's store.
pub open spec fn accepts<S>(worker: WorkerState, task: WorkerTask<S>) -> bool {
    task is Init <==> !worker.initialized
}

/// How a listing starts.
pub open spec fn listing_starts(kind: Listing) -> ListingStep {
    Step::Perform(ListingState::Fetch(kind), Action::JoinedRooms)
}

/// Whether a login starts like this.
pub open spec fn login_starts(
    style: LoginStyle,
    user: UserId,
    reply: ClientReply<IambResult<EditInfo>>,
    r: JobStep,
) -> bool {
    match r {
        Step::Perform(Job::Login(op, to), action) => to == reply && LoginAndSync::starts_here(
            style,
            user,
            Step::Perform(op, action),
        ),
        _ => false,
    }
}

/// Whether a request starts like this.
pub open spec fn starts<S>(worker: WorkerState, task: WorkerTask<S>, r: JobStep) -> bool {
    match task {
        WorkerTask::DirectMessages(reply) => lists(
            r,
            listing_starts(Listing::DirectMessages),
            reply,
        ),
        WorkerTask::Init(_, _) => false,
        WorkerTask::LoadOlder(room_id, fetch_id, limit, reply) => match LoadOlder::starts(
            room_id,
            fetch_id,
            limit,
        ) {
            Step::Perform(op, action) => r == JobStep::Perform(Job::LoadOlder(op, reply), action),
            Step::Done(_) => false,
        },
        WorkerTask::Login(style, reply) => login_starts(
            style,
            worker.settings.profile.user_id,
            reply,
            r,
        ),
        WorkerTask::GetRoom(room_id, reply) => r == get_room_job(GetRoom::starts(room_id), reply),
        WorkerTask::JoinRoom(name, reply) => joins(
            r,
            JoinRoom::starts(name, name_kind(room_or_alias_id(name@), user_id(name@))),
            reply,
        ),
        WorkerTask::JoinedRooms(reply) => lists(r, listing_starts(Listing::JoinedRooms), reply),
        WorkerTask::Members(room_id, reply) => r == members_job(Members::starts(room_id), reply),
        WorkerTask::SpaceMembers(space, reply) => match SpaceMembers::starts(space) {
            Step::Perform(op, action) => r == JobStep::Perform(
                Job::SpaceMembers(op, reply),
                action,
            ),
            Step::Done(_) => false,
        },
        WorkerTask::Spaces(reply) => lists(r, listing_starts(Listing::Spaces), reply),
        WorkerTask::SendMessage(room_id, msg, reply) => r == send_message_job(
            SendMessage::starts(room_id, msg),
            reply,
        ),
        WorkerTask::SetRoom(room_id, field, reply) => r == set_room_job(
            SetRoom::starts(room_id, field),
            reply,
        ),
        WorkerTask::TypingNotice(room_id) => r == typing_job(TypingNotice::starts(room_id)),
        WorkerTask::Verify(action, sas, reply) => r == verify_job(
            Verify::starts(action, sas),
            reply,
        ),
        WorkerTask::VerifyRequest(user, reply) => r == verify_request_job(
            VerifyRequest::starts(user),
            reply,
        ),
    }
}

/// The task that syncs, if the event tells the request that it was started.
pub open spec fn started_sync(job: Job, event: Event) -> Option<u64> {
    match (job, event) {
        (Job::Login(LoginAndSync::Spawn, _), Event::SyncStarted(handle)) => Some(handle),
        _ => None,
    }
}

/// The worker after an event for a request: it keeps the last task that was started to
/// sync.
pub open spec fn worker_next(worker: WorkerState, job: Job, event: Event) -> WorkerState {
    match started_sync(job, event) {
        Some(handle) => WorkerState { sync_handle: Some(handle), ..worker },
        None => worker,
    }
}

/// The worker that was just made.
pub open spec fn fresh_worker(settings: ApplicationSettings) -> WorkerState {
    WorkerState { initialized: false, settings, sync_handle: None }
}

/// The worker once it has started to carry a request out.
pub open spec fn worker_ran<S>(worker: WorkerState, task: WorkerTask<S>) -> WorkerState {
    if task is Init {
        WorkerState { initialized: true, ..worker }
    } else {
        worker
    }
}

/// The worker once it has stopped: it has handed over the task that syncs.
pub open spec fn worker_stopped(worker: WorkerState) -> WorkerState {
    WorkerState { sync_handle: None, ..worker }
}

/// What the worker does next, given what waiting for a request has come to.
pub open spec fn turn_of<S>(worker: WorkerState, received: Received<WorkerTask<S>>) -> Turn<S> {
    match received {
        Received::Item(task) => Turn::Run(task),
        Received::Timeout => Turn::Wait,
        Received::Disconnected => Turn::Stop(worker.sync_handle),
    }
}

impl ClientWorker {
    /// Makes a worker for the selected account, and the queue of its requests: what the
    /// requester sends goes into the queue that the worker takes its requests from.
    pub fn spawn<S>(settings: ApplicationSettings) -> (r: Spawned<S>)
        ensures
            r.worker@ == fresh_worker(settings),
            made(QUEUE_BOUND, r.requester.tx, r.tasks),
            configured(r.config, settings),
    {
        let (tx, rx) = make_channel(QUEUE_BOUND);
        let config = ClientConfig::new(&settings);
        Spawned {
            requester: Requester { tx },
            worker: ClientWorker { initialized: false, settings, sync_handle: None },
            tasks: rx,
            config,
        }
    }

    /// What the user has configured.
    pub fn settings(&self) -> (r: &ApplicationSettings)
        ensures
            *r == self@.settings,
    {
        &self.settings
    }

    /// Waits for a request, and tells what to do next.
    pub fn work<S>(&mut self, tasks: &Receiver<WorkerTask<S>>) -> (r: Turn<S>)
        ensures
            match r {
                Turn::Run(task) => can_receive_within(
                    *tasks,
                    WAIT_SECONDS,
                    Received::Item(task),
                ),
                Turn::Wait => can_receive_within(*tasks, WAIT_SECONDS, Received::Timeout),
                Turn::Stop(_) => can_receive_within(
                    *tasks,
                    WAIT_SECONDS,
                    Received::Disconnected,
                ),
            },
            r matches Turn::Stop(handle) ==> handle == old(self)@.sync_handle && final(self)@
                == worker_stopped(old(self)@),
            !(r is Stop) ==> final(self)@ == old(self)@,
    {
        let received = wait_for_item(tasks, WAIT_SECONDS);
        self.turn(received)
    }

    /// Tells what to do next, given what waiting for a request has come to: once nobody
    /// can send requests any more, the worker stops, and with it the task that syncs.
    pub fn turn<S>(&mut self, received: Received<WorkerTask<S>>) -> (r: Turn<S>)
        ensures
            r == turn_of(old(self)@, received),
            final(self)@ == if received is Disconnected {
                worker_stopped(old(self)@)
            } else {
                old(self)@
            },
    {
        match received {
            Received::Item(task) => Turn::Run(task),
            Received::Timeout => Turn::Wait,
            Received::Disconnected => {
                let handle = self.sync_handle;
                self.sync_handle = None;
                Turn::Stop(handle)
            },
        }
    }

    /// Whether the worker can take a request: the first one, and no other, hands it the
    /// program's store.
    pub fn accepts<S>(&self, task: &WorkerTask<S>) -> (r: bool)
        ensures
            r == accepts(self@, *task),
    {
        match task {
            WorkerTask::Init(_, _) => !self.initialized,
            _ => self.initialized,
        }
    }

    /// Starts to carry a request out.
    pub fn run<S>(&mut self, task: WorkerTask<S>) -> (r: Started<S>)
        requires
            accepts(old(self)@, task),
        ensures
            final(self)@ == worker_ran(old(self)@, task),
            task matches WorkerTask::Init(store, reply) ==> {
                &&& r matches Started::Init { store: s, handlers: h, reply: to }
                &&& s == store
                &&& h@ == needed_handlers()
                &&& to == reply
            },
            !(task is Init) ==> {
                &&& r matches Started::Job(step)
                &&& starts(old(self)@, task, step)
                &&& sound(step)
            },
    {
        match task {
            WorkerTask::Init(store, reply) => {
                let handlers = self.init();
                Started::Init { store, handlers, reply }
            },
            WorkerTask::DirectMessages(reply) => Started::Job(
                Job::of_listing(RoomListing::start(Listing::DirectMessages), reply),
            ),
            WorkerTask::JoinRoom(name, reply) => Started::Job(
                Job::of_join_room(JoinRoom::start(name), reply),
            ),
            WorkerTask::GetRoom(room_id, reply) => Started::Job(
                Job::of_get_room(GetRoom::start(room_id), reply),
            ),
            WorkerTask::JoinedRooms(reply) => Started::Job(
                Job::of_listing(RoomListing::start(Listing::JoinedRooms), reply),
            ),
            WorkerTask::LoadOlder(room_id, fetch_id, limit, reply) => Started::Job(
                Job::of_load_older(LoadOlder::start(room_id, fetch_id, limit), reply),
            ),
            WorkerTask::Login(style, reply) => {
                let user = self.settings.profile.user_id.clone();
                Started::Job(Job::of_login(LoginAndSync::start(style, user), reply))
            },
            WorkerTask::Members(room_id, reply) => Started::Job(
                Job::of_members(Members::start(room_id), reply),
            ),
            WorkerTask::SetRoom(room_id, field, reply) => Started::Job(
                Job::of_set_room(SetRoom::start(room_id, field), reply),
            ),
            WorkerTask::SpaceMembers(space, reply) => Started::Job(
                Job::of_space_members(SpaceMembers::start(space), reply),
            ),
            WorkerTask::Spaces(reply) => Started::Job(
                Job::of_listing(RoomListing::start(Listing::Spaces), reply),
            ),
            WorkerTask::SendMessage(room_id, msg, reply) => Started::Job(
                Job::of_send_message(SendMessage::start(room_id, msg), reply),
            ),
            WorkerTask::TypingNotice(room_id) => Started::Job(
                Job::of_typing_notice(TypingNotice::start(room_id)),
            ),
            WorkerTask::Verify(action, sas, reply) => Started::Job(
                Job::of_verify(Verify::start(action, sas), reply),
            ),
            WorkerTask::VerifyRequest(user, reply) => Started::Job(
                Job::of_verify_request(VerifyRequest::start(user), reply),
            ),
        }
    }

    /// Makes the worker ready for requests, and tells which handlers its client is to
    /// have.
    fn init(&mut self) -> (r: Vec<Handler>)
        requires
            !old(self)@.initialized,
        ensures
            final(self)@ == (WorkerState { initialized: true, ..old(self)@ }),
            r@ == needed_handlers(),
    {
        self.initialized = true;
        handlers()
    }

    /// Goes on with a request after an event.
    pub fn advance(&mut self, job: Job, event: Event) -> (r: JobStep)
        requires
            job.wf(),
            job.awaits(event),
        ensures
            job.goes_on(event, r),
            sound(r),
            final(self)@ == worker_next(old(self)@, job, event),
    {
        if let Job::Login(LoginAndSync::Spawn, _) = &job {
            if let Event::SyncStarted(handle) = &event {
                self.sync_handle = Some(*handle);
            }
        }
        job.step(event)
    }
}

/// Something that the worker does.
#[verifier::reject_recursive_types(S)]
pub ghost enum Deed<S> {
    /// It starts to carry a request out.
    Run(WorkerTask<S>),
    /// It goes on with a request after an event.
    Advance(Job, Event),
    /// It stops.
    Stop,
}

impl<S> Deed<S> {
    /// The worker after the deed.
    pub open spec fn done_by(self, worker: WorkerState) -> WorkerState {
        match self {
            Deed::Run(task) => worker_ran(worker, task),
            Deed::Advance(job, event) => worker_next(worker, job, event),
            Deed::Stop => worker_stopped(worker),
        }
    }

    /// The task that syncs, if the deed takes note that it was started.
    pub open spec fn starts_sync(self) -> Option<u64> {
        match self {
            Deed::Advance(job, event) => started_sync(job, event),
            _ => None,
        }
    }
}

/// The worker after deeds, one after the other.
pub open spec fn worker_after<S>(worker: WorkerState, deeds: Seq<Deed<S>>) -> WorkerState
    decreases deeds.len(),
{
    if deeds.len() == 0 {
        worker
    } else {
        deeds.last().done_by(worker_after(worker, deeds.drop_last()))
    }
}

/// The worker takes every request that it starts to carry out.
pub open spec fn history<S>(worker: WorkerState, deeds: Seq<Deed<S>>) -> bool {
    forall|i: int|
        0 <= i < deeds.len() ==> (#[trigger] deeds[i] matches Deed::Run(task) ==> accepts(
            worker_after(worker, deeds.take(i)),
            task,
        ))
}

/// One of the first `n` deeds starts to carry a request out.
pub open spec fn has_run<S>(deeds: Seq<Deed<S>>, n: int) -> bool {
    exists|i: int| 0 <= i < n && #[trigger] deeds[i] is Run
}

proof fn lemma_one_deed<S>(worker: WorkerState, deeds: Seq<Deed<S>>, n: int)
    requires
        0 <= n < deeds.len(),
    ensures
        worker_after(worker, deeds.take(n + 1)) == deeds[n].done_by(
            worker_after(worker, deeds.take(n)),
        ),
{
    assert(deeds.take(n + 1).drop_last() =~= deeds.take(n));
}

proof fn lemma_history<S>(settings: ApplicationSettings, deeds: Seq<Deed<S>>, n: int)
    requires
        history(fresh_worker(settings), deeds),
        0 <= n <= deeds.len(),
    ensures
        worker_after(fresh_worker(settings), deeds.take(n)).settings == settings,
        worker_after(fresh_worker(settings), deeds.take(n)).initialized == has_run(deeds, n),
    decreases n,
{
    if n > 0 {
        lemma_history(settings, deeds, n - 1);
        lemma_one_deed(fresh_worker(settings), deeds, n - 1);
        if deeds[n - 1] is Run {
            assert(has_run(deeds, n));
        } else if has_run(deeds, n) {
            let i = choose|i: int| 0 <= i < n && #[trigger] deeds[i] is Run;
            assert(has_run(deeds, n - 1));
        }
    }
}

/// A worker works through every history as it should: its settings never change; it is
/// ready once it has taken a request, and stays so; the first request that it takes hands
/// it the program's store, and no later one does; and the task that syncs changes only when
/// a login has started one, or when the worker stops.
pub proof fn law_history<S>(settings: ApplicationSettings, deeds: Seq<Deed<S>>)
    requires
        history(fresh_worker(settings), deeds),
    ensures
        forall|n: int|
            0 <= n <= deeds.len() ==> {
                let worker = #[trigger] worker_after(fresh_worker(settings), deeds.take(n));
                worker.settings == settings && worker.initialized == has_run(deeds, n)
            },
        forall|m: int, n: int|
            0 <= m <= n <= deeds.len() && #[trigger] has_run(deeds, m) ==> #[trigger] has_run(
                deeds,
                n,
            ),
        forall|n: int|
            0 <= n < deeds.len() ==> (#[trigger] deeds[n] matches Deed::Run(task) ==> (task is Init
                <==> !has_run(deeds, n))),
        forall|n: int|
            0 <= n < deeds.len() && !(#[trigger] deeds[n] is Stop) && deeds[n].starts_sync() is None
                ==> worker_after(fresh_worker(settings), deeds.take(n + 1)).sync_handle
                == worker_after(fresh_worker(settings), deeds.take(n)).sync_handle,
{
    let worker = fresh_worker(settings);
    assert forall|n: int| 0 <= n <= deeds.len() implies {
        let worker = #[trigger] worker_after(fresh_worker(settings), deeds.take(n));
        worker.settings == settings && worker.initialized == has_run(deeds, n)
    } by {
        lemma_history(settings, deeds, n);
    }
    assert forall|n: int| 0 <= n < deeds.len() implies (#[trigger] deeds[n] matches Deed::Run(task)
        ==> (task is Init <==> !has_run(deeds, n))) by {
        lemma_history(settings, deeds, n);
    }
    assert forall|n: int|
        0 <= n < deeds.len() && !(#[trigger] deeds[n] is Stop) && deeds[n].starts_sync()
            is None implies worker_after(worker, deeds.take(n + 1)).sync_handle == worker_after(
        worker,
        deeds.take(n),
    ).sync_handle by {
        lemma_one_deed(worker, deeds, n);
    }
}

/// Once the worker has the program's store it does not take another one, and takes every
/// other request, whatever it has done since.
pub proof fn law_initialized_once<S>(
    worker: WorkerState,
    task: WorkerTask<S>,
    deeds: Seq<Deed<S>>,
)
    requires
        worker.initialized,
    ensures
        accepts(worker_after(worker, deeds), task) <==> !(task is Init),
    decreases deeds.len(),
{
    if deeds.len() > 0 {
        law_initialized_once(worker, task, deeds.drop_last());
    }
}

/// A worker that does not have the program's store yet takes no request but the one that
/// brings it.
pub proof fn law_nothing_before_init<S>(worker: WorkerState, task: WorkerTask<S>)
    requires
        !worker.initialized,
    ensures
        accepts(worker, task) <==> task is Init,
{
}

/// The worker keeps the task that was last started to sync, whatever it does after that,
/// until it stops.
pub proof fn law_last_sync_kept<S>(
    worker: WorkerState,
    deeds: Seq<Deed<S>>,
    n: int,
    handle: u64,
)
    requires
        0 <= n < deeds.len(),
        deeds[n].starts_sync() == Some(handle),
        forall|i: int|
            n < i < deeds.len() ==> !(#[trigger] deeds[i] is Stop) && deeds[i].starts_sync()
                is None,
    ensures
        worker_after(worker, deeds).sync_handle == Some(handle),
    decreases deeds.len(),
{
    if n < deeds.len() - 1 {
        let before = deeds.drop_last();
        assert(deeds[deeds.len() - 1] == deeds.last());
        assert forall|i: int| n < i < before.len() implies !(#[trigger] before[i] is Stop)
            && before[i].starts_sync() is None by {
            assert(before[i] == deeds[i]);
        }
        law_last_sync_kept(worker, before, n, handle);
    }
}

/// A login whose first sync fails reports the error, and still leaves the task that syncs
/// to the worker.
pub proof fn law_failed_first_sync<S>(
    worker: WorkerState,
    reply: ClientReply<IambResult<EditInfo>>,
    handle: u64,
    error: ClientError,
)
    ensures
        ({
            let spawn = Job::Login(LoginAndSync::Spawn, reply);
            let sync = Job::Login(LoginAndSync::SyncOnce, reply);
            let failed = Event::Done(Err(error));
            &&& spawn.goes_on(
                Event::SyncStarted(handle),
                Step::Perform(sync, Action::SyncOnce),
            )
            &&& sync.goes_on(failed, Step::Done(Outcome::Info(reply, Err(reported(error)))))
            &&& worker_after(
                worker,
                seq![
                    Deed::<S>::Advance(spawn, Event::SyncStarted(handle)),
                    Deed::Advance(sync, failed),
                ],
            ).sync_handle == Some(handle)
        }),
{
    let spawn = Job::Login(LoginAndSync::Spawn, reply);
    let sync = Job::Login(LoginAndSync::SyncOnce, reply);
    let deeds = seq![
        Deed::<S>::Advance(spawn, Event::SyncStarted(handle)),
        Deed::Advance(sync, Event::Done(Err::<(), ClientError>(error))),
    ];
    law_last_sync_kept(worker, deeds, 0, handle);
}

/// What the worker has done of its requests.
#[verifier::ext_equal]
#[verifier::reject_recursive_types(S)]
pub ghost struct Progress<S> {
    /// The requests that it was told to carry out, in order.
    pub ran: Seq<WorkerTask<S>>,
    /// Whether it has stopped.
    pub stopped: bool,
}

/// What the worker has done after it has waited for requests, one time after the other, as
/// such a worker each time. Once it has stopped it does not wait again.
pub open spec fn progress<S>(
    workers: Seq<WorkerState>,
    waits: Seq<Received<WorkerTask<S>>>,
) -> Progress<S>
    decreases waits.len(),
{
    if waits.len() == 0 {
        Progress { ran: Seq::empty(), stopped: false }
    } else {
        let before = progress(workers.drop_last(), waits.drop_last());
        if before.stopped {
            before
        } else {
            match turn_of(workers.last(), waits.last()) {
                Turn::Run(task) => Progress { ran: before.ran.push(task), ..before },
                Turn::Wait => before,
                Turn::Stop(_) => Progress { stopped: true, ..before },
            }
        }
    }
}

/// The requests that have arrived, in order.
pub open spec fn arrived<S>(waits: Seq<Received<WorkerTask<S>>>) -> Seq<WorkerTask<S>>
    decreases waits.len(),
{
    if waits.len() == 0 {
        Seq::empty()
    } else {
        match waits.last() {
            Received::Item(task) => arrived(waits.drop_last()).push(task),
            _ => arrived(waits.drop_last()),
        }
    }
}

/// The worker carries out the requests that arrive, each once and in the order in which they
/// arrive. It stops when it learns that nobody can send any more, and not before: that
/// nothing has arrived for a while changes nothing. Here `n` is how often it waits before it
/// learns that.
pub proof fn law_requests_in_order<S>(
    workers: Seq<WorkerState>,
    waits: Seq<Received<WorkerTask<S>>>,
    n: int,
)
    requires
        workers.len() == waits.len(),
        0 <= n <= waits.len(),
        forall|i: int| 0 <= i < n ==> !(#[trigger] waits[i] is Disconnected),
        n < waits.len() ==> waits[n] is Disconnected,
    ensures
        progress(workers, waits).ran == arrived(waits.take(n)),
        progress(workers, waits).stopped == (n < waits.len()),
    decreases waits.len(),
{
    if waits.len() > 0 {
        let before = waits.drop_last();
        if n < waits.len() {
            law_requests_in_order(workers.drop_last(), before, n);
            assert(before.take(n) =~= waits.take(n));
        } else {
            assert(waits.last() == waits[n - 1]);
            law_requests_in_order(workers.drop_last(), before, n - 1);
            assert(before.take(n - 1) =~= before);
            assert(waits.take(n) =~= waits);
        }
    } else {
        assert(waits.take(n) =~= waits);
    }
}

/// Each request starts with the action that it is for, on what was asked for, and with its
/// answer going to whoever asked. A login is for the account that the worker was made for.
pub proof fn law_requests_start<S>(worker: WorkerState, task: WorkerTask<S>, r: JobStep)
    requires
        starts(worker, task, r),
    ensures
        task matches WorkerTask::DirectMessages(reply) ==>
            (r matches Step::Perform(Job::Listing(op, to), action) && to == reply
            && op@ == ListingState::Fetch(Listing::DirectMessages) && action
            == Action::JoinedRooms),
        task matches WorkerTask::JoinedRooms(reply) ==>
            (r matches Step::Perform(Job::Listing(op, to), action) && to == reply
            && op@ == ListingState::Fetch(Listing::JoinedRooms) && action == Action::JoinedRooms),
        task matches WorkerTask::Spaces(reply) ==>
            (r matches Step::Perform(Job::Listing(op, to), action) && to == reply
            && op@ == ListingState::Fetch(Listing::Spaces) && action == Action::JoinedRooms),
        task matches WorkerTask::LoadOlder(room_id, fetch_id, limit, reply) ==>
            r == JobStep::Perform(
            Job::LoadOlder(LoadOlder::Lookup { room_id, fetch_id, limit }, reply),
            Action::GetRoom(room_id),
        ),
        task matches WorkerTask::GetRoom(room_id, reply) ==> r == JobStep::Perform(
            Job::GetRoom(GetRoom::Lookup(room_id), reply),
            Action::GetRoom(room_id),
        ),
        task matches WorkerTask::Members(room_id, reply) ==> r == JobStep::Perform(
            Job::Members(Members::Lookup(room_id), reply),
            Action::GetRoom(room_id),
        ),
        task matches WorkerTask::SpaceMembers(space, reply) ==> (r matches Step::Perform(
            Job::SpaceMembers(_, to),
            Action::SpaceHierarchy(request),
        ) && to == reply && request.space == space && request.limit == 1000 && request.max_depth
            == 1),
        task matches WorkerTask::SendMessage(room_id, msg, reply) ==> (r matches Step::Perform(
            Job::SendMessage(SendMessage::Lookup(out), to),
            action,
        ) && to == reply && out.room_id == room_id && out.message.body == msg && action
            == Action::GetJoinedRoom(room_id)),
        task matches WorkerTask::SetRoom(room_id, field, reply) ==> r == JobStep::Perform(
            Job::SetRoom(SetRoom::Lookup(room_id, field), reply),
            Action::GetJoinedRoom(room_id),
        ),
        task matches WorkerTask::TypingNotice(room_id) ==> r == JobStep::Perform(
            Job::TypingNotice(TypingNotice::Lookup),
            Action::GetJoinedRoom(room_id),
        ),
        task matches WorkerTask::Verify(VerifyAction::Accept, sas, reply) ==> r == JobStep::Perform(
            Job::Verify(Verify::Act(VerifyAction::Accept), reply),
            Action::SasAccept(sas),
        ),
        task matches WorkerTask::Verify(action, sas, reply) ==>
            !(action is Accept) ==> r == JobStep::Perform(
            Job::Verify(Verify::Status(action, sas), reply),
            Action::SasStatus(sas),
        ),
        task matches WorkerTask::VerifyRequest(user, reply) ==> r == JobStep::Perform(
            Job::VerifyRequest(VerifyRequest::Identity(user), reply),
            Action::GetUserIdentity(user),
        ),
        task matches WorkerTask::Login(LoginStyle::SessionRestore(session), reply) ==>
            r == JobStep::Perform(
            Job::Login(LoginAndSync::Restore, reply),
            Action::RestoreLogin(session),
        ),
        task matches WorkerTask::Login(LoginStyle::Password(password), reply) ==>
            (r matches Step::Perform(
            Job::Login(LoginAndSync::Login, to),
            Action::LoginUsername { user_id: user, password: secret, device_name: name },
        ) && to == reply && user == worker.settings.profile.user_id && secret == password
            && exists|host: String| #[trigger] is_host(host) && name@ == "iamb"@ + " on "@ + host@),
{
}

/// A room is joined under the name that was given if the name can be read as a room; if it can
/// only be read as a user, the direct chats are listed first; any other name is refused.
pub proof fn law_join_request_starts<S>(
    worker: WorkerState,
    name: String,
    reply: ClientReply<IambResult<RoomId>>,
    r: JobStep,
)
    requires
        starts(worker, WorkerTask::<S>::JoinRoom(name, reply), r),
    ensures
        room_or_alias_id(name@) ==> (r matches Step::Perform(Job::JoinRoom(_, to), action) && to
            == reply && action == Action::JoinRoomByIdOrAlias(name)),
        !room_or_alias_id(name@) && user_id(name@) ==> (r matches Step::Perform(
            Job::JoinRoom(op, to),
            action,
        ) && to == reply && op@ == JoinState::Direct(
            DirectState::List(name, ListingState::Fetch(Listing::DirectMessages)),
        ) && action == Action::JoinedRooms),
        !room_or_alias_id(name@) && !user_id(name@) ==> r == JobStep::Done(
            Outcome::RoomId(reply, Err(UIError::Failure(Failure::InvalidName(name)))),
        ),
{
}

/// The client is set up for the homeserver and the directory of the selected account, keeps to
/// HTTP/1, and has these limits.
pub proof fn law_client_set_up(config: ClientConfig, settings: ApplicationSettings)
    requires
        configured(config, settings),
    ensures
        config.user_agent@ == "iamb"@,
        config.timeout == 60,
        config.pool_idle_timeout == 120,
        config.pool_max_idle_per_host == 5,
        config.http1_only,
        config.homeserver_url == settings.profile.url,
        config.store_path == settings.matrix_dir,
        config.store_passphrase is None,
        config.request_timeout == 60,
        config.retry_timeout == 60,
        QUEUE_BOUND == 5,
        WAIT_SECONDS == 1,
{
}

/// A request that arrives is carried out, and nothing else is; when nothing has arrived, the
/// worker waits; when nobody can send any more, it stops, and hands over the task that syncs,
/// whichever that is.
pub proof fn law_turns<S>(worker: WorkerState, task: WorkerTask<S>)
    ensures
        turn_of(worker, Received::Item(task)) == Turn::Run(task),
        turn_of(worker, Received::<WorkerTask<S>>::Timeout) is Wait,
        turn_of(worker, Received::<WorkerTask<S>>::Disconnected) == Turn::<S>::Stop(
            worker.sync_handle,
        ),
        worker_stopped(worker).sync_handle is None,
        worker_stopped(worker).initialized == worker.initialized,
        worker_stopped(worker).settings == worker.settings,
{
}

/// A new worker is not ready, has no task that syncs, and keeps the settings that it was given.
/// Only the request that brings the program's store makes a worker ready, and that is all that
/// a request changes when it starts. A worker takes that request, and no other, until it is
/// ready, and from then on every other.
pub proof fn law_worker_ready<S>(
    settings: ApplicationSettings,
    worker: WorkerState,
    task: WorkerTask<S>,
)
    ensures
        !fresh_worker(settings).initialized,
        fresh_worker(settings).sync_handle is None,
        fresh_worker(settings).settings == settings,
        worker_ran(worker, task).initialized == (worker.initialized || task is Init),
        worker_ran(worker, task).sync_handle == worker.sync_handle,
        worker_ran(worker, task).settings == worker.settings,
        accepts(worker, task) == (worker.initialized != task is Init),
{
}

/// The worker takes note of a task that syncs, whichever it is, when its login has started it,
/// and changes at no other event.
pub proof fn law_sync_noted(
    worker: WorkerState,
    reply: ClientReply<IambResult<EditInfo>>,
    handle: u64,
    job: Job,
    event: Event,
)
    ensures
        ({
            let after = worker_next(
                worker,
                Job::Login(LoginAndSync::Spawn, reply),
                Event::SyncStarted(handle),
            );
            &&& after.sync_handle == Some(handle)
            &&& after.initialized == worker.initialized
            &&& after.settings == worker.settings
        }),
        !(job is Login) || !(event is SyncStarted) ==> worker_next(worker, job, event) == worker,
{
}

} // verus!
