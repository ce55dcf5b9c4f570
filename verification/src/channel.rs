//! The channels between the worker and those that ask it.
//!
//! The two halves of a channel are opaque, and what a receiver gets depends on when other
//! threads send. So the contracts tie a result to the call that it came from: they say that
//! it is one of those that the call can have, on that channel and with that item, and not
//! which one.
use std::sync::mpsc::{sync_channel, Receiver, RecvTimeoutError, SyncSender};
use std::time::Duration;

use vstd::prelude::*;

verus! {

/// The receiving half of a standard channel, carried as an opaque value.
#[verifier::external_type_specification]
#[verifier::external_body]
#[verifier::reject_recursive_types(T)]
pub struct ExReceiver<T>(Receiver<T>);

/// The sending half of a bounded standard channel, carried as an opaque value.
#[verifier::external_type_specification]
#[verifier::external_body]
#[verifier::reject_recursive_types(T)]
pub struct ExSyncSender<T>(SyncSender<T>);

/// The other half of a channel is gone.
#[derive(Clone, Copy, Debug, PartialEq, Eq, Structural)]
pub struct Disconnected;

/// What waiting on a queue for a limited time comes to.
#[derive(Debug)]
pub enum Received<T> {
    /// An item arrived.
    Item(T),
    /// Nothing arrived in time.
    Timeout,
    /// Every sender is gone and the queue is empty.
    Disconnected,
}

/// Calls `std::sync::mpsc::sync_channel`: a channel that holds `bound` items.
///
/// The contract claims nothing. That what goes into the one half arrives in the other, and
/// that a sender has to wait once the channel holds `bound` items, is left unsaid: a channel
/// has no state that a contract could speak of.
#[verifier::external_body]
fn bounded<T>(bound: usize) -> (r: (SyncSender<T>, Receiver<T>)) {
    sync_channel(bound)
}

/// Calls `SyncSender::clone`: another sender of the same channel.
///
/// The contract claims nothing: a sender is opaque.
#[verifier::external_body]
fn another_sender<T>(tx: &SyncSender<T>) -> (r: SyncSender<T>) {
    tx.clone()
}

/// Calls `SyncSender::send`, which waits while the channel is full.
///
/// The contract claims that an item which could not be sent, because the receiver is gone,
/// is given back unchanged. When that happens depends on other threads and is left unsaid.
#[verifier::external_body]
fn send_on<T>(tx: &SyncSender<T>, t: T) -> (r: Result<(), T>)
    ensures
        r matches Err(unsent) ==> unsent == t,
{
    match tx.send(t) {
        Ok(()) => Ok(()),
        Err(e) => Err(e.0),
    }
}

/// Calls `Receiver::recv`, which waits until there is an item or every sender is gone.
///
/// The contract claims nothing: which of the two it comes to, and which item is received,
/// depends on other threads.
#[verifier::external_body]
fn receive_from<T>(rx: &Receiver<T>) -> (r: Result<T, Disconnected>) {
    match rx.recv() {
        Ok(t) => Ok(t),
        Err(_) => Err(Disconnected),
    }
}

/// Calls `Receiver::recv_timeout`, which waits like `recv`, but no longer than the seconds
/// given.
///
/// The contract claims nothing: what it comes to depends on other threads and on time.
#[verifier::external_body]
fn receive_within<T>(rx: &Receiver<T>, seconds: u64) -> (r: Received<T>) {
    match rx.recv_timeout(Duration::from_secs(seconds)) {
        Ok(t) => Received::Item(t),
        Err(RecvTimeoutError::Timeout) => Received::Timeout,
        Err(RecvTimeoutError::Disconnected) => Received::Disconnected,
    }
}

/// The two halves are a pair that `sync_channel` gives for a channel of `bound` items.
pub closed spec fn made<T>(bound: usize, tx: SyncSender<T>, rx: Receiver<T>) -> bool {
    call_ensures(bounded::<T>, (bound,), (tx, rx))
}

/// The second is a sender that `SyncSender::clone` gives for the first: both send into one
/// channel.
pub closed spec fn twin<T>(tx: SyncSender<T>, other: SyncSender<T>) -> bool {
    call_ensures(another_sender::<T>, (&tx,), other)
}

/// Sending the item through this sender can work, or else can give the item back.
pub closed spec fn can_send<T>(tx: SyncSender<T>, item: T, taken: bool) -> bool {
    if taken {
        call_ensures(send_on::<T>, (&tx, item), Ok(()))
    } else {
        call_ensures(send_on::<T>, (&tx, item), Err(item))
    }
}

/// Waiting for an item at this receiver can come to this item, or else to none.
pub closed spec fn can_receive<T>(rx: Receiver<T>, item: Option<T>) -> bool {
    match item {
        Some(item) => call_ensures(receive_from::<T>, (&rx,), Ok(item)),
        None => call_ensures(receive_from::<T>, (&rx,), Err(Disconnected)),
    }
}

/// Waiting for an item at this receiver, for so many seconds at most, can come to `r`.
pub closed spec fn can_receive_within<T>(rx: Receiver<T>, seconds: u64, r: Received<T>) -> bool {
    call_ensures(receive_within::<T>, (&rx, seconds), r)
}

/// Makes a channel that holds `bound` items.
pub(crate) fn make_channel<T>(bound: usize) -> (r: (SyncSender<T>, Receiver<T>))
    ensures
        made(bound, r.0, r.1),
{
    bounded(bound)
}

/// Makes another sender of the same channel.
pub(crate) fn clone_sender<T>(tx: &SyncSender<T>) -> (r: SyncSender<T>)
    ensures
        twin(*tx, r),
{
    another_sender(tx)
}

/// Sends an item, and gives it back if the receiver is gone.
pub(crate) fn send_item<T>(tx: &SyncSender<T>, item: T) -> (r: Result<(), T>)
    ensures
        can_send(*tx, item, r is Ok),
        r matches Err(unsent) ==> unsent == item,
{
    let r = send_on(tx, item);
    assert(r matches Ok(done) ==> done == ());
    r
}

/// Waits for an item, for so many seconds at most.
pub(crate) fn wait_for_item<T>(rx: &Receiver<T>, seconds: u64) -> (r: Received<T>)
    ensures
        can_receive_within(*rx, seconds, r),
{
    receive_within(rx, seconds)
}

/// Where the answer to a request arrives.
#[verifier::reject_recursive_types(T)]
pub struct ClientResponse<T>(Receiver<T>);

/// Where the answer to a request goes.
#[verifier::reject_recursive_types(T)]
pub struct ClientReply<T>(SyncSender<T>);

/// The two are a pair that `sync_channel` gives for a channel of one answer.
pub closed spec fn paired<T>(reply: ClientReply<T>, response: ClientResponse<T>) -> bool {
    made(1, reply.0, response.0)
}

impl<T> ClientResponse<T> {
    /// Waiting for the answer can come to this one, or else to none.
    pub closed spec fn can_come_to(self, answer: Option<T>) -> bool {
        can_receive(self.0, answer)
    }

    /// Waits for the answer; there is none if whoever was asked went away without one.
    /// Which answer it is depends on them, and is left unsaid.
    pub fn recv(self) -> (r: Result<T, Disconnected>)
        ensures
            match r {
                Ok(answer) => self.can_come_to(Some(answer)),
                Err(_) => self.can_come_to(None),
            },
    {
        let r = receive_from(&self.0);
        assert(r matches Err(gone) ==> gone == Disconnected);
        r
    }
}

impl<T> ClientReply<T> {
    /// Sending the answer can work, or else can give the answer back.
    pub closed spec fn can_come_to(self, answer: T, taken: bool) -> bool {
        can_send(self.0, answer, taken)
    }

    /// Sends the answer, and gives it back if nobody waits for it any more.
    pub fn send(self, t: T) -> (r: Result<(), T>)
        ensures
            self.can_come_to(t, r is Ok),
            r matches Err(unsent) ==> unsent == t,
    {
        send_item(&self.0, t)
    }
}

/// A channel for the answer to one request.
pub fn oneshot<T>() -> (r: (ClientReply<T>, ClientResponse<T>))
    ensures
        paired(r.0, r.1),
{
    let (tx, rx) = make_channel(1);
    (ClientReply(tx), ClientResponse(rx))
}

} // verus!
