use vstd::prelude::*;

use std::sync::mpsc::{Receiver, Sender, TryRecvError};
use vmm_sys_util::eventfd::EventFd;

verus! {

#[verifier::external_type_specification]
#[verifier::external_body]
#[verifier::reject_recursive_types(T)]
pub struct ExSender<T>(Sender<T>);

#[verifier::external_type_specification]
#[verifier::external_body]
#[verifier::reject_recursive_types(T)]
pub struct ExReceiver<T>(Receiver<T>);

#[verifier::external_type_specification]
#[verifier::external_body]
pub struct ExEventFd(EventFd);

/// One attempt to take a message off a channel without blocking.
pub enum RecvAttempt<T> {
    /// A message was waiting; this is it.
    Got(T),
    /// Nothing is queued right now, but the send half is still alive.
    NothingQueued,
    /// The send half was dropped and everything queued has been taken.
    Closed,
}

/// Relies on std::sync::mpsc::channel: a connected sender/receiver pair over
/// an ordered, initially empty queue.
#[verifier::external_body]
pub(crate) fn channel_pair<T>() -> (r: (Sender<T>, Receiver<T>)) {
    std::sync::mpsc::channel()
}

/// Relies on std::sync::mpsc::Sender::send: appends the message to the
/// receiver's queue and returns true; returns false, without delivering,
/// exactly when the receive half has been dropped.
#[verifier::external_body]
pub(crate) fn channel_send<T>(tx: &Sender<T>, msg: T) -> (ok: bool) {
    tx.send(msg).is_ok()
}

/// Relies on std::sync::mpsc::Receiver::try_recv: takes the oldest queued
/// message if one is waiting, without blocking; reports an empty queue and a
/// closed channel apart.
#[verifier::external_body]
pub(crate) fn channel_try_recv<T>(rx: &Receiver<T>) -> (r: RecvAttempt<T>) {
    match rx.try_recv() {
        Ok(msg) => RecvAttempt::Got(msg),
        Err(TryRecvError::Empty) => RecvAttempt::NothingQueued,
        Err(TryRecvError::Disconnected) => RecvAttempt::Closed,
    }
}

/// Relies on std::sync::mpsc::Receiver::recv: blocks until the oldest queued
/// message can be taken (Some), or until the send half is dropped with the
/// queue empty (None).
#[verifier::external_body]
pub(crate) fn channel_recv_blocking<T>(rx: &Receiver<T>) -> (r: Option<T>) {
    rx.recv().ok()
}

/// Relies on vmm_sys_util::eventfd::EventFd::new: a fresh blocking eventfd
/// whose counter starts at zero; None when the kernel refuses one.
#[verifier::external_body]
pub(crate) fn eventfd_new() -> (r: Option<EventFd>) {
    EventFd::new(0).ok()
}

/// Relies on vmm_sys_util::eventfd::EventFd::try_clone: a second handle that
/// shares the same counter; None when duplicating the descriptor fails.
#[verifier::external_body]
pub(crate) fn eventfd_clone(fd: &EventFd) -> (r: Option<EventFd>) {
    fd.try_clone().ok()
}

/// Relies on vmm_sys_util::eventfd::EventFd::write: adds one to the counter,
/// waking a reader blocked on it; false on an I/O error.
#[verifier::external_body]
pub(crate) fn signal_write(fd: &EventFd) -> (ok: bool) {
    fd.write(1).is_ok()
}

/// Relies on vmm_sys_util::eventfd::EventFd::read: blocks until the counter
/// is nonzero, then consumes it whole; false on an I/O error.
#[verifier::external_body]
pub(crate) fn signal_wait(fd: &EventFd) -> (ok: bool) {
    fd.read().is_ok()
}

} // verus!
