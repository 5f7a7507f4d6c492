use vstd::prelude::*;

use crate::transport::{eventfd_clone, eventfd_new, signal_wait, signal_write};
use vmm_sys_util::eventfd::EventFd;

verus! {

/// The cross-thread wakeup primitive: one kernel counter, written by the
/// controller side to say "at least one request may be pending" and consumed
/// by the monitor side. It carries no payload and no exact count the monitor
/// may trust: a single wakeup can stand for several enqueued requests, so a
/// woken monitor must drain its queue fully.
#[derive(Debug)]
pub struct WakeupSignal {
    fd: EventFd,
}

impl WakeupSignal {
    /// A fresh signal with its counter at zero; None when the kernel refuses
    /// the descriptor.
    pub fn create() -> (r: Option<WakeupSignal>) {
        match eventfd_new() {
            Some(fd) => Some(WakeupSignal { fd }),
            None => None,
        }
    }

    /// A second handle on the same counter, for the other thread; None when
    /// duplicating the descriptor fails.
    pub fn try_clone(&self) -> (r: Option<WakeupSignal>) {
        match eventfd_clone(&self.fd) {
            Some(fd) => Some(WakeupSignal { fd }),
            None => None,
        }
    }

    /// Wake the waiting side: add one to the counter without blocking. False
    /// when the descriptor cannot be written; the caller treats that as a
    /// transport failure, since the monitor may then sleep through a pending
    /// request.
    pub fn signal(&self) -> (ok: bool) {
        signal_write(&self.fd)
    }

    /// Block until the counter is nonzero, then consume it whole. Any true
    /// return means no more than "check the queue". False on an I/O error on
    /// the descriptor.
    pub fn wait(&self) -> (ok: bool) {
        signal_wait(&self.fd)
    }
}

} // verus!
