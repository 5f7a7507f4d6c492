use vstd::prelude::*;

use crate::action::{Action, ActionError, ActionView, Outcome, VmmData};
use crate::errors::TransportError;
use crate::monitor::{action_views, lemma_run_preserves_wf, monitor_wf, spec_run, MonitorState};
use crate::signal::WakeupSignal;
use crate::transport::{
    channel_pair, channel_recv_blocking, channel_send, channel_try_recv, RecvAttempt,
};
use std::sync::mpsc::{Receiver, Sender};

verus! {

/// The controller-side endpoint: the send half of the request channel, the
/// receive half of the response channel, and a handle on the wakeup signal.
/// One endpoint sequences its requests strictly: `call` does not return
/// until the matching outcome is back, so at most one request of this
/// endpoint is ever in flight.
#[verifier::reject_recursive_types(Q)]
#[verifier::reject_recursive_types(R)]
pub struct ControlBridge<Q, R> {
    to_monitor: Sender<Q>,
    from_monitor: Receiver<R>,
    wakeup: WakeupSignal,
}

/// The monitor-side endpoint: the receive half of the request channel, the
/// send half of the response channel, and the wait side of the wakeup
/// signal.
#[verifier::reject_recursive_types(Q)]
#[verifier::reject_recursive_types(R)]
pub struct MonitorPort<Q, R> {
    from_controller: Receiver<Q>,
    to_controller: Sender<R>,
    wakeup: WakeupSignal,
}

impl<Q, R> ControlBridge<Q, R> {
    /// Assemble an endpoint from channel halves and a signal handle made
    /// elsewhere.
    pub fn from_parts(
        to_monitor: Sender<Q>,
        from_monitor: Receiver<R>,
        wakeup: WakeupSignal,
    ) -> (r: ControlBridge<Q, R>) {
        ControlBridge { to_monitor, from_monitor, wakeup }
    }

    /// Submit one request and block until its outcome is back: enqueue the
    /// request, wake the monitor, then wait on the response channel. Each
    /// error names the stage that failed: SendFailed when the monitor-side
    /// receive half is gone (the request was not delivered), SignalFailed
    /// when the wakeup write fails after the request was enqueued (the
    /// request must not be resent — that would duplicate it), RecvFailed
    /// when the monitor dropped its response send half without answering.
    pub fn call(&self, request: Q) -> (r: Result<R, TransportError>) {
        if !channel_send(&self.to_monitor, request) {
            return Err(TransportError::SendFailed);
        }
        if !self.wakeup.signal() {
            return Err(TransportError::SignalFailed);
        }
        match channel_recv_blocking(&self.from_monitor) {
            Some(response) => Ok(response),
            None => Err(TransportError::RecvFailed),
        }
    }
}

impl<Q, R> MonitorPort<Q, R> {
    /// Assemble the monitor-side endpoint from channel halves and a signal
    /// handle made elsewhere.
    pub fn from_parts(
        from_controller: Receiver<Q>,
        to_controller: Sender<R>,
        wakeup: WakeupSignal,
    ) -> (r: MonitorPort<Q, R>) {
        MonitorPort { from_controller, to_controller, wakeup }
    }
}

/// Build a connected bridge: a request channel, a response channel, and a
/// wakeup signal shared between the two endpoints. None when the kernel
/// refuses a signal descriptor.
pub fn make_control_pair<Q, R>() -> (r: Option<(ControlBridge<Q, R>, MonitorPort<Q, R>)>) {
    let wait_side = match WakeupSignal::create() {
        Some(s) => s,
        None => {
            return None;
        },
    };
    let write_side = match wait_side.try_clone() {
        Some(s) => s,
        None => {
            return None;
        },
    };
    let (to_monitor, from_controller) = channel_pair::<Q>();
    let (to_controller, from_monitor) = channel_pair::<R>();
    let bridge = ControlBridge { to_monitor, from_monitor, wakeup: write_side };
    let port = MonitorPort { from_controller, to_controller, wakeup: wait_side };
    Some((bridge, port))
}

/// The two error levels of one `call`, folded into a single taxonomy: either
/// the controller-monitor link itself failed, or the monitor rejected the
/// action.
#[derive(Clone, Copy, Debug, PartialEq, Eq, Structural)]
pub enum CallError {
    Transport(TransportError),
    Action(ActionError),
}

/// How the two levels of a call's result collapse into one: a transport
/// error and a domain rejection each keep their identity, and only a
/// delivered, accepted action counts as success.
pub open spec fn flatten_view(r: Result<Outcome, TransportError>) -> Result<VmmData, CallError> {
    match r {
        Ok(Ok(d)) => Ok(d),
        Ok(Err(e)) => Err(CallError::Action(e)),
        Err(t) => Err(CallError::Transport(t)),
    }
}

/// Collapse the two levels of a call's result, exactly as `flatten_view`
/// says.
pub fn flatten_outcome(r: Result<Outcome, TransportError>) -> (out: Result<VmmData, CallError>)
    ensures
        out == flatten_view(r),
{
    match r {
        Ok(Ok(d)) => Ok(d),
        Ok(Err(e)) => Err(CallError::Action(e)),
        Err(t) => Err(CallError::Transport(t)),
    }
}

/// How one wakeup cycle of the monitor ended.
#[derive(Clone, Copy, Debug, PartialEq, Eq, Structural)]
pub enum RoundEnd {
    /// The queue was drained and every drained request was answered; the
    /// request channel is still open.
    Served,
    /// The request channel's send half is dropped and its queue is drained:
    /// the monitor is done.
    Closed,
    /// The wait on the wakeup signal failed.
    WaitFailed,
}

/// One cycle of the monitor loop: block on the wakeup signal, drain the
/// request channel fully without blocking, execute the drained batch in
/// order against the monitor state, and answer with exactly one outcome per
/// request, in the same order. The queue is drained whole because a single
/// wakeup may stand for several enqueued requests. Domain rejections are
/// answered like successes; well-formedness of the monitor state is
/// preserved whatever arrives. Beside how the round ended, the result
/// carries the drained batch in ghost form: the new state is exactly the
/// in-order execution of that batch — a round changes the state in no other
/// way.
pub fn monitor_round(port: &MonitorPort<Action, Outcome>, state: &mut MonitorState) -> (r: (
    RoundEnd,
    Ghost<Seq<ActionView>>,
))
    requires
        monitor_wf(old(state)@),
    ensures
        monitor_wf(final(state)@),
        final(state)@ == spec_run(old(state)@, (r.1)@).0,
{
    if !port.wakeup.wait() {
        return (RoundEnd::WaitFailed, Ghost(Seq::empty()));
    }
    let mut batch: Vec<Action> = Vec::new();
    let mut closed = false;
    let mut draining = true;
    // More draws than a queue could ever hold, so that even the verifier
    // sees a finite pass.
    let mut draws_left: u64 = u64::MAX;
    while draining && draws_left != 0
        invariant
            monitor_wf(state@),
        decreases draws_left,
    {
        draws_left = draws_left - 1;
        match channel_try_recv(&port.from_controller) {
            RecvAttempt::Got(a) => {
                batch.push(a);
            },
            RecvAttempt::NothingQueued => {
                draining = false;
            },
            RecvAttempt::Closed => {
                draining = false;
                closed = true;
            },
        }
    }
    let ghost before = state@;
    let ghost batch_views = action_views(batch@);
    let outs = state.process_batch(batch);
    proof {
        lemma_run_preserves_wf(before, batch_views);
    }
    let mut i: usize = 0;
    while i < outs.len()
        invariant
            monitor_wf(state@),
            i <= outs.len(),
        decreases outs.len() - i,
    {
        let _ = channel_send(&port.to_controller, outs[i]);
        i = i + 1;
    }
    if closed {
        (RoundEnd::Closed, Ghost(batch_views))
    } else {
        (RoundEnd::Served, Ghost(batch_views))
    }
}

/// The monitor loop: serve one wakeup cycle after another until the request
/// channel closes. Exit code 0 means a clean end — the controller side
/// dropped its send half and everything enqueued before that was answered.
/// Exit code 1 means the loop gave up abnormally: the wakeup signal failed,
/// or the served-wakeup count exceeded what any real run can reach.
pub fn run_monitor(port: MonitorPort<Action, Outcome>, state: &mut MonitorState) -> (rc: i32)
    requires
        monitor_wf(old(state)@),
    ensures
        monitor_wf(final(state)@),
        rc == 0 || rc == 1,
{
    let mut rounds_left: u64 = u64::MAX;
    while rounds_left != 0
        invariant
            monitor_wf(state@),
        decreases rounds_left,
    {
        rounds_left = rounds_left - 1;
        let (end, _) = monitor_round(&port, state);
        match end {
            RoundEnd::Served => {},
            RoundEnd::Closed => {
                return 0;
            },
            RoundEnd::WaitFailed => {
                return 1;
            },
        }
    }
    1
}

} // verus!
