use vstd::prelude::*;

use crate::action::{Action, ActionError, ActionView, Outcome, VmmData};
use crate::config::{
    boot_source_acceptable, boot_source_ok, vm_config_acceptable, vm_config_ok, BootSourceConfig,
    BootSourceConfigView, VmConfig, VmConfigView,
};

verus! {

/// Where the monitor stands in the VM lifecycle.
#[derive(Clone, Copy, Debug, PartialEq, Eq, Structural)]
pub enum VmPhase {
    /// No machine configuration has been accepted yet.
    NotConfigured,
    /// A machine configuration is set; no boot source yet.
    Configured,
    /// Machine configuration and boot source are both set.
    BootReady,
    /// The VM has been started.
    Running,
}

/// The monitor's whole state: the lifecycle phase and the configurations
/// accepted so far. Owned by the monitor loop alone; the controller reaches
/// it only through the request/response exchange.
pub struct MonitorState {
    pub phase: VmPhase,
    pub vm_config: Option<VmConfig>,
    pub boot_source: Option<BootSourceConfig>,
}

/// Mathematical image of a `MonitorState`.
pub struct MonitorStateView {
    pub phase: VmPhase,
    pub vm_config: Option<VmConfigView>,
    pub boot_source: Option<BootSourceConfigView>,
}

impl View for MonitorState {
    type V = MonitorStateView;

    open spec fn view(&self) -> MonitorStateView {
        MonitorStateView {
            phase: self.phase,
            vm_config: match self.vm_config {
                Some(c) => Some(c@),
                None => None,
            },
            boot_source: match self.boot_source {
                Some(b) => Some(b@),
                None => None,
            },
        }
    }
}

/// The state a monitor starts in: nothing configured.
pub open spec fn init_monitor_view() -> MonitorStateView {
    MonitorStateView { phase: VmPhase::NotConfigured, vm_config: None, boot_source: None }
}

/// Well-formedness of a monitor state: the phase agrees with which
/// configurations are present, and whatever is stored was acceptable.
pub open spec fn monitor_wf(s: MonitorStateView) -> bool {
    &&& (s.phase is NotConfigured <==> s.vm_config is None)
    &&& ((s.phase is NotConfigured || s.phase is Configured) <==> s.boot_source is None)
    &&& (match s.vm_config {
        Some(c) => vm_config_acceptable(c),
        None => true,
    })
    &&& (match s.boot_source {
        Some(b) => boot_source_acceptable(b),
        None => true,
    })
}

/// What executing one action does: the state after it, and the outcome the
/// monitor answers with. Configuration steps are rejected once the VM runs;
/// a boot source needs a machine configuration first; start needs both.
pub open spec fn spec_step(s: MonitorStateView, a: ActionView) -> (MonitorStateView, Outcome) {
    match a {
        ActionView::SetVmConfiguration(c) => {
            if s.phase is Running {
                (s, Err(ActionError::VmAlreadyRunning))
            } else if !vm_config_acceptable(c) {
                (s, Err(ActionError::InvalidVmConfiguration))
            } else {
                (
                    MonitorStateView {
                        phase: if s.phase is NotConfigured {
                            VmPhase::Configured
                        } else {
                            s.phase
                        },
                        vm_config: Some(c),
                        ..s
                    },
                    Ok(VmmData::Empty),
                )
            }
        },
        ActionView::ConfigureBootSource(b) => {
            if s.phase is Running {
                (s, Err(ActionError::VmAlreadyRunning))
            } else if s.phase is NotConfigured {
                (s, Err(ActionError::VmNotConfigured))
            } else if !boot_source_acceptable(b) {
                (s, Err(ActionError::InvalidBootSource))
            } else {
                (
                    MonitorStateView { phase: VmPhase::BootReady, boot_source: Some(b), ..s },
                    Ok(VmmData::Empty),
                )
            }
        },
        ActionView::StartMicroVm => {
            match s.phase {
                VmPhase::NotConfigured => (s, Err(ActionError::VmNotConfigured)),
                VmPhase::Configured => (s, Err(ActionError::BootSourceNotConfigured)),
                VmPhase::BootReady => (
                    MonitorStateView { phase: VmPhase::Running, ..s },
                    Ok(VmmData::Empty),
                ),
                VmPhase::Running => (s, Err(ActionError::VmAlreadyRunning)),
            }
        },
    }
}

/// What executing a whole sequence of actions does, one after the other in
/// order: the final state, and one outcome per action, in the same order.
pub open spec fn spec_run(s: MonitorStateView, acts: Seq<ActionView>) -> (
    MonitorStateView,
    Seq<Outcome>,
)
    decreases acts.len(),
{
    if acts.len() == 0 {
        (s, Seq::empty())
    } else {
        let prev = spec_run(s, acts.drop_last());
        let last = spec_step(prev.0, acts.last());
        (last.0, prev.1.push(last.1))
    }
}

/// The views of a sequence of concrete actions.
pub open spec fn action_views(s: Seq<Action>) -> Seq<ActionView> {
    s.map_values(|a: Action| a@)
}

/// Executing one action preserves well-formedness of the monitor state.
pub proof fn lemma_step_preserves_wf(s: MonitorStateView, a: ActionView)
    requires
        monitor_wf(s),
    ensures
        monitor_wf(spec_step(s, a).0),
{
}

/// Executing any sequence of actions preserves well-formedness.
pub proof fn lemma_run_preserves_wf(s: MonitorStateView, acts: Seq<ActionView>)
    requires
        monitor_wf(s),
    ensures
        monitor_wf(spec_run(s, acts).0),
    decreases acts.len(),
{
    if acts.len() > 0 {
        lemma_run_preserves_wf(s, acts.drop_last());
        lemma_step_preserves_wf(spec_run(s, acts.drop_last()).0, acts.last());
    }
}

/// Ordering: a monitor that executes a sequence of actions produces exactly
/// one outcome per action, and the i-th outcome is the result of executing
/// the i-th action in the state reached after the first i actions. The
/// execution order therefore equals the issue order.
pub proof fn lemma_monitor_preserves_order(s: MonitorStateView, acts: Seq<ActionView>)
    ensures
        spec_run(s, acts).1.len() == acts.len(),
        forall|i: int|
            0 <= i < acts.len() ==> #[trigger] spec_run(s, acts).1[i] == spec_step(
                spec_run(s, acts.take(i)).0,
                acts[i],
            ).1,
    decreases acts.len(),
{
    if acts.len() > 0 {
        let pre = acts.drop_last();
        lemma_monitor_preserves_order(s, pre);
        assert forall|i: int| 0 <= i < acts.len() implies #[trigger] spec_run(s, acts).1[i]
            == spec_step(spec_run(s, acts.take(i)).0, acts[i]).1 by {
            if i < acts.len() - 1 {
                assert(pre.take(i) =~= acts.take(i));
                assert(spec_run(s, acts).1[i] == spec_run(s, pre).1[i]);
            } else {
                assert(acts.take(i) =~= pre);
                assert(acts[i] == acts.last());
            }
        }
    }
}

/// Batching changes nothing: executing two sequences of actions one after
/// the other leaves the same state, and the same outcomes in the same order,
/// as executing their concatenation in one pass. A wakeup that coalesces
/// several requests into one drained batch therefore answers exactly as
/// separate wakeups would have.
pub proof fn lemma_run_append(s: MonitorStateView, a: Seq<ActionView>, b: Seq<ActionView>)
    ensures
        spec_run(s, a + b).0 == spec_run(spec_run(s, a).0, b).0,
        spec_run(s, a + b).1 =~= spec_run(s, a).1 + spec_run(spec_run(s, a).0, b).1,
    decreases b.len(),
{
    if b.len() == 0 {
        assert(a + b =~= a);
        assert(spec_run(s, a).1 + spec_run(spec_run(s, a).0, b).1 =~= spec_run(s, a).1);
    } else {
        lemma_run_append(s, a, b.drop_last());
        assert((a + b).drop_last() =~= a + b.drop_last());
        assert((a + b).last() == b.last());
    }
}

/// One request in flight: when the controller issues `a` and issues `b` only
/// after a's outcome is back, the monitor computes a's outcome from the
/// starting state alone, and executes `b` only in the state that already
/// reflects a's execution — it never sees `b` before a's outcome exists.
pub proof fn lemma_one_in_flight(s: MonitorStateView, a: ActionView, b: ActionView)
    ensures
        spec_run(s, seq![a, b]).1 =~= seq![
            spec_step(s, a).1,
            spec_step(spec_step(s, a).0, b).1,
        ],
        spec_run(s, seq![a, b]).0 == spec_step(spec_step(s, a).0, b).0,
{
    let none = Seq::<ActionView>::empty();
    let one = seq![a];
    let both = seq![a, b];
    assert(spec_run(s, none).0 == s);
    assert(one.drop_last() =~= none);
    assert(one.last() == a);
    assert(spec_run(s, one).0 == spec_step(s, a).0);
    assert(spec_run(s, one).1 =~= seq![spec_step(s, a).1]);
    assert(both.drop_last() =~= one);
    assert(both.last() == b);
}

impl MonitorState {
    /// A fresh monitor with nothing configured.
    pub fn new() -> (r: MonitorState)
        ensures
            r@ == init_monitor_view(),
            monitor_wf(r@),
    {
        MonitorState { phase: VmPhase::NotConfigured, vm_config: None, boot_source: None }
    }

    /// Execute one action: update the state and answer with one outcome,
    /// exactly as `spec_step` says.
    pub fn handle_action(&mut self, a: Action) -> (r: Outcome)
        ensures
            final(self)@ == spec_step(old(self)@, a@).0,
            r == spec_step(old(self)@, a@).1,
    {
        match a {
            Action::SetVmConfiguration(c) => {
                if self.phase == VmPhase::Running {
                    Err(ActionError::VmAlreadyRunning)
                } else if !vm_config_ok(&c) {
                    Err(ActionError::InvalidVmConfiguration)
                } else {
                    if self.phase == VmPhase::NotConfigured {
                        self.phase = VmPhase::Configured;
                    }
                    self.vm_config = Some(c);
                    Ok(VmmData::Empty)
                }
            },
            Action::ConfigureBootSource(b) => {
                if self.phase == VmPhase::Running {
                    Err(ActionError::VmAlreadyRunning)
                } else if self.phase == VmPhase::NotConfigured {
                    Err(ActionError::VmNotConfigured)
                } else if !boot_source_ok(&b) {
                    Err(ActionError::InvalidBootSource)
                } else {
                    self.phase = VmPhase::BootReady;
                    self.boot_source = Some(b);
                    Ok(VmmData::Empty)
                }
            },
            Action::StartMicroVm => {
                match self.phase {
                    VmPhase::NotConfigured => Err(ActionError::VmNotConfigured),
                    VmPhase::Configured => Err(ActionError::BootSourceNotConfigured),
                    VmPhase::BootReady => {
                        self.phase = VmPhase::Running;
                        Ok(VmmData::Empty)
                    },
                    VmPhase::Running => Err(ActionError::VmAlreadyRunning),
                }
            },
        }
    }

    /// The monitor's processing phase for one batch of drained requests:
    /// execute every request in order and produce exactly one outcome per
    /// request, in the same order — never fewer than were drained.
    pub fn process_batch(&mut self, actions: Vec<Action>) -> (outs: Vec<Outcome>)
        ensures
            final(self)@ == spec_run(old(self)@, action_views(actions@)).0,
            outs@ == spec_run(old(self)@, action_views(actions@)).1,
            outs@.len() == actions@.len(),
    {
        let ghost all = actions@;
        let ghost s0 = self@;
        let mut rest = actions;
        let mut outs: Vec<Outcome> = Vec::new();
        let ghost mut i: int = 0;
        while rest.len() != 0
            invariant
                0 <= i <= all.len(),
                rest@ =~= all.skip(i),
                self@ == spec_run(s0, action_views(all.take(i))).0,
                outs@ == spec_run(s0, action_views(all.take(i))).1,
                outs@.len() == i,
            decreases rest@.len(),
        {
            let a = rest.remove(0);
            proof {
                assert(a == all[i]);
                let taken = action_views(all.take(i + 1));
                assert(taken.drop_last() =~= action_views(all.take(i)));
                assert(taken.last() == all[i]@);
            }
            let o = self.handle_action(a);
            outs.push(o);
            proof {
                i = i + 1;
                assert(rest@ =~= all.skip(i));
            }
        }
        proof {
            assert(all.take(i) =~= all);
        }
        outs
    }
}

} // verus!
