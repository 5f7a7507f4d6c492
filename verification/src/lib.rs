//! A control bridge that lets a controller thread drive the lifecycle of a
//! virtual-machine monitor running on a worker thread: an ordered request
//! channel, an ordered response channel, and an eventfd wakeup signal, paired
//! into a synchronous call discipline — submit one action, signal, block for
//! the matching outcome. The monitor side owns the VM state, drains the
//! request queue fully on every wakeup, and answers every drained request in
//! order.

mod action;
mod bridge;
mod config;
mod errors;
mod monitor;
mod signal;
mod transport;

pub use action::{Action, ActionError, ActionView, Outcome, VmmData};
pub use bridge::{
    flatten_outcome, flatten_view, make_control_pair, monitor_round, run_monitor, CallError,
    ControlBridge, MonitorPort, RoundEnd,
};
pub use config::{
    boot_source_acceptable, boot_source_ok, vm_config_acceptable, vm_config_ok, BootSourceConfig,
    BootSourceConfigView, VmConfig, VmConfigView,
};
pub use errors::TransportError;
pub use monitor::{
    action_views, init_monitor_view, lemma_monitor_preserves_order, lemma_one_in_flight,
    lemma_run_append, lemma_run_preserves_wf, lemma_step_preserves_wf, monitor_wf, spec_run,
    spec_step, MonitorState, MonitorStateView, VmPhase,
};
pub use signal::WakeupSignal;
