use vstd::prelude::*;

use crate::config::{BootSourceConfig, BootSourceConfigView, VmConfig, VmConfigView};

verus! {

/// One VM lifecycle operation, submitted by the controller and executed by
/// the monitor. Variants are immutable once constructed.
#[derive(Debug)]
pub enum Action {
    SetVmConfiguration(VmConfig),
    ConfigureBootSource(BootSourceConfig),
    StartMicroVm,
}

/// Mathematical image of an `Action`.
pub enum ActionView {
    SetVmConfiguration(VmConfigView),
    ConfigureBootSource(BootSourceConfigView),
    StartMicroVm,
}

impl View for Action {
    type V = ActionView;

    open spec fn view(&self) -> ActionView {
        match self {
            Action::SetVmConfiguration(c) => ActionView::SetVmConfiguration(c@),
            Action::ConfigureBootSource(b) => ActionView::ConfigureBootSource(b@),
            Action::StartMicroVm => ActionView::StartMicroVm,
        }
    }
}

/// The payload of a successful action. The lifecycle operations modeled here
/// return no data, so there is a single empty variant.
#[derive(Clone, Copy, Debug, PartialEq, Eq, Structural)]
pub enum VmmData {
    Empty,
}

/// A domain-level rejection of an action by the monitor. Delivered inside a
/// successful transport exchange, unlike a `TransportError`.
#[derive(Clone, Copy, Debug, PartialEq, Eq, Structural)]
pub enum ActionError {
    /// The submitted machine configuration is not acceptable.
    InvalidVmConfiguration,
    /// A step that needs a machine configuration ran before one was set.
    VmNotConfigured,
    /// The submitted boot source is not acceptable.
    InvalidBootSource,
    /// Start was requested before a boot source was configured.
    BootSourceNotConfigured,
    /// A configuration step or second start arrived after the VM started.
    VmAlreadyRunning,
}

/// What the monitor sends back for one request: domain success or a
/// domain-specific rejection.
pub type Outcome = Result<VmmData, ActionError>;

} // verus!
