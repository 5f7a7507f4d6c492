use vmm_bridge::{Action, ActionError, BootSourceConfig, MonitorState, VmConfig, VmPhase, VmmData};

fn vm_cfg(mem_size_mib: u64, vcpu_count: u8, max_vcpu_count: u8) -> VmConfig {
    VmConfig {
        mem_size_mib,
        vcpu_count,
        max_vcpu_count,
        mem_type: String::from("shmem"),
        mem_file_path: String::new(),
        serial_path: Some(String::from("/tmp/console.sock")),
    }
}

fn boot_cfg(kernel: &str) -> BootSourceConfig {
    BootSourceConfig {
        kernel_path: String::from(kernel),
        initrd_path: Some(String::from("/root/initrd.img")),
        boot_args: Some(String::from("console=ttyS0 reboot=k panic=1 pci=off")),
    }
}

#[test]
fn lifecycle_sequence_succeeds() {
    let mut m = MonitorState::new();
    assert_eq!(m.phase, VmPhase::NotConfigured);

    let r1 = m.handle_action(Action::SetVmConfiguration(vm_cfg(512, 1, 1)));
    assert_eq!(r1, Ok(VmmData::Empty));
    assert_eq!(m.phase, VmPhase::Configured);

    let r2 = m.handle_action(Action::ConfigureBootSource(boot_cfg("/boot/vmlinux")));
    assert_eq!(r2, Ok(VmmData::Empty));
    assert_eq!(m.phase, VmPhase::BootReady);

    let r3 = m.handle_action(Action::StartMicroVm);
    assert_eq!(r3, Ok(VmmData::Empty));
    assert_eq!(m.phase, VmPhase::Running);

    let stored = m.vm_config.as_ref().unwrap();
    assert_eq!(stored.mem_size_mib, 512);
    assert_eq!(stored.vcpu_count, 1);
    let boot = m.boot_source.as_ref().unwrap();
    assert_eq!(boot.kernel_path, "/boot/vmlinux");
}

#[test]
fn zero_vcpu_config_rejected() {
    let mut m = MonitorState::new();
    let r = m.handle_action(Action::SetVmConfiguration(vm_cfg(512, 0, 1)));
    assert_eq!(r, Err(ActionError::InvalidVmConfiguration));
    assert_eq!(m.phase, VmPhase::NotConfigured);
    assert!(m.vm_config.is_none());
}

#[test]
fn vcpu_above_max_rejected() {
    let mut m = MonitorState::new();
    let r = m.handle_action(Action::SetVmConfiguration(vm_cfg(512, 2, 1)));
    assert_eq!(r, Err(ActionError::InvalidVmConfiguration));
}

#[test]
fn zero_memory_rejected() {
    let mut m = MonitorState::new();
    let r = m.handle_action(Action::SetVmConfiguration(vm_cfg(0, 1, 1)));
    assert_eq!(r, Err(ActionError::InvalidVmConfiguration));
}

#[test]
fn start_before_configuration_rejected() {
    let mut m = MonitorState::new();
    let r = m.handle_action(Action::StartMicroVm);
    assert_eq!(r, Err(ActionError::VmNotConfigured));
}

#[test]
fn start_without_boot_source_rejected() {
    let mut m = MonitorState::new();
    assert!(m.handle_action(Action::SetVmConfiguration(vm_cfg(256, 1, 2))).is_ok());
    let r = m.handle_action(Action::StartMicroVm);
    assert_eq!(r, Err(ActionError::BootSourceNotConfigured));
}

#[test]
fn boot_source_before_configuration_rejected() {
    let mut m = MonitorState::new();
    let r = m.handle_action(Action::ConfigureBootSource(boot_cfg("/boot/vmlinux")));
    assert_eq!(r, Err(ActionError::VmNotConfigured));
}

#[test]
fn empty_kernel_path_rejected() {
    let mut m = MonitorState::new();
    assert!(m.handle_action(Action::SetVmConfiguration(vm_cfg(256, 1, 1))).is_ok());
    let r = m.handle_action(Action::ConfigureBootSource(boot_cfg("")));
    assert_eq!(r, Err(ActionError::InvalidBootSource));
    assert_eq!(m.phase, VmPhase::Configured);
}

#[test]
fn reconfiguration_after_start_rejected() {
    let mut m = MonitorState::new();
    assert!(m.handle_action(Action::SetVmConfiguration(vm_cfg(512, 1, 1))).is_ok());
    assert!(m.handle_action(Action::ConfigureBootSource(boot_cfg("/boot/vmlinux"))).is_ok());
    assert!(m.handle_action(Action::StartMicroVm).is_ok());

    let r1 = m.handle_action(Action::SetVmConfiguration(vm_cfg(1024, 2, 2)));
    assert_eq!(r1, Err(ActionError::VmAlreadyRunning));
    let r2 = m.handle_action(Action::ConfigureBootSource(boot_cfg("/boot/other")));
    assert_eq!(r2, Err(ActionError::VmAlreadyRunning));
    let r3 = m.handle_action(Action::StartMicroVm);
    assert_eq!(r3, Err(ActionError::VmAlreadyRunning));
    assert_eq!(m.vm_config.as_ref().unwrap().mem_size_mib, 512);
}

#[test]
fn reconfiguration_before_start_replaces_config() {
    let mut m = MonitorState::new();
    assert!(m.handle_action(Action::SetVmConfiguration(vm_cfg(256, 1, 1))).is_ok());
    assert!(m.handle_action(Action::SetVmConfiguration(vm_cfg(1024, 2, 4))).is_ok());
    assert_eq!(m.phase, VmPhase::Configured);
    assert_eq!(m.vm_config.as_ref().unwrap().mem_size_mib, 1024);
    assert_eq!(m.vm_config.as_ref().unwrap().vcpu_count, 2);
}

#[test]
fn largest_configuration_accepted() {
    let mut m = MonitorState::new();
    let r = m.handle_action(Action::SetVmConfiguration(vm_cfg(u64::MAX, u8::MAX, u8::MAX)));
    assert_eq!(r, Ok(VmmData::Empty));
    assert_eq!(m.phase, VmPhase::Configured);
    assert_eq!(m.vm_config.as_ref().unwrap().mem_size_mib, u64::MAX);
}

#[test]
fn batch_drains_every_request() {
    let mut m = MonitorState::new();
    let batch = vec![
        Action::SetVmConfiguration(vm_cfg(512, 1, 1)),
        Action::ConfigureBootSource(boot_cfg("/boot/vmlinux")),
    ];
    let outs = m.process_batch(batch);
    assert_eq!(outs.len(), 2);
    assert_eq!(outs[0], Ok(VmmData::Empty));
    assert_eq!(outs[1], Ok(VmmData::Empty));
    assert_eq!(m.phase, VmPhase::BootReady);
}

#[test]
fn batch_outcomes_follow_issue_order() {
    let mut m = MonitorState::new();
    // Each position gets a distinct outcome, so the answer order shows the
    // execution order.
    let batch = vec![
        Action::StartMicroVm,
        Action::SetVmConfiguration(vm_cfg(1, 1, 1)),
        Action::StartMicroVm,
        Action::SetVmConfiguration(vm_cfg(2, 0, 1)),
        Action::SetVmConfiguration(vm_cfg(3, 1, 1)),
    ];
    let outs = m.process_batch(batch);
    assert_eq!(
        outs,
        vec![
            Err(ActionError::VmNotConfigured),
            Ok(VmmData::Empty),
            Err(ActionError::BootSourceNotConfigured),
            Err(ActionError::InvalidVmConfiguration),
            Ok(VmmData::Empty),
        ]
    );
    // The last accepted configuration is the one that sticks.
    assert_eq!(m.vm_config.as_ref().unwrap().mem_size_mib, 3);
}

#[test]
fn batch_on_empty_queue_answers_nothing() {
    let mut m = MonitorState::new();
    let outs = m.process_batch(Vec::new());
    assert!(outs.is_empty());
    assert_eq!(m.phase, VmPhase::NotConfigured);
}
