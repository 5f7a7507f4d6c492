use vstd::prelude::*;
use vstd::string::StrSliceExecFns;

verus! {

/// Machine-level configuration for a microVM: memory size, vCPU counts,
/// memory backing, and an optional serial console path. The bridge transports
/// these records verbatim; only the monitor interprets them.
#[derive(Debug)]
pub struct VmConfig {
    pub mem_size_mib: u64,
    pub vcpu_count: u8,
    pub max_vcpu_count: u8,
    pub mem_type: String,
    pub mem_file_path: String,
    pub serial_path: Option<String>,
}

/// Mathematical image of a `VmConfig`.
pub struct VmConfigView {
    pub mem_size_mib: int,
    pub vcpu_count: int,
    pub max_vcpu_count: int,
    pub mem_type: Seq<char>,
    pub mem_file_path: Seq<char>,
    pub serial_path: Option<Seq<char>>,
}

impl View for VmConfig {
    type V = VmConfigView;

    open spec fn view(&self) -> VmConfigView {
        VmConfigView {
            mem_size_mib: self.mem_size_mib as int,
            vcpu_count: self.vcpu_count as int,
            max_vcpu_count: self.max_vcpu_count as int,
            mem_type: self.mem_type@,
            mem_file_path: self.mem_file_path@,
            serial_path: match self.serial_path {
                Some(s) => Some(s@),
                None => None,
            },
        }
    }
}

/// A machine configuration the monitor accepts: at least one vCPU, no more
/// vCPUs than the declared maximum, and a non-zero memory size.
pub open spec fn vm_config_acceptable(c: VmConfigView) -> bool {
    &&& 1 <= c.vcpu_count
    &&& c.vcpu_count <= c.max_vcpu_count
    &&& 1 <= c.mem_size_mib
}

/// Decides `vm_config_acceptable` on a concrete configuration.
pub fn vm_config_ok(c: &VmConfig) -> (r: bool)
    ensures
        r == vm_config_acceptable(c@),
{
    1 <= c.vcpu_count && c.vcpu_count <= c.max_vcpu_count && 1 <= c.mem_size_mib
}

/// Where the guest boots from: a kernel image, and optionally an initrd and
/// a boot argument string.
#[derive(Debug)]
pub struct BootSourceConfig {
    pub kernel_path: String,
    pub initrd_path: Option<String>,
    pub boot_args: Option<String>,
}

/// Mathematical image of a `BootSourceConfig`.
pub struct BootSourceConfigView {
    pub kernel_path: Seq<char>,
    pub initrd_path: Option<Seq<char>>,
    pub boot_args: Option<Seq<char>>,
}

impl View for BootSourceConfig {
    type V = BootSourceConfigView;

    open spec fn view(&self) -> BootSourceConfigView {
        BootSourceConfigView {
            kernel_path: self.kernel_path@,
            initrd_path: match self.initrd_path {
                Some(s) => Some(s@),
                None => None,
            },
            boot_args: match self.boot_args {
                Some(s) => Some(s@),
                None => None,
            },
        }
    }
}

/// A boot source the monitor accepts: the kernel path is not empty.
pub open spec fn boot_source_acceptable(b: BootSourceConfigView) -> bool {
    b.kernel_path.len() > 0
}

/// Decides `boot_source_acceptable` on a concrete configuration.
pub fn boot_source_ok(b: &BootSourceConfig) -> (r: bool)
    ensures
        r == boot_source_acceptable(b@),
{
    b.kernel_path.as_str().unicode_len() > 0
}

} // verus!
