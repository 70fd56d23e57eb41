//! A snapshot of the machine: operating system, processor, memory, disks.
use vstd::prelude::*;
use vstd::string::*;
use sysinfo::Disks;
use sysinfo::System;
use crate::errhuman::TransRResult;
use crate::text::decimal_digits;
use crate::text::render_decimal;

verus! {

/// `sysinfo::System`: the probe's handle on the machine, opaque here.
#[verifier::external_type_specification]
#[verifier::external_body]
pub struct ExSystem(sysinfo::System);

/// The machine as one snapshot. A name that the machine does not give reads
/// `"Unknown"`. Memory and swap are in bytes, uptime in seconds.
#[derive(Debug, Clone)]
pub struct SystemInfo {
    pub os_name: String,
    pub os_version: String,
    pub kernel_version: String,
    pub hostname: String,
    pub cpu_count: usize,
    pub cpu_brand: String,
    pub total_memory: u64,
    pub used_memory: u64,
    pub total_swap: u64,
    pub used_swap: u64,
    pub uptime: u64,
}

/// One mounted disk. Sizes are in bytes.
#[derive(Debug, Clone)]
pub struct DiskInfo {
    pub name: String,
    pub mount_point: String,
    pub total_space: u64,
    pub available_space: u64,
    pub file_system: String,
}

/// What the probe reads, before any gap is filled: a name is `None` where
/// the machine does not give it, the brand where it reports no processor.
pub struct SystemProbe {
    pub os_name: Option<String>,
    pub os_version: Option<String>,
    pub kernel_version: Option<String>,
    pub hostname: Option<String>,
    pub cpu_brand: Option<String>,
    pub cpu_count: usize,
    pub total_memory: u64,
    pub used_memory: u64,
    pub total_swap: u64,
    pub used_swap: u64,
    pub uptime: u64,
}

/// The name that was read, or `"Unknown"`.
pub open spec fn name_or_unknown(name: Option<String>) -> Seq<char> {
    match name {
        Some(n) => n@,
        None => "Unknown"@,
    }
}

/// Whether `info` is `probe` with every gap filled by `"Unknown"`.
pub open spec fn fills(probe: SystemProbe, info: SystemInfo) -> bool {
    &&& info.os_name@ == name_or_unknown(probe.os_name)
    &&& info.os_version@ == name_or_unknown(probe.os_version)
    &&& info.kernel_version@ == name_or_unknown(probe.kernel_version)
    &&& info.hostname@ == name_or_unknown(probe.hostname)
    &&& info.cpu_brand@ == name_or_unknown(probe.cpu_brand)
    &&& info.cpu_count == probe.cpu_count
    &&& info.total_memory == probe.total_memory
    &&& info.used_memory == probe.used_memory
    &&& info.total_swap == probe.total_swap
    &&& info.used_swap == probe.used_swap
    &&& info.uptime == probe.uptime
}

/// The one-line summary of a snapshot: operating system, processor, memory.
pub open spec fn summary_of(info: SystemInfo) -> Seq<char> {
    "System: "@ + info.os_name@ + " ("@ + info.os_version@ + "); CPU: "@ + info.cpu_brand@ + " ("@
        + decimal_digits(info.cpu_count as nat) + " cores); RAM: "@ + decimal_digits(
        info.used_memory as nat,
    ) + " / "@ + decimal_digits(info.total_memory as nat) + " bytes"@
}

/// The name that was read, or `"Unknown"`.
fn or_unknown(name: Option<String>) -> (r: String)
    ensures
        r@ == name_or_unknown(name),
{
    match name {
        Some(n) => n,
        None => String::from_str("Unknown"),
    }
}

impl SystemInfo {
    /// Fills the gaps of a probe with `"Unknown"`.
    pub fn from_probe(probe: SystemProbe) -> (info: SystemInfo)
        ensures
            fills(probe, info),
    {
        SystemInfo {
            os_name: or_unknown(probe.os_name),
            os_version: or_unknown(probe.os_version),
            kernel_version: or_unknown(probe.kernel_version),
            hostname: or_unknown(probe.hostname),
            cpu_count: probe.cpu_count,
            cpu_brand: or_unknown(probe.cpu_brand),
            total_memory: probe.total_memory,
            used_memory: probe.used_memory,
            total_swap: probe.total_swap,
            used_swap: probe.used_swap,
            uptime: probe.uptime,
        }
    }

    /// The snapshot in one line: operating system, processor, memory.
    pub fn summary(&self) -> (r: String)
        ensures
            r@ == summary_of(*self),
    {
        let mut out = String::from_str("System: ");
        out.append(self.os_name.as_str());
        out.append(" (");
        out.append(self.os_version.as_str());
        out.append("); CPU: ");
        out.append(self.cpu_brand.as_str());
        out.append(" (");
        out.append(render_decimal(self.cpu_count as u128).as_str());
        out.append(" cores); RAM: ");
        out.append(render_decimal(self.used_memory as u128).as_str());
        out.append(" / ");
        out.append(render_decimal(self.total_memory as u128).as_str());
        out.append(" bytes");
        assert(out@ =~= summary_of(*self));
        out
    }
}

/// Calls `sysinfo::System::new_all` and then `refresh_all` on the handle.
#[verifier::external_body]
fn open_system() -> System {
    let mut system = System::new_all();
    system.refresh_all();
    system
}

/// Calls `sysinfo::System::refresh_all`.
#[verifier::external_body]
fn refresh_system(system: &mut System) {
    system.refresh_all();
}

/// Reads the machine through `sysinfo::System`: the four names by `name`,
/// `os_version`, `kernel_version` and `host_name`, the processors by `cpus`,
/// memory and swap by the four methods of those names, and `uptime`.
/// Nothing is known of what the machine reports.
#[verifier::external_body]
fn read_system(system: &System) -> SystemProbe {
    SystemProbe {
        os_name: System::name(),
        os_version: System::os_version(),
        kernel_version: System::kernel_version(),
        hostname: System::host_name(),
        cpu_brand: system.cpus().first().map(|cpu| cpu.brand().to_string()),
        cpu_count: system.cpus().len(),
        total_memory: system.total_memory(),
        used_memory: system.used_memory(),
        total_swap: system.total_swap(),
        used_swap: system.used_swap(),
        uptime: System::uptime(),
    }
}

/// Lists the disks with `sysinfo::Disks::new_with_refreshed_list`, one
/// `DiskInfo` per disk, names and paths read lossily as text. Nothing is
/// known of what the machine reports.
#[verifier::external_body]
fn read_disks() -> Vec<DiskInfo> {
    let disks = Disks::new_with_refreshed_list();
    disks.iter().map(|disk| DiskInfo {
        name: disk.name().to_string_lossy().to_string(),
        mount_point: disk.mount_point().to_string_lossy().to_string(),
        total_space: disk.total_space(),
        available_space: disk.available_space(),
        file_system: disk.file_system().to_string_lossy().to_string(),
    }).collect()
}

/// The system probe: a handle on the machine that is refreshed before each
/// reading.
pub struct SysEz {
    system: System,
}

impl SysEz {
    /// Opens the probe and reads everything once.
    pub fn new() -> SysEz {
        SysEz { system: open_system() }
    }

    /// Reads everything again.
    pub fn refresh(&mut self) {
        refresh_system(&mut self.system);
    }

    /// A fresh snapshot of the machine. It never fails: whatever the machine
    /// reports, the snapshot is that report with its gaps filled.
    pub fn get_system_info(&mut self) -> (r: TransRResult<SystemInfo>)
        ensures
            r is Ok,
            exists|probe: SystemProbe| #[trigger] fills(probe, r->Ok_0),
    {
        self.refresh();
        let probe = read_system(&self.system);
        let ghost read = probe;
        let info = SystemInfo::from_probe(probe);
        let r: TransRResult<SystemInfo> = Ok(info);
        assert(fills(read, r->Ok_0));
        r
    }

    /// The mounted disks, as the machine lists them now.
    pub fn get_disks(&mut self) -> Vec<DiskInfo> {
        read_disks()
    }
}

} // verus!
