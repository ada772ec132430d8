//! What the launcher finds out about the machine it runs on: whether the
//! runtime answers, how much memory and how many processors there are.

use crate::error::LauncherError;
use vstd::prelude::*;
use vstd::utf8::{decode_utf8, valid_utf8};

verus! {

/// Kibibytes in a mebibyte.
pub const KIB_PER_MIB: u64 = 1024;

/// What became of the attempt to run the runtime's version check.
#[derive(Debug, PartialEq, Eq)]
pub enum RuntimeProbe {
    /// The executable is missing or could not be started.
    NotStarted,
    /// The process ran to its end. `diagnostics` is what it wrote to its
    /// error stream, which is where the runtime prints its version.
    Exited { success: bool, diagnostics: Vec<u8> },
}

impl RuntimeProbe {
    /// Whether the runtime was started and exited with success.
    pub open spec fn succeeded(self) -> bool {
        self matches RuntimeProbe::Exited { success, .. } && success
    }

    /// What the process wrote, or nothing if it never ran.
    pub open spec fn diagnostics(self) -> Seq<u8> {
        match self {
            RuntimeProbe::Exited { diagnostics, .. } => diagnostics@,
            RuntimeProbe::NotStarted => Seq::empty(),
        }
    }
}

/// The text that `String::from_utf8_lossy` makes of `bytes`.
pub uninterp spec fn utf8_lossy(bytes: Seq<u8>) -> Seq<char>;

/// Decodes `bytes` with `String::from_utf8_lossy`.
///
/// Taken on trust: the text depends on the bytes alone, and where the bytes
/// are valid UTF-8 it is the text that they encode. What stands in the place
/// of an invalid sequence is left to the standard library.
#[verifier::external_body]
fn lossy_text(bytes: &Vec<u8>) -> (text: String)
    ensures
        text@ == utf8_lossy(bytes@),
        valid_utf8(bytes@) ==> text@ == decode_utf8(bytes@),
{
    String::from_utf8_lossy(bytes.as_slice()).into_owned()
}

/// Judges a run of the runtime's version check. A process that exited with
/// success yields its version text as written; anything else means that the
/// runtime cannot be used.
pub fn detect_runtime(probe: &RuntimeProbe) -> (outcome: Result<String, LauncherError>)
    ensures
        probe.succeeded() ==> (outcome matches Ok(text) && text@ == utf8_lossy(
            probe.diagnostics(),
        ) && (valid_utf8(probe.diagnostics()) ==> text@ == decode_utf8(probe.diagnostics()))),
        !probe.succeeded() ==> outcome == Err::<String, LauncherError>(
            LauncherError::RuntimeNotFound,
        ),
{
    match probe {
        RuntimeProbe::Exited { success, diagnostics } => {
            if *success {
                Ok(lossy_text(diagnostics))
            } else {
                Err(LauncherError::RuntimeNotFound)
            }
        },
        RuntimeProbe::NotStarted => Err(LauncherError::RuntimeNotFound),
    }
}

/// Advisory summary of the machine.
#[derive(Debug, PartialEq, Eq)]
pub struct SystemInfo {
    /// Physical memory in mebibytes; 0 if it could not be determined.
    pub total_memory_mb: u64,
    /// Logical processors; 0 if they could not be counted.
    pub cpu_cores: u32,
    /// Name of the operating system family.
    pub os: String,
}

/// What a summary says, with the system's name as a sequence of characters.
pub struct SystemInfoView {
    pub total_memory_mb: u64,
    pub cpu_cores: u32,
    pub os: Seq<char>,
}

impl View for SystemInfo {
    type V = SystemInfoView;

    open spec fn view(&self) -> SystemInfoView {
        SystemInfoView {
            total_memory_mb: self.total_memory_mb,
            cpu_cores: self.cpu_cores,
            os: self.os@,
        }
    }
}

/// The summary of a machine with `total_memory_kb` kibibytes of memory and
/// `cpu_cores` processors, where either may be unknown.
pub open spec fn summary_of(
    total_memory_kb: Option<u64>,
    cpu_cores: Option<u32>,
    os: Seq<char>,
) -> SystemInfoView {
    SystemInfoView {
        total_memory_mb: match total_memory_kb {
            Some(kb) => kb / KIB_PER_MIB,
            None => 0,
        },
        cpu_cores: match cpu_cores {
            Some(cores) => cores,
            None => 0,
        },
        os,
    }
}

/// Puts the summary together from what was measured. A figure that could
/// not be measured is reported as zero.
pub fn system_summary(total_memory_kb: Option<u64>, cpu_cores: Option<u32>, os: String) -> (info:
    SystemInfo)
    ensures
        info@ == summary_of(total_memory_kb, cpu_cores, os@),
{
    let total_memory_mb = match total_memory_kb {
        Some(kb) => kb / KIB_PER_MIB,
        None => 0,
    };
    let cpu_cores = match cpu_cores {
        Some(cores) => cores,
        None => 0,
    };
    SystemInfo { total_memory_mb, cpu_cores, os }
}

/// Asks `sys_info::mem_info` for the machine's physical memory in
/// kibibytes. Nothing is claimed of the answer: it is whatever the
/// operating system reports, and `None` when the query fails. On a Linux
/// kernel that reports no available memory the crate estimates it with
/// unchecked arithmetic, which can overflow on figures that make no sense.
#[verifier::external_body]
fn total_memory_kb() -> (total: Option<u64>) {
    sys_info::mem_info().ok().map(|info| info.total)
}

/// Asks `sys_info::cpu_num` for the number of logical processors. Nothing
/// is claimed of the answer, which is `None` when the query fails.
#[verifier::external_body]
fn logical_cpu_count() -> (count: Option<u32>) {
    sys_info::cpu_num().ok()
}

/// Measures the machine and reports on it under the system name `os`. The
/// report never fails: what cannot be measured is zero.
pub fn probe_system(os: String) -> (outcome: Result<SystemInfo, LauncherError>)
    ensures
        outcome matches Ok(info) && exists|total_memory_kb: Option<u64>, cpu_cores: Option<u32>|
            info@ == #[trigger] summary_of(total_memory_kb, cpu_cores, os@),
{
    let total = total_memory_kb();
    let cores = logical_cpu_count();
    Ok(system_summary(total, cores, os))
}

} // verus!
