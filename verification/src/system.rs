//! Facts about the host, asked once at startup.

use vstd::prelude::*;

verus! {

/// What the controller keeps of the host: its names and the two totals by
/// which a process's load is scaled for display. Taking a snapshot and
/// ending a process are the host's work and reach the controller as
/// messages.
#[derive(Debug)]
pub struct SystemManager {
    pub os_name: String,
    pub os_version: String,
    pub kernel_version: String,
    pub hostname: String,
    pub cpu_brand: String,
    /// Number of logical cores.
    pub cpu_cores: usize,
    /// Installed memory in bytes.
    pub total_memory: u64,
}

/// What a [`SystemManager`] holds, as a mathematical value.
pub struct HostFacts {
    pub os_name: Seq<char>,
    pub os_version: Seq<char>,
    pub kernel_version: Seq<char>,
    pub hostname: Seq<char>,
    pub cpu_brand: Seq<char>,
    pub cpu_cores: usize,
    pub total_memory: u64,
}

impl View for SystemManager {
    type V = HostFacts;

    open spec fn view(&self) -> HostFacts {
        HostFacts {
            os_name: self.os_name@,
            os_version: self.os_version@,
            kernel_version: self.kernel_version@,
            hostname: self.hostname@,
            cpu_brand: self.cpu_brand@,
            cpu_cores: self.cpu_cores,
            total_memory: self.total_memory,
        }
    }
}

/// What stands for a fact that the host does not tell.
pub open spec fn not_available() -> Seq<char> {
    "N/A"@
}

/// The fact if the host told it, else [`not_available`].
pub fn fact_or_placeholder(fact: Option<String>) -> (text: String)
    ensures
        text@ == (match fact {
            Some(told) => told@,
            None => not_available(),
        }),
{
    match fact {
        Some(told) => told,
        None => "N/A".to_string(),
    }
}

impl SystemManager {
    /// Keeps the facts as the host told them; a fact that it did not tell
    /// reads [`not_available`].
    pub fn new(
        os_name: Option<String>,
        os_version: Option<String>,
        kernel_version: Option<String>,
        hostname: Option<String>,
        cpu_brand: Option<String>,
        cpu_cores: usize,
        total_memory: u64,
    ) -> (host: SystemManager)
        ensures
            host.os_name@ == (match os_name {
                Some(told) => told@,
                None => not_available(),
            }),
            host.os_version@ == (match os_version {
                Some(told) => told@,
                None => not_available(),
            }),
            host.kernel_version@ == (match kernel_version {
                Some(told) => told@,
                None => not_available(),
            }),
            host.hostname@ == (match hostname {
                Some(told) => told@,
                None => not_available(),
            }),
            host.cpu_brand@ == (match cpu_brand {
                Some(told) => told@,
                None => not_available(),
            }),
            host.cpu_cores == cpu_cores,
            host.total_memory == total_memory,
    {
        SystemManager {
            os_name: fact_or_placeholder(os_name),
            os_version: fact_or_placeholder(os_version),
            kernel_version: fact_or_placeholder(kernel_version),
            hostname: fact_or_placeholder(hostname),
            cpu_brand: fact_or_placeholder(cpu_brand),
            cpu_cores,
            total_memory,
        }
    }
}

} // verus!
