//! Records that the API returns.

use vstd::prelude::*;
use vstd::string::StringExecFns;
use crate::text::{decimal, decimal_text};

verus! {

/// A physical or virtual machine as the API describes it.
#[derive(Debug, Clone, PartialEq)]
pub struct Machine {
    /// The identifier that the server gave the machine.
    pub system_id: String,
    pub hostname: String,
    /// The reported power state, such as `on`, `off` or `error`.
    pub power_state: String,
    pub architecture: String,
    /// Memory in MiB.
    pub memory: u64,
    /// Number of CPU cores.
    pub cpu_count: u32,
    /// The status in words, such as `Ready` or `Deployed`.
    pub status: String,
    pub ip_addresses: Vec<String>,
    pub tags: Vec<String>,
}

/// What a `Machine` stands for in contracts.
pub struct MachineView {
    pub system_id: Seq<char>,
    pub hostname: Seq<char>,
    pub power_state: Seq<char>,
    pub architecture: Seq<char>,
    pub memory: nat,
    pub cpu_count: nat,
    pub status: Seq<char>,
    pub ip_addresses: Seq<Seq<char>>,
    pub tags: Seq<Seq<char>>,
}

impl View for Machine {
    type V = MachineView;

    open spec fn view(&self) -> MachineView {
        MachineView {
            system_id: self.system_id@,
            hostname: self.hostname@,
            power_state: self.power_state@,
            architecture: self.architecture@,
            memory: self.memory as nat,
            cpu_count: self.cpu_count as nat,
            status: self.status@,
            ip_addresses: self.ip_addresses@.map_values(|a: String| a@),
            tags: self.tags@.map_values(|t: String| t@),
        }
    }
}

/// The power state that counts as powered on.
pub open spec fn powered_on() -> Seq<char> {
    seq!['o', 'n']
}

/// One line for a machine: `[id] host (N cores, M MiB) - status`.
pub open spec fn summary_line(m: MachineView) -> Seq<char> {
    seq!['['] + m.system_id + seq![']', ' '] + m.hostname + seq![' ', '('] + decimal(m.cpu_count)
        + seq![' ', 'c', 'o', 'r', 'e', 's', ',', ' '] + decimal(m.memory) + seq![
        ' ',
        'M',
        'i',
        'B',
        ')',
        ' ',
        '-',
        ' ',
    ] + m.status
}

impl Machine {
    /// Whether the machine reports that it is powered on.
    pub fn is_on(&self) -> (on: bool)
        ensures
            on == (self@.power_state == powered_on()),
    {
        proof {
            reveal_strlit("on");
        }
        let on = String::from_str("on");
        assert(on@ =~= powered_on());
        self.power_state == on
    }

    /// A one-line summary for display.
    pub fn summary(&self) -> (line: String)
        ensures
            line@ == summary_line(self@),
    {
        proof {
            reveal_strlit("[");
            reveal_strlit("] ");
            reveal_strlit(" (");
            reveal_strlit(" cores, ");
            reveal_strlit(" MiB) - ");
        }
        let mut line = String::from_str("[");
        line.append(self.system_id.as_str());
        line.append("] ");
        line.append(self.hostname.as_str());
        line.append(" (");
        line.append(decimal_text(self.cpu_count as u64).as_str());
        line.append(" cores, ");
        line.append(decimal_text(self.memory).as_str());
        line.append(" MiB) - ");
        line.append(self.status.as_str());
        assert(line@ =~= summary_line(self@));
        line
    }
}

} // verus!
