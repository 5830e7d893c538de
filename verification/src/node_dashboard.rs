//! The dashboard of a node: its summary lines and power commands.

use vstd::prelude::*;
use crate::text::{decimal, u64_text};
use crate::urls::{node_path, node_url};

verus! {

/// CPU description of a node.
#[derive(Clone, Debug)]
pub struct CpuInfo {
    pub cores: u64,
    pub sockets: u64,
    pub cpus: u64,
    pub model: String,
}

/// Used and total bytes.
#[derive(Clone, Copy, Debug, PartialEq, Eq, Structural)]
pub struct Usage {
    pub used: u64,
    pub total: u64,
}

/// The status of a node, with the fields this crate reads (the CPU load is
/// a float and handled outside).
#[derive(Clone, Debug)]
pub struct NodeStatus {
    pub cpuinfo: CpuInfo,
    pub memory: Usage,
    pub rootfs: Usage,
    pub pveversion: String,
}

/// "CPU ({cores} Cores, {sockets} Sockets)".
pub open spec fn cpu_line(c: CpuInfo) -> Seq<char> {
    "CPU ("@ + decimal(c.cores as nat) + " Cores, "@ + decimal(c.sockets as nat) + " Sockets)"@
}

/// The title of the CPU line.
pub fn cpu_title(c: &CpuInfo) -> (r: String)
    ensures
        r@ == cpu_line(*c),
{
    let mut s = String::from_str("CPU (");
    let cores = u64_text(c.cores);
    s.append(cores.as_str());
    s.append(" Cores, ");
    let sockets = u64_text(c.sockets);
    s.append(sockets.as_str());
    s.append(" Sockets)");
    s
}

/// "% of {cpus} threads", the label under the CPU load.
pub fn cpu_threads_label(c: &CpuInfo) -> (r: String)
    ensures
        r@ == "% of "@ + decimal(c.cpus as nat) + " threads"@,
{
    let mut s = String::from_str("% of ");
    let n = u64_text(c.cpus);
    s.append(n.as_str());
    s.append(" threads");
    s
}

/// The confirmation of a node command: "Reboot node '{node}'?" or
/// "Shutdown node '{node}'?".
pub fn node_command_confirmation(reboot: bool, node: &str) -> (r: String)
    ensures
        r@ == (if reboot { "Reboot"@ } else { "Shutdown"@ }) + " node '"@ + node@ + "'?"@,
{
    let mut s = if reboot {
        String::from_str("Reboot")
    } else {
        String::from_str("Shutdown")
    };
    s.append(" node '");
    s.append(node);
    s.append("'?");
    s
}

/// Properties of the panel.
pub struct NodeDashboardPanel {
    pub node: String,
}

impl NodeDashboardPanel {
    /// The dashboard of `node`.
    pub fn new(node: String) -> (p: Self)
        ensures
            p.node@ == node@,
    {
        NodeDashboardPanel { node }
    }
}

/// Events of the panel.
pub enum Msg {
    Load,
    LoadResult(Result<NodeStatus, String>),
    CommandResult(Result<(), String>),
    Reboot,
    Shutdown,
}

/// What the panel asks for after an event.
pub enum NodeAction {
    Idle,
    /// GET this URL and deliver it as `LoadResult`.
    Fetch(String),
    /// Send `Load` after the reload interval.
    ScheduleReload,
    /// POST `{"command": command}` to this URL and deliver the answer as
    /// `CommandResult`.
    Post { url: String, command: String },
    /// Show this message in a snackbar.
    Notify(String),
}

/// State of the panel.
pub struct PveNodeDashboardPanel {
    pub data: Option<Result<NodeStatus, String>>,
}

impl PveNodeDashboardPanel {
    /// Nothing loaded; the panel then loads.
    pub fn create() -> (p: Self)
        ensures
            p.data is None,
    {
        PveNodeDashboardPanel { data: None }
    }

    /// Status requests and commands go to `/nodes/{node}/status`; a failed
    /// command is reported as "Command failed: {error}".
    pub fn update(&mut self, props: &NodeDashboardPanel, msg: Msg) -> (a: NodeAction)
        ensures
            match msg {
                Msg::Load => a matches NodeAction::Fetch(u) && u@ == node_path(props.node@)
                    + "/status"@,
                Msg::LoadResult(_) => a is ScheduleReload,
                Msg::CommandResult(Ok(())) => a is Idle,
                Msg::CommandResult(Err(e)) => a matches NodeAction::Notify(m) && m@
                    == "Command failed: "@ + e@,
                Msg::Reboot => a matches NodeAction::Post { url, command } && url@ == node_path(
                    props.node@,
                ) + "/status"@ && command@ == "reboot"@,
                Msg::Shutdown => a matches NodeAction::Post { url, command } && url@ == node_path(
                    props.node@,
                ) + "/status"@ && command@ == "shutdown"@,
            },
            match msg {
                Msg::LoadResult(r) => final(self).data == Some(r),
                _ => final(self).data == old(self).data,
            },
    {
        match msg {
            Msg::Load => NodeAction::Fetch(node_url(props.node.as_str(), "/status")),
            Msg::LoadResult(r) => {
                self.data = Some(r);
                NodeAction::ScheduleReload
            },
            Msg::CommandResult(r) => match r {
                Ok(()) => NodeAction::Idle,
                Err(e) => {
                    let mut m = String::from_str("Command failed: ");
                    m.append(e.as_str());
                    NodeAction::Notify(m)
                },
            },
            Msg::Reboot => NodeAction::Post {
                url: node_url(props.node.as_str(), "/status"),
                command: String::from_str("reboot"),
            },
            Msg::Shutdown => NodeAction::Post {
                url: node_url(props.node.as_str(), "/status"),
                command: String::from_str("shutdown"),
            },
        }
    }
}

} // verus!
