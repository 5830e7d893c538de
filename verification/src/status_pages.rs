//! The tabbed status pages of guests and nodes: their tabs, the keys under
//! which the selected tab is kept, titles, and whether a node stands alone.

use vstd::prelude::*;
use crate::text::{decimal, same_text, u64_text};
use crate::urls::guest_tab_state_key;

verus! {

/// The tabs of a guest page.
#[derive(Clone, Copy, Debug, PartialEq, Eq, Structural)]
pub enum GuestViewState {
    Dashboard,
    Options,
    Backup,
}

impl Default for GuestViewState {
    /// Pages open on the dashboard.
    fn default() -> (v: Self)
        ensures
            v == GuestViewState::Dashboard,
    {
        GuestViewState::Dashboard
    }
}

/// The key of a guest tab in the tab bar.
pub fn guest_tab_key(v: GuestViewState) -> (r: &'static str)
    ensures
        r@ == match v {
            GuestViewState::Dashboard => "dashboard"@,
            GuestViewState::Options => "options"@,
            GuestViewState::Backup => "backup"@,
        },
{
    match v {
        GuestViewState::Dashboard => "dashboard",
        GuestViewState::Options => "options",
        GuestViewState::Backup => "backup",
    }
}

/// The tabs of a node page.
#[derive(Clone, Copy, Debug, PartialEq, Eq, Structural)]
pub enum NodeViewState {
    Dashboard,
    Services,
    Updates,
}

impl Default for NodeViewState {
    /// Pages open on the dashboard.
    fn default() -> (v: Self)
        ensures
            v == NodeViewState::Dashboard,
    {
        NodeViewState::Dashboard
    }
}

/// The key of a node tab in the tab bar.
pub fn node_tab_key(v: NodeViewState) -> (r: &'static str)
    ensures
        r@ == match v {
            NodeViewState::Dashboard => "dashboard"@,
            NodeViewState::Services => "services"@,
            NodeViewState::Updates => "updates"@,
        },
{
    match v {
        NodeViewState::Dashboard => "dashboard",
        NodeViewState::Services => "services",
        NodeViewState::Updates => "updates",
    }
}

/// The title of a guest page: "VM {vmid}" or "CT {vmid}".
pub fn guest_page_title(container: bool, vmid: u32) -> (r: String)
    ensures
        r@ == (if container { "CT "@ } else { "VM "@ }) + decimal(vmid as nat),
{
    let mut s = if container {
        String::from_str("CT ")
    } else {
        String::from_str("VM ")
    };
    let id = u64_text(vmid as u64);
    s.append(id.as_str());
    s
}

/// The title of a node page: "Node {node}".
pub fn node_page_title(node: &str) -> (r: String)
    ensures
        r@ == "Node "@ + node@,
{
    let mut s = String::from_str("Node ");
    s.append(node);
    s
}

/// The session key of a guest page's tab.
pub fn guest_view_state_key(container: bool, vmid: u32) -> (r: String)
    ensures
        r@ == (if container { "ct"@ } else { "vm"@ }) + "-"@ + decimal(vmid as nat)
            + "-status-tab-bar-state"@,
{
    guest_tab_state_key(container, vmid as u64)
}

/// The session key of a node page's tab: `node-{node}-status-tab-bar-state`.
pub fn node_view_state_key(node: &str) -> (r: String)
    ensures
        r@ == "node-"@ + node@ + "-status-tab-bar-state"@,
{
    let r = crate::urls::tab_state_key("node", node);
    proof {
        reveal_strlit("node");
        reveal_strlit("-");
        reveal_strlit("node-");
        assert("node"@ + "-"@ =~= "node-"@);
        assert(r@ =~= "node-"@ + node@ + "-status-tab-bar-state"@);
    }
    r
}

/// Kinds of entries in the cluster status.
#[derive(Clone, Copy, Debug, PartialEq, Eq, Structural)]
pub enum ClusterNodeStatusType {
    Cluster,
    Node,
}

/// One entry of the cluster status, with the fields this crate reads.
#[derive(Clone, Debug)]
pub struct ClusterNodeStatus {
    pub name: String,
    pub ty: ClusterNodeStatusType,
}

/// The node stands alone: no cluster entry of the cluster status carries
/// its name (it counts as alone while the status is unknown).
pub open spec fn standalone_node(node: Seq<char>, status: Option<Vec<ClusterNodeStatus>>) -> bool {
    match status {
        Some(v) => !exists|i: int|
            0 <= i < v@.len() && (#[trigger] v@[i]).name@ == node && v@[i].ty
                == ClusterNodeStatusType::Cluster,
        None => true,
    }
}

/// Whether the node stands alone, as the services panel needs it.
pub fn is_standalone(node: &str, status: &Option<Vec<ClusterNodeStatus>>) -> (r: bool)
    ensures
        r == standalone_node(node@, *status),
{
    match status {
        None => true,
        Some(v) => {
            let mut i: usize = 0;
            while i < v.len()
                invariant
                    i <= v@.len(),
                    *status == Some(*v),
                    forall|j: int|
                        0 <= j < i ==> !((#[trigger] v@[j]).name@ == node@ && v@[j].ty
                            == ClusterNodeStatusType::Cluster),
                decreases v@.len() - i,
            {
                if same_text(v[i].name.as_str(), node) && v[i].ty == ClusterNodeStatusType::Cluster {
                    assert(v@[i as int].name@ == node@ && v@[i as int].ty == ClusterNodeStatusType::Cluster);
                    return false;
                }
                i = i + 1;
            }
            true
        },
    }
}

/// Events of the node page.
pub enum NodePageMsg {
    SetViewState(NodeViewState),
    SetNodeStatus(Result<Vec<ClusterNodeStatus>, String>),
}

/// State of the node page.
pub struct PvePageNodeStatus {
    pub view_state: NodeViewState,
    pub cluster_node_status: Option<Vec<ClusterNodeStatus>>,
}

impl PvePageNodeStatus {
    /// The page as it opens on the kept tab; it then requests
    /// `/cluster/status`.
    pub fn create(view_state: NodeViewState) -> (p: Self)
        ensures
            p.view_state == view_state,
            p.cluster_node_status is None,
    {
        PvePageNodeStatus { view_state, cluster_node_status: None }
    }

    /// Switches tabs or keeps the cluster status; a failed request is
    /// returned to be shown.
    pub fn update(&mut self, msg: NodePageMsg) -> (err: Option<String>)
        ensures
            match msg {
                NodePageMsg::SetViewState(v) => err is None && final(self).view_state == v
                    && final(self).cluster_node_status == old(self).cluster_node_status,
                NodePageMsg::SetNodeStatus(Ok(s)) => err is None && final(self).cluster_node_status
                    == Some(s) && final(self).view_state == old(self).view_state,
                NodePageMsg::SetNodeStatus(Err(e)) => err == Some(e) && final(self).cluster_node_status
                    == old(self).cluster_node_status && final(self).view_state
                    == old(self).view_state,
            },
    {
        match msg {
            NodePageMsg::SetViewState(v) => {
                self.view_state = v;
                None
            },
            NodePageMsg::SetNodeStatus(r) => match r {
                Ok(status) => {
                    self.cluster_node_status = Some(status);
                    None
                },
                Err(e) => Some(e),
            },
        }
    }
}

/// Properties of a guest's tabbed page: the guest and its node.
pub struct PageGuestStatus {
    pub node: String,
    pub vmid: u32,
}

impl PageGuestStatus {
    /// The page of guest `vmid` on `node`.
    pub fn new(node: String, vmid: u32) -> (p: Self)
        ensures
            p.node@ == node@,
            p.vmid == vmid,
    {
        PageGuestStatus { node, vmid }
    }
}

/// State of a guest's tabbed page: the selected tab.
pub struct PveGuestStatusPage {
    pub view_state: GuestViewState,
}

impl PveGuestStatusPage {
    /// The page opens on the tab kept under its session key.
    pub fn create(kept: GuestViewState) -> (p: Self)
        ensures
            p.view_state == kept,
    {
        PveGuestStatusPage { view_state: kept }
    }

    /// Selecting a tab shows it (and keeps it).
    pub fn set_view_state(&mut self, v: GuestViewState)
        ensures
            final(self).view_state == v,
    {
        self.view_state = v;
    }
}

/// Properties of a node's tabbed page.
pub struct PageNodeStatus {
    pub node: String,
}

impl PageNodeStatus {
    /// The page of `node`.
    pub fn new(node: String) -> (p: Self)
        ensures
            p.node@ == node@,
    {
        PageNodeStatus { node }
    }
}

} // verus!
