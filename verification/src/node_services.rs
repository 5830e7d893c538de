//! The services of a node: which state each shows and whether all
//! required ones run.

use vstd::prelude::*;
use crate::text::same_text;
use crate::urls::{node_path, node_url};

verus! {

/// One system service of a node, with the fields this crate reads.
#[derive(Clone, Debug)]
pub struct ServiceStatus {
    pub name: String,
    pub desc: String,
    pub state: String,
    pub unit_state: String,
}

/// The unit is masked or missing, so it is not expected to run.
pub open spec fn unit_disabled(s: ServiceStatus) -> bool {
    s.unit_state@ == "masked"@ || s.unit_state@ == "not-found"@
}

/// The service does not spoil the summary: it runs, its unit is masked or
/// missing, or it is corosync on a node outside a cluster.
pub open spec fn service_fine(s: ServiceStatus, standalone: bool) -> bool {
    ||| (s.name@ == "corosync"@ && standalone)
    ||| s.state@ == "running"@
    ||| unit_disabled(s)
}

/// All required services of the list run.
pub open spec fn all_services_fine(data: Seq<ServiceStatus>, standalone: bool) -> bool {
    forall|i: int| 0 <= i < data.len() ==> service_fine(#[trigger] data[i], standalone)
}

fn is_unit_disabled(s: &ServiceStatus) -> (r: bool)
    ensures
        r == unit_disabled(*s),
{
    same_text(s.unit_state.as_str(), "masked") || same_text(s.unit_state.as_str(), "not-found")
}

/// Whether all required services run ("All required services running").
pub fn all_running(data: &Vec<ServiceStatus>, standalone: bool) -> (r: bool)
    ensures
        r == all_services_fine(data@, standalone),
{
    let mut i: usize = 0;
    while i < data.len()
        invariant
            i <= data@.len(),
            forall|j: int| 0 <= j < i ==> service_fine(#[trigger] data@[j], standalone),
        decreases data@.len() - i,
    {
        let s = &data[i];
        let skip = same_text(s.name.as_str(), "corosync") && standalone;
        if !skip && !same_text(s.state.as_str(), "running") && !is_unit_disabled(s) {
            return false;
        }
        i = i + 1;
    }
    true
}

/// The summary line of the services list.
pub fn service_summary(data: &Vec<ServiceStatus>, standalone: bool) -> (r: &'static str)
    ensures
        r@ == (if all_services_fine(data@, standalone) {
            "All required services running"@
        } else {
            "One or more required services not running"@
        }),
{
    if all_running(data, standalone) {
        "All required services running"
    } else {
        "One or more required services not running"
    }
}

/// How a service's state is shown.
#[derive(Clone, Copy, Debug, PartialEq, Eq, Structural)]
pub enum StateStyle {
    /// Running, in the primary colour.
    Running,
    /// Masked or missing unit, faded.
    Disabled,
    /// Any other state.
    Other,
}

/// The state a service shows and its style: "running" as such; a masked or
/// missing unit its unit state; otherwise its state.
pub fn service_state_icon(s: &ServiceStatus) -> (r: (String, StateStyle))
    ensures
        s.state@ == "running"@ ==> r.0@ == s.state@ && r.1 == StateStyle::Running,
        s.state@ != "running"@ && unit_disabled(*s) ==> r.0@ == s.unit_state@ && r.1
            == StateStyle::Disabled,
        s.state@ != "running"@ && !unit_disabled(*s) ==> r.0@ == s.state@ && r.1
            == StateStyle::Other,
{
    if same_text(s.state.as_str(), "running") {
        (s.state.clone(), StateStyle::Running)
    } else if is_unit_disabled(s) {
        (s.unit_state.clone(), StateStyle::Disabled)
    } else {
        (s.state.clone(), StateStyle::Other)
    }
}

/// Properties of the panel.
pub struct NodeServicesPanel {
    pub node: String,
    /// The node is not part of a cluster.
    pub standalone: bool,
}

impl NodeServicesPanel {
    /// The services panel of `node`.
    pub fn new(node: String, standalone: bool) -> (p: Self)
        ensures
            p.node@ == node@,
            p.standalone == standalone,
    {
        NodeServicesPanel { node, standalone }
    }
}

/// Events of the panel.
pub enum Msg {
    Load,
    LoadResult(Result<Vec<ServiceStatus>, String>),
}

/// What a node panel asks for after an event.
pub enum PanelAction {
    Idle,
    /// GET this URL and deliver it as `LoadResult`.
    Fetch(String),
    /// Send `Load` after `RELOAD_MS`.
    ScheduleReload,
}

/// Milliseconds between two loads of a node panel.
pub const RELOAD_MS: u32 = 3000;

/// State of the panel.
pub struct PveNodeServicesPanel {
    pub data: Option<Result<Vec<ServiceStatus>, String>>,
}

impl PveNodeServicesPanel {
    /// Nothing loaded yet; the panel then loads.
    pub fn create() -> (p: Self)
        ensures
            p.data is None,
    {
        PveNodeServicesPanel { data: None }
    }

    /// `Load` requests `/nodes/{node}/services`; a result is kept and the
    /// next load scheduled.
    pub fn update(&mut self, props: &NodeServicesPanel, msg: Msg) -> (a: PanelAction)
        ensures
            match msg {
                Msg::Load => a matches PanelAction::Fetch(u) && u@ == node_path(props.node@)
                    + "/services"@ && final(self).data == old(self).data,
                Msg::LoadResult(r) => a is ScheduleReload && final(self).data == Some(r),
            },
    {
        match msg {
            Msg::Load => PanelAction::Fetch(node_url(props.node.as_str(), "/services")),
            Msg::LoadResult(r) => {
                self.data = Some(r);
                PanelAction::ScheduleReload
            },
        }
    }
}

} // verus!
