//! The package updates of a node.

use vstd::prelude::*;
use crate::node_services::PanelAction;
use crate::urls::{node_path, node_url};

verus! {

/// One available package update, with the fields this crate reads.
#[derive(Clone, Debug)]
pub struct APTUpdateInfo {
    pub package: String,
    pub title: String,
    pub version: String,
    pub old_version: Option<String>,
    pub description: String,
}

/// "{installed version} -> {new version}", "not installed" where the
/// package is new.
pub open spec fn version_line(u: APTUpdateInfo) -> Seq<char> {
    let from = match u.old_version {
        Some(o) => o@,
        None => "not installed"@,
    };
    from + " -> "@ + u.version@
}

/// The version line of an update.
pub fn version_info(u: &APTUpdateInfo) -> (r: String)
    ensures
        r@ == version_line(*u),
{
    let mut s = match &u.old_version {
        Some(o) => o.clone(),
        None => String::from_str("not installed"),
    };
    s.append(" -> ");
    s.append(u.version.as_str());
    s
}

/// Properties of the panel.
pub struct NodeUpdatesPanel {
    pub node: String,
}

impl NodeUpdatesPanel {
    /// The updates panel of `node`.
    pub fn new(node: String) -> (p: Self)
        ensures
            p.node@ == node@,
    {
        NodeUpdatesPanel { node }
    }
}

/// Events of the panel.
pub enum Msg {
    Load,
    LoadResult(Result<Vec<APTUpdateInfo>, String>),
    /// Open (or, with `None`, close) the details of an update.
    ShowInfo(Option<APTUpdateInfo>),
}

/// State of the panel.
pub struct PveNodeUpdatesPanel {
    pub data: Option<Result<Vec<APTUpdateInfo>, String>>,
    pub show_info: Option<APTUpdateInfo>,
}

impl PveNodeUpdatesPanel {
    /// Nothing loaded, no details open; the panel then loads.
    pub fn create() -> (p: Self)
        ensures
            p.data is None,
            p.show_info is None,
    {
        PveNodeUpdatesPanel { data: None, show_info: None }
    }

    /// `Load` requests `/nodes/{node}/apt/update`; a result is kept and the
    /// next load scheduled; `ShowInfo` opens or closes the details.
    pub fn update(&mut self, props: &NodeUpdatesPanel, msg: Msg) -> (a: PanelAction)
        ensures
            match msg {
                Msg::Load => a matches PanelAction::Fetch(u) && u@ == node_path(props.node@)
                    + "/apt/update"@ && final(self).data == old(self).data && final(self).show_info
                    == old(self).show_info,
                Msg::LoadResult(r) => a is ScheduleReload && final(self).data == Some(r)
                    && final(self).show_info == old(self).show_info,
                Msg::ShowInfo(i) => a is Idle && final(self).show_info == i && final(self).data
                    == old(self).data,
            },
    {
        match msg {
            Msg::Load => PanelAction::Fetch(node_url(props.node.as_str(), "/apt/update")),
            Msg::LoadResult(r) => {
                self.data = Some(r);
                PanelAction::ScheduleReload
            },
            Msg::ShowInfo(info) => {
                self.show_info = info;
                PanelAction::Idle
            },
        }
    }

    /// The list is shown empty ("List is empty.") when loaded and without
    /// updates.
    pub fn is_empty(&self) -> (r: bool)
        ensures
            r == (self.data matches Some(Ok(v)) && v@.len() == 0),
    {
        match &self.data {
            Some(Ok(v)) => v.len() == 0,
            _ => false,
        }
    }
}

} // verus!
