//! The task list pages of nodes and containers, and the storage status
//! page: their headings, what they list, and where an opened task leads.

use vstd::prelude::*;
use crate::text::{decimal, u64_text};
use crate::urls::{encoded, guest_tasks_url, node_page_path, node_path, node_url, storage_url};

verus! {

/// Where opening a task of a list leads: its status page, with the end
/// time the list knew (0 while it ran).
pub enum TaskRoute {
    NodeTaskStatus { nodename: String, upid: String, endtime: i64 },
    LxcTaskStatus { vmid: u32, nodename: String, upid: String, endtime: i64 },
}

/// The heading and back link of a page: title, subtitle, back location.
pub struct PageHeading {
    pub title: String,
    pub subtitle: Option<String>,
    pub back: Option<String>,
}

/// Properties of a node's task page.
pub struct PageNodeTasks {
    pub nodename: String,
}

impl PageNodeTasks {
    /// The task page of `nodename`.
    pub fn new(nodename: String) -> (p: Self)
        ensures
            p.nodename@ == nodename@,
    {
        PageNodeTasks { nodename }
    }

    /// "Task List" for "Node '{node}'", back to the node's page.
    pub fn heading(&self) -> (h: PageHeading)
        ensures
            h.title@ == "Task List"@,
            h.subtitle matches Some(s) && s@ == "Node '"@ + self.nodename@ + "'"@,
            h.back matches Some(b) && b@ == "/resources/node/"@ + encoded(self.nodename@),
    {
        let mut sub = String::from_str("Node '");
        sub.append(self.nodename.as_str());
        sub.append("'");
        let back = node_page_path(self.nodename.as_str(), "");
        proof {
            reveal_strlit("");
            assert(back@ =~= "/resources/node/"@ + encoded(self.nodename@));
        }
        PageHeading { title: String::from_str("Task List"), subtitle: Some(sub), back: Some(back) }
    }

    /// The list shows `/nodes/{node}/tasks`.
    pub fn base_url(&self) -> (u: String)
        ensures
            u@ == node_path(self.nodename@) + "/tasks"@,
    {
        node_url(self.nodename.as_str(), "/tasks")
    }

    /// Opening a task leads to its status page.
    pub fn open_task(&self, upid: String, endtime: Option<i64>) -> (r: TaskRoute)
        ensures
            r matches TaskRoute::NodeTaskStatus { nodename, upid: u, endtime: e } && nodename@
                == self.nodename@ && u@ == upid@ && e == match endtime {
                Some(t) => t,
                None => 0,
            },
    {
        TaskRoute::NodeTaskStatus {
            nodename: self.nodename.clone(),
            upid,
            endtime: match endtime {
                Some(t) => t,
                None => 0,
            },
        }
    }
}

/// Properties of a container's task page.
pub struct PageLxcTasks {
    pub vmid: u32,
    pub nodename: String,
}

impl PageLxcTasks {
    /// The task page of container `vmid` on `nodename`.
    pub fn new(nodename: String, vmid: u32) -> (p: Self)
        ensures
            p.nodename@ == nodename@,
            p.vmid == vmid,
    {
        PageLxcTasks { vmid, nodename }
    }

    /// "Task List" for "CT {vmid}".
    pub fn heading(&self) -> (h: PageHeading)
        ensures
            h.title@ == "Task List"@,
            h.subtitle matches Some(s) && s@ == "CT "@ + decimal(self.vmid as nat),
            h.back is None,
    {
        let mut sub = String::from_str("CT ");
        let id = u64_text(self.vmid as u64);
        sub.append(id.as_str());
        PageHeading { title: String::from_str("Task List"), subtitle: Some(sub), back: None }
    }

    /// The list shows `/nodes/{node}/tasks?vmid={vmid}`.
    pub fn base_url(&self) -> (u: String)
        ensures
            u@ == node_path(self.nodename@) + "/tasks?vmid="@ + decimal(self.vmid as nat),
    {
        guest_tasks_url(self.nodename.as_str(), self.vmid as u64)
    }

    /// Opening a task leads to its status page.
    pub fn open_task(&self, upid: String, endtime: Option<i64>) -> (r: TaskRoute)
        ensures
            r matches TaskRoute::LxcTaskStatus { vmid, nodename, upid: u, endtime: e } && vmid
                == self.vmid && nodename@ == self.nodename@ && u@ == upid@ && e == match endtime {
                Some(t) => t,
                None => 0,
            },
    {
        TaskRoute::LxcTaskStatus {
            vmid: self.vmid,
            nodename: self.nodename.clone(),
            upid,
            endtime: match endtime {
                Some(t) => t,
                None => 0,
            },
        }
    }
}

/// Properties of the storage status page.
pub struct PageStorageStatus {
    pub node: String,
    pub name: String,
}

/// Events of the storage status page.
pub enum StorageMsg {
    Load,
    /// The status (kept as JSON text) or the error.
    LoadResult(Result<String, String>),
}

/// State of the storage status page.
pub struct PvePageStorageStatus {
    pub status: Option<Result<String, String>>,
}

impl PvePageStorageStatus {
    /// Nothing loaded; the page then loads.
    pub fn create() -> (p: Self)
        ensures
            p.status is None,
    {
        PvePageStorageStatus { status: None }
    }

    /// `Load` asks for `/nodes/{node}/storage/{name}/status` (the returned
    /// URL); a result is kept.
    pub fn update(&mut self, props: &PageStorageStatus, msg: StorageMsg) -> (fetch: Option<String>)
        ensures
            match msg {
                StorageMsg::Load => fetch matches Some(u) && u@ == node_path(props.node@) + "/storage/"@
                    + encoded(props.name@) + "/status"@ && final(self).status == old(self).status,
                StorageMsg::LoadResult(r) => fetch is None && final(self).status == Some(r),
            },
    {
        match msg {
            StorageMsg::Load => Some(storage_url(props.node.as_str(), props.name.as_str(), "/status")),
            StorageMsg::LoadResult(r) => {
                self.status = Some(r);
                None
            },
        }
    }

    /// The page's title, "Storage {name}", and, once loaded, its text
    /// "This is the status for storage {name}".
    pub fn texts(&self, props: &PageStorageStatus) -> (r: (String, Option<String>))
        ensures
            r.0@ == "Storage "@ + props.name@,
            match self.status {
                Some(Ok(_)) => r.1 matches Some(t) && t@ == "This is the status for storage "@ + props.name@,
                _ => r.1 is None,
            },
    {
        let mut title = String::from_str("Storage ");
        title.append(props.name.as_str());
        let text = match &self.status {
            Some(Ok(_)) => {
                let mut t = String::from_str("This is the status for storage ");
                t.append(props.name.as_str());
                Some(t)
            },
            _ => None,
        };
        (title, text)
    }
}

/// The message of the page shown for an unknown location.
pub fn page_not_found_message() -> (r: &'static str)
    ensures
        r@ == "page not found"@,
{
    "page not found"
}

/// Where the task list button of a dashboard leads.
pub enum TaskListRoute {
    NodeTasks { nodename: String },
    QemuTasks { vmid: u32, nodename: String },
    LxcTasks { vmid: u32, nodename: String },
}

/// The task list of a node, a VM (`Some(false)`) or a container
/// (`Some(true)`).
pub fn task_list_route(nodename: &String, guest: Option<(bool, u32)>) -> (r: TaskListRoute)
    ensures
        match guest {
            None => r matches TaskListRoute::NodeTasks { nodename: n } && n@ == nodename@,
            Some((false, id)) => r matches TaskListRoute::QemuTasks { vmid, nodename: n } && vmid == id
                && n@ == nodename@,
            Some((true, id)) => r matches TaskListRoute::LxcTasks { vmid, nodename: n } && vmid == id
                && n@ == nodename@,
        },
{
    match guest {
        None => TaskListRoute::NodeTasks { nodename: nodename.clone() },
        Some((false, vmid)) => TaskListRoute::QemuTasks { vmid, nodename: nodename.clone() },
        Some((true, vmid)) => TaskListRoute::LxcTasks { vmid, nodename: nodename.clone() },
    }
}

/// Properties of a generic task page: an optional subtitle and the list's
/// URL.
pub struct PageTasks {
    pub title: Option<String>,
    pub base_url: String,
}

impl PageTasks {
    /// A task page for the list at `base_url`.
    pub fn new(base_url: String) -> (p: Self)
        ensures
            p.title is None,
            p.base_url@ == base_url@,
    {
        PageTasks { title: None, base_url }
    }

    /// "Task List", with the page's title as subtitle.
    pub fn heading(&self) -> (h: PageHeading)
        ensures
            h.title@ == "Task List"@,
            crate::text::opt_text(h.subtitle) == crate::text::opt_text(self.title),
            h.back is None,
    {
        PageHeading {
            title: String::from_str("Task List"),
            subtitle: match &self.title {
                Some(t) => Some(t.clone()),
                None => None,
            },
            back: None,
        }
    }
}

} // verus!
