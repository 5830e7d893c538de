//! The task list: which icon and time each task shows, and the states of
//! the panel.

use vstd::prelude::*;
use crate::text::same_text;

verus! {

/// One entry of a node's task list, with the fields this crate reads.
#[derive(Clone, Debug)]
pub struct ListTasksResponse {
    pub upid: String,
    pub starttime: i64,
    pub endtime: Option<i64>,
    pub status: Option<String>,
}

/// The icon of a task in the list.
#[derive(Clone, Copy, Debug, PartialEq, Eq, Structural)]
pub enum TaskIcon {
    /// Still running (a pulsing spinner).
    Spinner,
    /// Ended with status "OK".
    Info,
    /// Ended with another status.
    Warning,
    /// Ended without a status.
    Question,
}

/// The icon a task gets: running tasks spin; ended ones show whether their
/// status is "OK", another status, or none.
pub open spec fn task_icon_of(task: ListTasksResponse) -> TaskIcon {
    if task.endtime is None {
        TaskIcon::Spinner
    } else {
        match task.status {
            Some(s) => if s@ == "OK"@ {
                TaskIcon::Info
            } else {
                TaskIcon::Warning
            },
            None => TaskIcon::Question,
        }
    }
}

/// The icon of a task in the list.
pub fn task_icon(task: &ListTasksResponse) -> (r: TaskIcon)
    ensures
        r == task_icon_of(*task),
{
    if task.endtime.is_none() {
        return TaskIcon::Spinner;
    }
    match &task.status {
        Some(text) => {
            if same_text(text.as_str(), "OK") {
                TaskIcon::Info
            } else {
                TaskIcon::Warning
            }
        },
        None => TaskIcon::Question,
    }
}

/// The time a task line shows: when it ended, or when it started while it
/// runs.
pub fn task_info_time(task: &ListTasksResponse) -> (t: i64)
    ensures
        t == match task.endtime {
            Some(e) => e,
            None => task.starttime,
        },
{
    match task.endtime {
        Some(e) => e,
        None => task.starttime,
    }
}

/// Properties of the task panel: the URL of the task list.
pub struct TasksPanel {
    pub base_url: String,
}

impl TasksPanel {
    /// A panel listing the tasks at `base_url`.
    pub fn new(base_url: String) -> (p: Self)
        ensures
            p.base_url@ == base_url@,
    {
        TasksPanel { base_url }
    }
}

/// Events of the task panel.
pub enum Msg {
    Load,
    LoadResult(Result<Vec<ListTasksResponse>, String>),
}

/// What the panel asks for after an event.
pub enum TasksPanelAction {
    Idle,
    /// Request the task list from this URL and deliver it as `LoadResult`.
    Fetch(String),
}

/// State of the task panel.
pub struct PveTasksPanel {
    pub data: Option<Result<Vec<ListTasksResponse>, String>>,
}

/// What the panel shows.
#[derive(Clone, Copy, Debug, PartialEq, Eq, Structural)]
pub enum TasksContent {
    Loading,
    /// "List is empty."
    Empty,
    Error,
    List,
}

impl PveTasksPanel {
    /// The panel as it opens: nothing loaded; it then loads.
    pub fn create() -> (p: Self)
        ensures
            p.data is None,
    {
        PveTasksPanel { data: None }
    }

    /// `Load` requests the list from the panel's URL; a result is kept.
    pub fn update(&mut self, props: &TasksPanel, msg: Msg) -> (action: TasksPanelAction)
        ensures
            match msg {
                Msg::Load => action matches TasksPanelAction::Fetch(u) && u@ == props.base_url@
                    && final(self).data == old(self).data,
                Msg::LoadResult(r) => action is Idle && final(self).data == Some(r),
            },
    {
        match msg {
            Msg::Load => TasksPanelAction::Fetch(props.base_url.clone()),
            Msg::LoadResult(r) => {
                self.data = Some(r);
                TasksPanelAction::Idle
            },
        }
    }

    /// Loading, an error, "List is empty." or the list.
    pub fn content(&self) -> (c: TasksContent)
        ensures
            c == match self.data {
                None => TasksContent::Loading,
                Some(Err(_)) => TasksContent::Error,
                Some(Ok(v)) => if v@.len() == 0 {
                    TasksContent::Empty
                } else {
                    TasksContent::List
                },
            },
    {
        match &self.data {
            None => TasksContent::Loading,
            Some(Err(_)) => TasksContent::Error,
            Some(Ok(v)) => if v.len() == 0 {
                TasksContent::Empty
            } else {
                TasksContent::List
            },
        }
    }

    /// What opening task `k` of the list hands on: its UPID and end time.
    pub fn task_selection(&self, k: usize) -> (r: Option<(String, Option<i64>)>)
        ensures
            match self.data {
                Some(Ok(v)) if k < v@.len() => r matches Some((u, e)) && u@ == v@[k as int].upid@
                    && e == v@[k as int].endtime,
                _ => r is None,
            },
    {
        match &self.data {
            Some(Ok(v)) => {
                if k < v.len() {
                    Some((v[k].upid.clone(), v[k].endtime))
                } else {
                    None
                }
            },
            _ => None,
        }
    }
}

} // verus!
