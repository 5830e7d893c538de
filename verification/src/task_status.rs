//! The task status page: whether the task is still active, when its status
//! is fetched again, and the lines of its status view.

use vstd::prelude::*;
use crate::urls::{encoded, task_url};

verus! {

/// Whether a task still runs.
#[derive(Clone, Copy, Debug, PartialEq, Eq, Structural)]
pub enum IsRunning {
    Running,
    Stopped,
}

/// The status of one task, with the fields this crate reads.
#[derive(Clone, Debug)]
pub struct TaskStatus {
    pub status: IsRunning,
    pub exitstatus: Option<String>,
    pub ty: String,
    pub id: String,
    pub user: String,
    pub node: String,
    pub starttime: i64,
    pub upid: String,
}

/// Properties of the page: where the task lives, and its end time where
/// the task list knew one (0 while it ran).
pub struct PageTaskStatus {
    pub base_url: String,
    pub task_id: String,
    pub endtime: Option<i64>,
}

impl PageTaskStatus {
    /// The page of task `task_id` below `base_url`, no end time known.
    pub fn new(base_url: String, task_id: String) -> (p: Self)
        ensures
            p.base_url@ == base_url@,
            p.task_id@ == task_id@,
            p.endtime is None,
    {
        PageTaskStatus { base_url, task_id, endtime: None }
    }
}

/// The two tabs of the page.
#[derive(Clone, Copy, Debug, PartialEq, Eq, Structural)]
pub enum ViewState {
    Output,
    Status,
}

/// Events of the page.
pub enum Msg {
    SetViewState(ViewState),
    Load,
    LoadResult(Result<TaskStatus, String>),
    StopTask,
}

/// What the page asks for after an event.
pub enum TaskStatusAction {
    Idle,
    /// GET this URL and deliver the answer as `LoadResult`.
    FetchStatus(String),
    /// Send `Load` after `STATUS_RELOAD_MS`.
    ScheduleReload,
    /// DELETE this URL, ignore the outcome, then send `Load`.
    Stop(String),
}

/// Milliseconds between two status requests while the task is active.
pub const STATUS_RELOAD_MS: u32 = 1000;

/// State of the task status page.
pub struct PvePageTaskStatus {
    pub active: bool,
    pub view_state: ViewState,
    pub status: Result<TaskStatus, String>,
}

/// `{base}/{task_id}` (percent-encoded) followed by `leaf`.
pub open spec fn task_path(props: PageTaskStatus, leaf: Seq<char>) -> Seq<char> {
    props.base_url@ + "/"@ + encoded(props.task_id@) + leaf
}

/// A task whose end time is unknown or 0 counts as active until its status
/// says otherwise.
pub open spec fn initially_active(endtime: Option<i64>) -> bool {
    match endtime {
        Some(e) => e == 0,
        None => true,
    }
}

/// A status answer leaves the task active while it runs; a failed request
/// keeps polling.
pub open spec fn active_after(result: Result<TaskStatus, String>) -> bool {
    match result {
        Ok(s) => s.status == IsRunning::Running,
        Err(_) => true,
    }
}

impl PvePageTaskStatus {
    /// The page as it opens: on the output tab, no status yet, active as
    /// the end time says; it then loads the status.
    pub fn create(props: &PageTaskStatus) -> (r: (Self, TaskStatusAction))
        ensures
            r.0.active == initially_active(props.endtime),
            r.0.view_state == ViewState::Output,
            r.0.status matches Err(e) && e@ == "no data loaded"@,
            r.1 matches TaskStatusAction::FetchStatus(u) && u@ == task_path(*props, "/status"@),
    {
        let active = match props.endtime {
            Some(endtime) => endtime == 0,
            None => true,
        };
        (
            PvePageTaskStatus {
                active,
                view_state: ViewState::Output,
                status: Err(String::from_str("no data loaded")),
            },
            TaskStatusAction::FetchStatus(task_url(props.base_url.as_str(), props.task_id.as_str(), "/status")),
        )
    }

    /// Handles one event; the flag says whether the page is drawn again.
    /// A status answer sets `active` and, while active, schedules the next
    /// request; stopping deletes the task and then reloads.
    pub fn update(&mut self, props: &PageTaskStatus, msg: Msg) -> (r: (bool, TaskStatusAction))
        ensures
            match msg {
                Msg::SetViewState(v) => {
                    &&& r.0 && r.1 is Idle
                    &&& final(self).view_state == v
                    &&& final(self).active == old(self).active
                    &&& final(self).status == old(self).status
                },
                Msg::Load => {
                    &&& !r.0
                    &&& r.1 matches TaskStatusAction::FetchStatus(u) && u@ == task_path(*props, "/status"@)
                    &&& final(self).view_state == old(self).view_state
                    &&& final(self).active == old(self).active
                    &&& final(self).status == old(self).status
                },
                Msg::LoadResult(res) => {
                    &&& r.0
                    &&& final(self).active == active_after(res)
                    &&& final(self).status == res
                    &&& final(self).view_state == old(self).view_state
                    &&& if active_after(res) { r.1 is ScheduleReload } else { r.1 is Idle }
                },
                Msg::StopTask => {
                    &&& !r.0
                    &&& r.1 matches TaskStatusAction::Stop(u) && u@ == task_path(*props, Seq::empty())
                    &&& final(self).view_state == old(self).view_state
                    &&& final(self).active == old(self).active
                    &&& final(self).status == old(self).status
                },
            },
    {
        match msg {
            Msg::SetViewState(view_state) => {
                self.view_state = view_state;
                (true, TaskStatusAction::Idle)
            },
            Msg::Load => {
                (false, TaskStatusAction::FetchStatus(task_url(props.base_url.as_str(), props.task_id.as_str(), "/status")))
            },
            Msg::LoadResult(result) => {
                self.active = match &result {
                    Ok(status) => status.status == IsRunning::Running,
                    Err(_) => true,
                };
                self.status = result;
                if self.active {
                    (true, TaskStatusAction::ScheduleReload)
                } else {
                    (true, TaskStatusAction::Idle)
                }
            },
            Msg::StopTask => {
                let url = task_url(props.base_url.as_str(), props.task_id.as_str(), "");
                proof {
                    reveal_strlit("");
                }
                assert(url@ == task_path(*props, Seq::empty()));
                (false, TaskStatusAction::Stop(url))
            },
        }
    }

    /// The "Stop" menu entry is enabled while the task is active.
    pub fn stop_enabled(&self) -> (r: bool)
        ensures
            r == self.active,
    {
        self.active
    }

    /// The log the output tab follows, and whether it keeps following.
    pub fn log_url(&self, props: &PageTaskStatus) -> (r: (String, bool))
        ensures
            r.0@ == task_path(*props, "/log"@),
            r.1 == self.active,
    {
        (task_url(props.base_url.as_str(), props.task_id.as_str(), "/log"), self.active)
    }
}

/// The status line of a task: "running", or "stopped" with the exit status
/// (or "unknown") in brackets.
pub open spec fn task_state_line(s: TaskStatus) -> Seq<char> {
    match s.status {
        IsRunning::Running => "running"@,
        IsRunning::Stopped => "stopped"@ + " ("@ + match s.exitstatus {
            Some(m) => m@,
            None => "unknown"@,
        } + ")"@,
    }
}

/// The status line of a task.
pub fn task_state_text(s: &TaskStatus) -> (r: String)
    ensures
        r@ == task_state_line(*s),
{
    match s.status {
        IsRunning::Running => String::from_str("running"),
        IsRunning::Stopped => {
            let mut t = String::from_str("stopped");
            t.append(" (");
            match &s.exitstatus {
                Some(m) => t.append(m.as_str()),
                None => t.append("unknown"),
            }
            t.append(")");
            t
        },
    }
}

/// Seconds from the task's start to the end time the page was opened with,
/// where it has one.
pub fn task_duration(props: &PageTaskStatus, s: &TaskStatus) -> (r: Option<i64>)
    requires
        props.endtime matches Some(e) ==> i64::MIN <= e - s.starttime <= i64::MAX,
    ensures
        r == match props.endtime {
            Some(e) => Some((e - s.starttime) as i64),
            None => None,
        },
{
    match props.endtime {
        Some(e) => Some(e - s.starttime),
        None => None,
    }
}

} // verus!
