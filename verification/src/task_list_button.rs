//! The task list button: it follows the task a page started and shows how
//! it ended.

use vstd::prelude::*;
use crate::text::opt_text;
use crate::task_status::{IsRunning, TaskStatus};
use crate::text::same_text;
use crate::upid::{upid_node, upid_node_of};
use crate::urls::{encoded, node_path, task_status_url};

verus! {

/// Properties of the button: the task the page started, if any.
pub struct TasksListButton {
    pub running_upid: Option<String>,
}

impl TasksListButton {
    /// A button following no task.
    pub fn new() -> (b: Self)
        ensures
            b.running_upid is None,
    {
        TasksListButton { running_upid: None }
    }
}

/// Events of the button.
pub enum Msg {
    CheckTaskStatus,
    TaskStatusResult(String, Result<TaskStatus, String>),
}

/// What the button asks for after an event.
pub enum TaskButtonAction {
    Idle,
    /// GET `url`, the status of task `upid`, and deliver it as
    /// `TaskStatusResult`.
    FetchStatus { upid: String, url: String },
    /// Send `CheckTaskStatus` after `CHECK_INTERVAL_MS`.
    ScheduleCheck,
    /// Drop a scheduled check.
    CancelCheck,
}

/// Milliseconds between two checks of a running task.
pub const CHECK_INTERVAL_MS: u32 = 1000;

/// State of the button: the task it follows and the line it shows.
pub struct ProxmoxTaskListButton {
    pub running_upid: Option<String>,
    pub last_task_status: Option<String>,
}

/// The request that checks the followed task: its status at the node its
/// id names; none where no task is followed or the id names no node.
pub open spec fn check_action(running: Option<String>, a: TaskButtonAction) -> bool {
    match running {
        Some(u) => match upid_node_of(u@) {
            Some(n) => a matches TaskButtonAction::FetchStatus { upid, url } && upid@ == u@ && url@
                == node_path(n) + "/tasks/"@ + encoded(u@) + "/status"@,
            None => a is Idle,
        },
        None => a is Idle,
    }
}

/// The line shown while a task runs: "{description} (running)".
pub open spec fn running_line(descr: Seq<char>) -> Seq<char> {
    descr + " (running)"@
}

/// The line shown when a task ended: "Finished: {description} ({exit})",
/// the exit status "unknown" where none came back.
pub open spec fn finished_line(descr: Seq<char>, result: Result<TaskStatus, String>) -> Seq<char> {
    "Finished"@ + ": "@ + descr + " ("@ + match result {
        Ok(s) => match s.exitstatus {
            Some(m) => m@,
            None => "unknown"@,
        },
        Err(_) => "unknown"@,
    } + ")"@
}

impl ProxmoxTaskListButton {
    /// What `on_show_task` is called with to show the followed task: its id,
    /// with no end time, as long as a task is followed.
    pub fn show_running_task(&self) -> (r: Option<(String, Option<i64>)>)
        ensures
            match r {
                Some((u, end)) => self.running_upid matches Some(v) && u@ == v@ && end is None,
                None => self.running_upid is None,
            },
    {
        match &self.running_upid {
            Some(u) => Some((u.clone(), None)),
            None => None,
        }
    }

    fn check_running_task_status(&self) -> (a: TaskButtonAction)
        ensures
            check_action(self.running_upid, a),
    {
        match &self.running_upid {
            Some(upid) => match upid_node(upid.as_str()) {
                Some(node) => TaskButtonAction::FetchStatus {
                    upid: upid.clone(),
                    url: task_status_url(node.as_str(), upid.as_str()),
                },
                None => TaskButtonAction::Idle,
            },
            None => TaskButtonAction::Idle,
        }
    }

    fn update_upid(&mut self, upid: String, descr: String) -> (a: TaskButtonAction)
        ensures
            opt_text(final(self).running_upid) == Some(upid@),
            opt_text(final(self).last_task_status) == Some(running_line(descr@)),
            check_action(final(self).running_upid, a),
    {
        self.running_upid = Some(upid);
        let mut line = descr;
        line.append(" (running)");
        self.last_task_status = Some(line);
        self.check_running_task_status()
    }

    /// The button as it opens; where the page started a task it follows it.
    /// `descr` describes that task.
    pub fn create(props: &TasksListButton, descr: String) -> (r: (Self, TaskButtonAction))
        ensures
            opt_text(r.0.running_upid) == opt_text(props.running_upid),
            opt_text(r.0.last_task_status) == match props.running_upid {
                Some(_) => Some(running_line(descr@)),
                None => None,
            },
            check_action(r.0.running_upid, r.1),
    {
        let mut me = ProxmoxTaskListButton { running_upid: None, last_task_status: None };
        match &props.running_upid {
            Some(upid) => {
                let a = me.update_upid(upid.clone(), descr);
                (me, a)
            },
            None => (me, TaskButtonAction::Idle),
        }
    }

    /// New properties: a new task is followed (described by `descr`);
    /// where the page has none any more, the line goes.
    pub fn changed(&mut self, old_props: &TasksListButton, props: &TasksListButton, descr: String) -> (a: TaskButtonAction)
        ensures
            opt_text(old_props.running_upid) == opt_text(props.running_upid) ==> {
                &&& a is Idle
                &&& opt_text(final(self).running_upid) == opt_text(old(self).running_upid)
                &&& opt_text(final(self).last_task_status) == opt_text(old(self).last_task_status)
            },
            opt_text(old_props.running_upid) != opt_text(props.running_upid) ==> match props.running_upid {
                Some(u) => {
                    &&& opt_text(final(self).running_upid) == Some(u@)
                    &&& opt_text(final(self).last_task_status) == Some(running_line(descr@))
                    &&& check_action(final(self).running_upid, a)
                },
                None => {
                    &&& a is Idle
                    &&& opt_text(final(self).running_upid) == opt_text(old(self).running_upid)
                    &&& final(self).last_task_status is None
                },
            },
    {
        let same = match (&props.running_upid, &old_props.running_upid) {
            (Some(a), Some(b)) => same_text(a.as_str(), b.as_str()),
            (None, None) => true,
            _ => false,
        };
        if same {
            return TaskButtonAction::Idle;
        }
        match &props.running_upid {
            Some(upid) => self.update_upid(upid.clone(), descr),
            None => {
                self.last_task_status = None;
                TaskButtonAction::Idle
            },
        }
    }

    /// Handles one event; the flag says whether the button is drawn again.
    /// An answer for another task than the followed one is dropped. While
    /// the task runs the next check is scheduled; when it ended the button
    /// shows how and follows no task. `descr` describes the task of the
    /// answer.
    pub fn update(&mut self, msg: Msg, descr: String) -> (r: (bool, TaskButtonAction))
        ensures
            match msg {
                Msg::CheckTaskStatus => {
                    &&& r.0
                    &&& check_action(old(self).running_upid, r.1)
                    &&& opt_text(final(self).running_upid) == opt_text(old(self).running_upid)
                    &&& opt_text(final(self).last_task_status) == opt_text(old(self).last_task_status)
                },
                Msg::TaskStatusResult(upid, result) => if opt_text(old(self).running_upid) != Some(upid@) {
                    &&& !r.0 && r.1 is Idle
                    &&& opt_text(final(self).running_upid) == opt_text(old(self).running_upid)
                    &&& opt_text(final(self).last_task_status) == opt_text(old(self).last_task_status)
                } else if result matches Ok(s) && s.status == IsRunning::Running {
                    &&& r.0 && r.1 is ScheduleCheck
                    &&& opt_text(final(self).running_upid) == opt_text(old(self).running_upid)
                    &&& opt_text(final(self).last_task_status) == opt_text(old(self).last_task_status)
                } else {
                    &&& r.0 && r.1 is CancelCheck
                    &&& final(self).running_upid is None
                    &&& opt_text(final(self).last_task_status) == Some(finished_line(descr@, result))
                },
            },
    {
        match msg {
            Msg::CheckTaskStatus => (true, self.check_running_task_status()),
            Msg::TaskStatusResult(upid, result) => {
                let current = match &self.running_upid {
                    Some(r) => same_text(r.as_str(), upid.as_str()),
                    None => false,
                };
                if !current {
                    return (false, TaskButtonAction::Idle);
                }
                let running = match &result {
                    Ok(status) => status.status == IsRunning::Running,
                    _ => false,
                };
                if running {
                    (true, TaskButtonAction::ScheduleCheck)
                } else {
                    let mut line = String::from_str("Finished");
                    line.append(": ");
                    line.append(descr.as_str());
                    line.append(" (");
                    match &result {
                        Ok(status) => match &status.exitstatus {
                            Some(m) => line.append(m.as_str()),
                            None => line.append("unknown"),
                        },
                        Err(_) => line.append("unknown"),
                    }
                    line.append(")");
                    self.last_task_status = Some(line);
                    self.running_upid = None;
                    (true, TaskButtonAction::CancelCheck)
                }
            },
        }
    }
}

} // verus!
