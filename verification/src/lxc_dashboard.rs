//! The dashboard of a container: its power commands, which of them need
//! confirmation, and the panel's states.

use vstd::prelude::*;
use crate::guest::{
    GuestAction, GuestStatus, PendingCommand, guest_name_or_id, loaded_name, name_or_id,
};
use crate::text::opt_text;
use crate::task_status::IsRunning;
use crate::urls::{lxc_path, lxc_status_url};

verus! {

/// Properties of the panel: the container and its node.
pub struct LxcDashboardPanel {
    pub vmid: u32,
    pub node: String,
}

impl LxcDashboardPanel {
    /// The panel of container `vmid` on `node`.
    pub fn new(node: String, vmid: u32) -> (p: Self)
        ensures
            p.node@ == node@,
            p.vmid == vmid,
    {
        LxcDashboardPanel { vmid, node }
    }
}

/// The container commands that ask for confirmation first.
#[derive(Clone, Copy, Debug, PartialEq, Eq, Structural)]
pub enum ConfirmableCommands {
    Reboot,
    Stop,
    Shutdown,
}

/// The task type that describes a command in its confirmation.
pub open spec fn task_type_of(c: ConfirmableCommands) -> Seq<char> {
    match c {
        ConfirmableCommands::Reboot => "vzreboot"@,
        ConfirmableCommands::Shutdown => "vzshutdown"@,
        ConfirmableCommands::Stop => "vzstop"@,
    }
}

/// The status command a confirmed command posts.
pub open spec fn posted_command(c: ConfirmableCommands) -> Seq<char> {
    match c {
        ConfirmableCommands::Reboot => "reboot"@,
        ConfirmableCommands::Shutdown => "shutdown"@,
        ConfirmableCommands::Stop => "stop"@,
    }
}

/// What the confirmation of a command describes: the task type and the
/// container's name (or id). The description itself is looked up from
/// these.
pub fn format_guest_task_confirmation(
    command: ConfirmableCommands,
    vmid: u32,
    data: &Option<Result<GuestStatus, String>>,
) -> (r: (&'static str, String))
    ensures
        r.0@ == task_type_of(command),
        r.1@ == name_or_id(vmid, loaded_name(*data)),
{
    let task_type = match command {
        ConfirmableCommands::Reboot => "vzreboot",
        ConfirmableCommands::Shutdown => "vzshutdown",
        ConfirmableCommands::Stop => "vzstop",
    };
    (task_type, guest_name_or_id(vmid, data))
}

/// The status command a confirmed command posts.
pub fn command_of(command: ConfirmableCommands) -> (r: &'static str)
    ensures
        r@ == posted_command(command),
{
    match command {
        ConfirmableCommands::Reboot => "reboot",
        ConfirmableCommands::Shutdown => "shutdown",
        ConfirmableCommands::Stop => "stop",
    }
}

/// Which action buttons are enabled: start while stopped; shutdown and its
/// menu (reboot, stop) while running.
#[derive(Clone, Copy, Debug, PartialEq, Eq, Structural)]
pub struct LxcActions {
    pub start_enabled: bool,
    pub shutdown_enabled: bool,
}

/// The action buttons for a container in status `data`.
pub fn lxc_actions(data: &GuestStatus) -> (a: LxcActions)
    ensures
        a.start_enabled == (data.status != IsRunning::Running),
        a.shutdown_enabled == (data.status == IsRunning::Running),
{
    let running = data.status == IsRunning::Running;
    LxcActions { start_enabled: !running, shutdown_enabled: running }
}

/// Events of the panel.
pub enum Msg {
    Load,
    LoadResult(Result<GuestStatus, String>),
    CommandResult(Result<String, String>),
    /// Ask to confirm a command; the text is the description of its task
    /// (see `format_guest_task_confirmation`).
    Confirm(ConfirmableCommands, String),
    CloseDialog,
    /// Post a status command.
    LxcCommand(String),
}

/// State of the panel.
pub struct PveLxcDashboardPanel {
    pub data: Option<Result<GuestStatus, String>>,
    pub running_upid: Option<String>,
    pub confirm_lxc_command: Option<PendingCommand>,
}

impl PveLxcDashboardPanel {
    /// The panel as it opens: nothing loaded, no task, no dialog; it then
    /// loads the status.
    pub fn create() -> (p: Self)
        ensures
            p.data is None,
            p.running_upid is None,
            p.confirm_lxc_command is None,
    {
        PveLxcDashboardPanel { data: None, running_upid: None, confirm_lxc_command: None }
    }

    /// Handles one event. The status is requested from
    /// `.../status/current` and requested again after each answer;
    /// commands are posted to `.../status/{command}`; their task is then
    /// followed, or the failure shown.
    pub fn update(&mut self, props: &LxcDashboardPanel, msg: Msg) -> (a: GuestAction)
        ensures
            match msg {
                Msg::Load => a matches GuestAction::Fetch(u) && u@ == lxc_path(props.node@, props.vmid as u64) + "/status/"@ + "current"@,
                Msg::LoadResult(_) => a is ScheduleReload,
                Msg::LxcCommand(c) => a matches GuestAction::Post { url, todisk } && url@ == lxc_path(
                    props.node@,
                    props.vmid as u64,
                ) + "/status/"@ + c@ && !todisk,
                Msg::CommandResult(Err(e)) => a matches GuestAction::ShowCommandError(m) && m@ == e@,
                _ => a is Idle,
            },
            match msg {
                Msg::LoadResult(r) => final(self).data == Some(r),
                _ => final(self).data == old(self).data,
            },
            opt_text(final(self).running_upid) == match msg {
                Msg::CommandResult(Ok(u)) => Some(u@),
                Msg::CommandResult(Err(_)) => None,
                _ => opt_text(old(self).running_upid),
            },
            match msg {
                Msg::Confirm(c, text) => final(self).confirm_lxc_command matches Some(p) && p.command@
                    == posted_command(c) && !p.todisk && p.confirm_message@ == text@,
                Msg::CloseDialog => final(self).confirm_lxc_command is None,
                _ => final(self).confirm_lxc_command == old(self).confirm_lxc_command,
            },
    {
        match msg {
            Msg::CloseDialog => {
                self.confirm_lxc_command = None;
                GuestAction::Idle
            },
            Msg::Load => {
                GuestAction::Fetch(lxc_status_url(props.node.as_str(), props.vmid as u64, "current"))
            },
            Msg::LoadResult(result) => {
                self.data = Some(result);
                GuestAction::ScheduleReload
            },
            Msg::LxcCommand(command) => {
                GuestAction::Post {
                    url: lxc_status_url(props.node.as_str(), props.vmid as u64, command.as_str()),
                    todisk: false,
                }
            },
            Msg::CommandResult(result) => match result {
                Ok(upid) => {
                    self.running_upid = Some(upid);
                    GuestAction::Idle
                },
                Err(err) => {
                    self.running_upid = None;
                    GuestAction::ShowCommandError(err)
                },
            },
            Msg::Confirm(command, text) => {
                let cmd = command_of(command);
                self.confirm_lxc_command = Some(
                    PendingCommand {
                        command: String::from_str(cmd),
                        confirm_message: text,
                        todisk: false,
                    },
                );
                GuestAction::Idle
            },
        }
    }
}

} // verus!
