//! The dashboard of a virtual machine: its power commands, which of them
//! need confirmation, and the panel's states.

use vstd::prelude::*;
use crate::guest::{
    GuestAction, GuestStatus, PendingCommand, guest_name_or_id, loaded_name, name_or_id,
};
use crate::text::opt_text;
use crate::task_status::IsRunning;
use crate::text::same_text;
use crate::urls::{qemu_path, qemu_status_url};

verus! {

/// Properties of the panel: the VM and its node.
pub struct QemuDashboardPanel {
    pub vmid: u32,
    pub node: String,
}

impl QemuDashboardPanel {
    /// The panel of VM `vmid` on `node`.
    pub fn new(node: String, vmid: u32) -> (p: Self)
        ensures
            p.node@ == node@,
            p.vmid == vmid,
    {
        QemuDashboardPanel { vmid, node }
    }
}

/// The VM commands that ask for confirmation first.
#[derive(Clone, Copy, Debug, PartialEq, Eq, Structural)]
pub enum ConfirmableCommands {
    Pause,
    Reboot,
    Reset,
    Suspend,
    Stop,
    Shutdown,
}

/// The task type that describes a command in its confirmation.
pub open spec fn task_type_of(c: ConfirmableCommands) -> Seq<char> {
    match c {
        ConfirmableCommands::Pause => "qmpause"@,
        ConfirmableCommands::Suspend => "qmsuspend"@,
        ConfirmableCommands::Reset => "qmreset"@,
        ConfirmableCommands::Reboot => "qmreboot"@,
        ConfirmableCommands::Shutdown => "qmshutdown"@,
        ConfirmableCommands::Stop => "qmstop"@,
    }
}

/// The status command a confirmed command posts, and whether it suspends
/// to disk: pausing and hibernating both post "suspend", hibernation with
/// `todisk`.
pub open spec fn posted_command(c: ConfirmableCommands) -> (Seq<char>, bool) {
    match c {
        ConfirmableCommands::Pause => ("suspend"@, false),
        ConfirmableCommands::Suspend => ("suspend"@, true),
        ConfirmableCommands::Reset => ("reset"@, false),
        ConfirmableCommands::Reboot => ("reboot"@, false),
        ConfirmableCommands::Shutdown => ("shutdown"@, false),
        ConfirmableCommands::Stop => ("stop"@, false),
    }
}

/// What the confirmation of a command describes: the task type and the
/// guest's name (or id). The description itself is looked up from these.
pub fn format_guest_task_confirmation(
    command: ConfirmableCommands,
    vmid: u32,
    data: &Option<Result<GuestStatus, String>>,
) -> (r: (&'static str, String))
    ensures
        r.0@ == task_type_of(command),
        r.1@ == name_or_id(vmid, loaded_name(*data)),
{
    let task_type = match command {
        ConfirmableCommands::Pause => "qmpause",
        ConfirmableCommands::Suspend => "qmsuspend",
        ConfirmableCommands::Reset => "qmreset",
        ConfirmableCommands::Reboot => "qmreboot",
        ConfirmableCommands::Shutdown => "qmshutdown",
        ConfirmableCommands::Stop => "qmstop",
    };
    (task_type, guest_name_or_id(vmid, data))
}

/// The status command a confirmed command posts, and its `todisk` flag.
pub fn command_of(command: ConfirmableCommands) -> (r: (&'static str, bool))
    ensures
        r.0@ == posted_command(command).0,
        r.1 == posted_command(command).1,
{
    match command {
        ConfirmableCommands::Pause => ("suspend", false),
        ConfirmableCommands::Suspend => ("suspend", true),
        ConfirmableCommands::Reset => ("reset", false),
        ConfirmableCommands::Reboot => ("reboot", false),
        ConfirmableCommands::Shutdown => ("shutdown", false),
        ConfirmableCommands::Stop => ("stop", false),
    }
}

/// A VM in one of these QMP states is resumed rather than started.
pub open spec fn resumable(qmpstatus: Seq<char>) -> bool {
    qmpstatus == "prelaunch"@ || qmpstatus == "paused"@ || qmpstatus == "suspended"@
}

/// Which action buttons the dashboard offers and which are enabled.
#[derive(Clone, Copy, Debug, PartialEq, Eq, Structural)]
pub struct QemuActions {
    /// "Resume" is offered in place of "Start".
    pub resume: bool,
    pub start_enabled: bool,
    /// Shutdown and its menu (reboot, pause, hibernate, stop, reset).
    pub shutdown_enabled: bool,
}

/// The QMP status, empty where none is reported.
pub open spec fn qmp_of(s: GuestStatus) -> Seq<char> {
    match s.qmpstatus {
        Some(q) => q@,
        None => Seq::empty(),
    }
}

/// The action buttons for a VM in status `data`: resume where paused,
/// suspended or prelaunched, else start while stopped; shutdown and the
/// other commands while running.
pub fn qemu_actions(data: &GuestStatus) -> (a: QemuActions)
    ensures
        a.resume == resumable(qmp_of(*data)),
        a.start_enabled == (data.status != IsRunning::Running),
        a.shutdown_enabled == (data.status == IsRunning::Running),
{
    let qmp: &str = match &data.qmpstatus {
        Some(q) => q.as_str(),
        None => {
            proof {
                reveal_strlit("");
                assert(""@ =~= Seq::<char>::empty());
            }
            ""
        },
    };
    assert(qmp@ == qmp_of(*data));
    let resume = same_text(qmp, "prelaunch") || same_text(qmp, "paused") || same_text(
        qmp,
        "suspended",
    );
    let running = data.status == IsRunning::Running;
    QemuActions { resume, start_enabled: !running, shutdown_enabled: running }
}

/// The status word of a VM's tile: its QMP status, or its run state.
pub fn qemu_status_word(data: &GuestStatus) -> (r: String)
    ensures
        opt_text(Some(r)) == Some(match data.qmpstatus {
            Some(q) => q@,
            None => crate::guest::run_state_name(data.status),
        }),
{
    match &data.qmpstatus {
        Some(q) => q.clone(),
        None => crate::guest::run_state_text(data.status),
    }
}

/// Events of the panel.
pub enum Msg {
    Load,
    LoadResult(Result<GuestStatus, String>),
    CommandResult(Result<String, String>),
    /// The hardware panel started a task with this id.
    StartCommand(String),
    /// Ask to confirm a command; the text is the description of its task
    /// (see `format_guest_task_confirmation`).
    Confirm(ConfirmableCommands, String),
    CloseDialog,
    /// Post a status command, with `todisk` where set.
    VmCommand(String, bool),
}

/// State of the panel.
pub struct PveQemuDashboardPanel {
    pub data: Option<Result<GuestStatus, String>>,
    pub running_upid: Option<String>,
    pub confirm_vm_command: Option<PendingCommand>,
}

impl PveQemuDashboardPanel {
    /// The panel as it opens: nothing loaded, no task, no dialog; it then
    /// loads the status.
    pub fn create() -> (p: Self)
        ensures
            p.data is None,
            p.running_upid is None,
            p.confirm_vm_command is None,
    {
        PveQemuDashboardPanel { data: None, running_upid: None, confirm_vm_command: None }
    }

    /// Handles one event. The status is requested from
    /// `.../status/current` and requested again after each answer;
    /// commands are posted to `.../status/{command}`; their task is then
    /// followed, or the failure shown.
    pub fn update(&mut self, props: &QemuDashboardPanel, msg: Msg) -> (a: GuestAction)
        ensures
            match msg {
                Msg::Load => a matches GuestAction::Fetch(u) && u@ == qemu_path(props.node@, props.vmid as u64) + "/status/"@ + "current"@,
                Msg::LoadResult(_) => a is ScheduleReload,
                Msg::VmCommand(c, todisk) => a matches GuestAction::Post { url, todisk: t } && url@
                    == qemu_path(props.node@, props.vmid as u64) + "/status/"@ + c@ && t == todisk,
                Msg::CommandResult(Err(e)) => a matches GuestAction::ShowCommandError(m) && m@ == e@,
                _ => a is Idle,
            },
            match msg {
                Msg::LoadResult(r) => final(self).data == Some(r),
                _ => final(self).data == old(self).data,
            },
            opt_text(final(self).running_upid) == match msg {
                Msg::StartCommand(u) => Some(u@),
                Msg::CommandResult(Ok(u)) => Some(u@),
                Msg::CommandResult(Err(_)) => None,
                _ => opt_text(old(self).running_upid),
            },
            match msg {
                Msg::Confirm(c, text) => final(self).confirm_vm_command matches Some(p) && p.command@
                    == posted_command(c).0 && p.todisk == posted_command(c).1 && p.confirm_message@
                    == text@,
                Msg::CloseDialog => final(self).confirm_vm_command is None,
                _ => final(self).confirm_vm_command == old(self).confirm_vm_command,
            },
    {
        match msg {
            Msg::CloseDialog => {
                self.confirm_vm_command = None;
                GuestAction::Idle
            },
            Msg::Load => {
                GuestAction::Fetch(qemu_status_url(props.node.as_str(), props.vmid as u64, "current"))
            },
            Msg::LoadResult(result) => {
                self.data = Some(result);
                GuestAction::ScheduleReload
            },
            Msg::VmCommand(command, todisk) => {
                GuestAction::Post {
                    url: qemu_status_url(props.node.as_str(), props.vmid as u64, command.as_str()),
                    todisk,
                }
            },
            Msg::StartCommand(upid) => {
                self.running_upid = Some(upid);
                GuestAction::Idle
            },
            Msg::CommandResult(result) => match result {
                Ok(upid) => {
                    self.running_upid = Some(upid);
                    GuestAction::Idle
                },
                Err(err) => {
                    self.running_upid = None;
                    GuestAction::ShowCommandError(err)
                },
            },
            Msg::Confirm(command, text) => {
                let (cmd, todisk) = command_of(command);
                self.confirm_vm_command = Some(
                    PendingCommand {
                        command: String::from_str(cmd),
                        confirm_message: text,
                        todisk,
                    },
                );
                GuestAction::Idle
            },
        }
    }
}

} // verus!
