//! The plain VM status page: start, stop and shut down without
//! confirmation, with its tabs.

use vstd::prelude::*;
use crate::guest::{GuestAction, GuestStatus};
use crate::status_pages::GuestViewState;
use crate::task_status::IsRunning;
use crate::urls::{qemu_path, qemu_status_url};

verus! {

/// Properties of the page: the VM and its node.
pub struct PageVmStatus {
    pub vmid: u32,
    pub node: String,
}

impl PageVmStatus {
    /// The page of VM `vmid` on `node`.
    pub fn new(node: String, vmid: u32) -> (p: Self)
        ensures
            p.node@ == node@,
            p.vmid == vmid,
    {
        PageVmStatus { vmid, node }
    }
}

/// Events of the page.
pub enum Msg {
    Load,
    LoadResult(Result<GuestStatus, String>),
    CommandResult(Result<String, String>),
    Start,
    Stop,
    Shutdown,
    SetViewState(GuestViewState),
}

/// State of the page.
pub struct PvePageVmStatus {
    pub view_state: GuestViewState,
    pub data: Result<GuestStatus, String>,
}

/// Which buttons are enabled: start while stopped; shutdown, stop and the
/// console while running.
#[derive(Clone, Copy, Debug, PartialEq, Eq, Structural)]
pub struct VmButtons {
    pub start_enabled: bool,
    pub shutdown_enabled: bool,
    pub console_enabled: bool,
}

/// The buttons for a VM in status `data`.
pub fn vm_buttons(data: &GuestStatus) -> (b: VmButtons)
    ensures
        b.start_enabled == (data.status != IsRunning::Running),
        b.shutdown_enabled == (data.status == IsRunning::Running),
        b.console_enabled == (data.status == IsRunning::Running),
{
    let running = data.status == IsRunning::Running;
    VmButtons { start_enabled: !running, shutdown_enabled: running, console_enabled: running }
}

impl PvePageVmStatus {
    /// The page as it opens on the kept tab, nothing loaded; it then loads.
    pub fn create(view_state: GuestViewState) -> (p: Self)
        ensures
            p.view_state == view_state,
            p.data matches Err(e) && e@ == "no data loaded"@,
    {
        PvePageVmStatus { view_state, data: Err(String::from_str("no data loaded")) }
    }

    /// Status requests go to `.../status/current` and repeat after each
    /// answer; the commands post to `.../status/{start,stop,shutdown}`.
    pub fn update(&mut self, props: &PageVmStatus, msg: Msg) -> (a: GuestAction)
        ensures
            match msg {
                Msg::Load => a matches GuestAction::Fetch(u) && u@ == qemu_path(props.node@, props.vmid as u64) + "/status/"@ + "current"@,
                Msg::LoadResult(_) => a is ScheduleReload,
                Msg::Start => a matches GuestAction::Post { url, todisk } && !todisk && url@ == qemu_path(props.node@, props.vmid as u64) + "/status/"@ + "start"@,
                Msg::Stop => a matches GuestAction::Post { url, todisk } && !todisk && url@ == qemu_path(props.node@, props.vmid as u64) + "/status/"@ + "stop"@,
                Msg::Shutdown => a matches GuestAction::Post { url, todisk } && !todisk && url@ == qemu_path(props.node@, props.vmid as u64) + "/status/"@ + "shutdown"@,
                _ => a is Idle,
            },
            match msg {
                Msg::LoadResult(r) => final(self).data == r,
                _ => final(self).data == old(self).data,
            },
            final(self).view_state == match msg {
                Msg::SetViewState(v) => v,
                _ => old(self).view_state,
            },
    {
        let node = props.node.as_str();
        let vmid = props.vmid as u64;
        match msg {
            Msg::Load => GuestAction::Fetch(qemu_status_url(node, vmid, "current")),
            Msg::LoadResult(r) => {
                self.data = r;
                GuestAction::ScheduleReload
            },
            Msg::CommandResult(_) => GuestAction::Idle,
            Msg::Start => GuestAction::Post { url: qemu_status_url(node, vmid, "start"), todisk: false },
            Msg::Stop => GuestAction::Post { url: qemu_status_url(node, vmid, "stop"), todisk: false },
            Msg::Shutdown => GuestAction::Post {
                url: qemu_status_url(node, vmid, "shutdown"),
                todisk: false,
            },
            Msg::SetViewState(v) => {
                self.view_state = v;
                GuestAction::Idle
            },
        }
    }
}

} // verus!
