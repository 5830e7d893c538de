//! What the guest pages share: the status a guest reports, its status
//! tile, and the events and requests of a guest dashboard.

use vstd::prelude::*;
use crate::text::opt_text;
use crate::task_status::IsRunning;
use crate::text::{decimal, u64_text};

verus! {

/// The current status of a virtual machine or container, with the fields
/// this crate reads (containers report no `qmpstatus`).
#[derive(Clone, Debug)]
pub struct GuestStatus {
    pub vmid: u32,
    pub name: Option<String>,
    pub status: IsRunning,
    pub qmpstatus: Option<String>,
    pub mem: Option<u64>,
    pub maxmem: Option<u64>,
}

/// Serialized name of a run state.
pub open spec fn run_state_name(s: IsRunning) -> Seq<char> {
    match s {
        IsRunning::Running => "running"@,
        IsRunning::Stopped => "stopped"@,
    }
}

/// The serialized name of a run state.
pub fn run_state_text(s: IsRunning) -> (r: String)
    ensures
        r@ == run_state_name(s),
{
    match s {
        IsRunning::Running => String::from_str("running"),
        IsRunning::Stopped => String::from_str("stopped"),
    }
}

/// Title of a guest's status tile: "{vmid} {name}", the name empty where
/// none.
pub open spec fn status_title(s: GuestStatus) -> Seq<char> {
    decimal(s.vmid as nat) + " "@ + match s.name {
        Some(n) => n@,
        None => Seq::empty(),
    }
}

/// The title of a guest's status tile.
pub fn status_tile_title(s: &GuestStatus) -> (r: String)
    ensures
        r@ == status_title(*s),
{
    let mut t = u64_text(s.vmid as u64);
    t.append(" ");
    match &s.name {
        Some(n) => t.append(n.as_str()),
        None => {},
    }
    proof {
        reveal_strlit(" ");
    }
    assert(t@ =~= status_title(*s));
    t
}

/// The memory line of a running guest: used and total bytes, where both
/// are reported.
pub fn memory_usage(s: &GuestStatus) -> (r: Option<(u64, u64)>)
    ensures
        r == (if s.status == IsRunning::Running && s.mem is Some && s.maxmem is Some {
            Some((s.mem->0, s.maxmem->0))
        } else {
            None
        }),
{
    if s.status == IsRunning::Running {
        match (s.mem, s.maxmem) {
            (Some(m), Some(x)) => Some((m, x)),
            _ => None,
        }
    } else {
        None
    }
}

/// How a confirmation names a guest: its name, or its id where it has
/// none.
pub open spec fn name_or_id(vmid: u32, name: Option<Seq<char>>) -> Seq<char> {
    match name {
        Some(n) => n,
        None => decimal(vmid as nat),
    }
}

/// The guest name the loaded status reports, if any.
pub open spec fn loaded_name(data: Option<Result<GuestStatus, String>>) -> Option<Seq<char>> {
    match data {
        Some(Ok(s)) => opt_text(s.name),
        _ => None,
    }
}

/// How a confirmation names the guest of `data`.
pub fn guest_name_or_id(vmid: u32, data: &Option<Result<GuestStatus, String>>) -> (r: String)
    ensures
        r@ == name_or_id(vmid, loaded_name(*data)),
{
    match data {
        Some(Ok(s)) => match &s.name {
            Some(n) => n.clone(),
            None => u64_text(vmid as u64),
        },
        _ => u64_text(vmid as u64),
    }
}

/// Milliseconds between two status requests of a guest dashboard.
pub const GUEST_RELOAD_MS: u32 = 3000;

/// What a guest dashboard asks for after an event.
pub enum GuestAction {
    Idle,
    /// GET this status URL and deliver it as `LoadResult`.
    Fetch(String),
    /// Send `Load` after `GUEST_RELOAD_MS`.
    ScheduleReload,
    /// POST this command URL (with `{"todisk": true}` where the flag is
    /// set) and deliver the answer as `CommandResult`.
    Post { url: String, todisk: bool },
    /// Tell the user that a command failed with this message.
    ShowCommandError(String),
}

/// A command waiting for the user's confirmation.
pub struct PendingCommand {
    pub command: String,
    pub confirm_message: String,
    pub todisk: bool,
}

} // verus!
