use pve_yew_mobile::guest::{
    guest_name_or_id, memory_usage, run_state_text, status_tile_title, GuestAction, GuestStatus,
};
use pve_yew_mobile::lxc_dashboard::{
    self as lxc, lxc_actions, LxcDashboardPanel, PveLxcDashboardPanel,
};
use pve_yew_mobile::qemu_dashboard::{
    command_of, format_guest_task_confirmation, qemu_actions, qemu_status_word,
    ConfirmableCommands, Msg, PveQemuDashboardPanel, QemuDashboardPanel,
};
use pve_yew_mobile::task_status::IsRunning;
use pve_yew_mobile::vm_status_page::{self as vmpage, vm_buttons, PageVmStatus, PvePageVmStatus};
use pve_yew_mobile::status_pages::GuestViewState;

fn status(running: bool, name: Option<&str>, qmp: Option<&str>) -> GuestStatus {
    GuestStatus {
        vmid: 100,
        name: name.map(|s| s.to_string()),
        status: if running { IsRunning::Running } else { IsRunning::Stopped },
        qmpstatus: qmp.map(|s| s.to_string()),
        mem: Some(1024),
        maxmem: Some(4096),
    }
}

#[test]
fn status_tile() {
    assert_eq!(status_tile_title(&status(true, Some("web"), None)), "100 web");
    assert_eq!(status_tile_title(&status(true, None, None)), "100 ");
    assert_eq!(memory_usage(&status(true, None, None)), Some((1024, 4096)));
    assert_eq!(memory_usage(&status(false, None, None)), None);
    assert_eq!(run_state_text(IsRunning::Stopped), "stopped");
    assert_eq!(qemu_status_word(&status(true, None, Some("paused"))), "paused");
    assert_eq!(qemu_status_word(&status(true, None, None)), "running");
    assert_eq!(guest_name_or_id(7, &None), "7");
    assert_eq!(guest_name_or_id(7, &Some(Ok(status(true, Some("db"), None)))), "db");
    assert_eq!(guest_name_or_id(7, &Some(Err("x".to_string()))), "7");
}

#[test]
fn qemu_commands() {
    let data = Some(Ok(status(true, Some("web"), None)));
    let (t, n) = format_guest_task_confirmation(ConfirmableCommands::Pause, 100, &data);
    assert_eq!((t, n.as_str()), ("qmpause", "web"));
    let (t, n) = format_guest_task_confirmation(ConfirmableCommands::Suspend, 100, &None);
    assert_eq!((t, n.as_str()), ("qmsuspend", "100"));
    assert_eq!(format_guest_task_confirmation(ConfirmableCommands::Reset, 1, &None).0, "qmreset");
    assert_eq!(format_guest_task_confirmation(ConfirmableCommands::Reboot, 1, &None).0, "qmreboot");
    assert_eq!(format_guest_task_confirmation(ConfirmableCommands::Shutdown, 1, &None).0, "qmshutdown");
    assert_eq!(format_guest_task_confirmation(ConfirmableCommands::Stop, 1, &None).0, "qmstop");
    assert_eq!(command_of(ConfirmableCommands::Pause), ("suspend", false));
    assert_eq!(command_of(ConfirmableCommands::Suspend), ("suspend", true));
    assert_eq!(command_of(ConfirmableCommands::Stop), ("stop", false));
}

#[test]
fn qemu_action_buttons() {
    let a = qemu_actions(&status(true, None, Some("running")));
    assert!(!a.resume && !a.start_enabled && a.shutdown_enabled);
    for q in ["prelaunch", "paused", "suspended"] {
        assert!(qemu_actions(&status(true, None, Some(q))).resume);
    }
    let a = qemu_actions(&status(false, None, None));
    assert!(!a.resume && a.start_enabled && !a.shutdown_enabled);
}

#[test]
fn qemu_panel() {
    let props = QemuDashboardPanel::new("pve1".to_string(), 100);
    let mut p = PveQemuDashboardPanel::create();
    assert!(matches!(p.update(&props, Msg::Load), GuestAction::Fetch(ref u) if u == "/nodes/pve1/qemu/100/status/current"));
    assert!(matches!(p.update(&props, Msg::LoadResult(Ok(status(true, None, None)))), GuestAction::ScheduleReload));
    p.update(&props, Msg::Confirm(ConfirmableCommands::Suspend, "Hibernate VM 100".to_string()));
    let c = p.confirm_vm_command.as_ref().unwrap();
    assert_eq!(c.command, "suspend");
    assert!(c.todisk);
    assert_eq!(c.confirm_message, "Hibernate VM 100");
    match p.update(&props, Msg::VmCommand("suspend".to_string(), true)) {
        GuestAction::Post { url, todisk } => {
            assert_eq!(url, "/nodes/pve1/qemu/100/status/suspend");
            assert!(todisk);
        }
        _ => panic!("expected a post"),
    }
    p.update(&props, Msg::CloseDialog);
    assert!(p.confirm_vm_command.is_none());
    p.update(&props, Msg::CommandResult(Ok("UPID:1".to_string())));
    assert_eq!(p.running_upid.as_deref(), Some("UPID:1"));
    assert!(matches!(p.update(&props, Msg::CommandResult(Err("no".to_string()))), GuestAction::ShowCommandError(ref e) if e == "no"));
    assert_eq!(p.running_upid, None);
    p.update(&props, Msg::StartCommand("UPID:2".to_string()));
    assert_eq!(p.running_upid.as_deref(), Some("UPID:2"));
}

#[test]
fn lxc_panel() {
    let a = lxc_actions(&status(true, None, None));
    assert!(!a.start_enabled && a.shutdown_enabled);
    assert_eq!(lxc::format_guest_task_confirmation(lxc::ConfirmableCommands::Reboot, 5, &None).0, "vzreboot");
    assert_eq!(lxc::format_guest_task_confirmation(lxc::ConfirmableCommands::Shutdown, 5, &None).0, "vzshutdown");
    assert_eq!(lxc::format_guest_task_confirmation(lxc::ConfirmableCommands::Stop, 5, &None).1, "5");
    assert_eq!(lxc::command_of(lxc::ConfirmableCommands::Stop), "stop");
    let props = LxcDashboardPanel::new("pve1".to_string(), 101);
    let mut p = PveLxcDashboardPanel::create();
    assert!(matches!(p.update(&props, lxc::Msg::Load), GuestAction::Fetch(ref u) if u == "/nodes/pve1/lxc/101/status/current"));
    match p.update(&props, lxc::Msg::LxcCommand("start".to_string())) {
        GuestAction::Post { url, todisk } => {
            assert_eq!(url, "/nodes/pve1/lxc/101/status/start");
            assert!(!todisk);
        }
        _ => panic!("expected a post"),
    }
    p.update(&props, lxc::Msg::Confirm(lxc::ConfirmableCommands::Reboot, "Reboot CT 101".to_string()));
    assert_eq!(p.confirm_lxc_command.as_ref().unwrap().command, "reboot");
}

#[test]
fn vm_status_page() {
    let props = PageVmStatus::new("pve1".to_string(), 100);
    let mut p = PvePageVmStatus::create(GuestViewState::Options);
    assert!(matches!(p.data, Err(ref e) if e == "no data loaded"));
    assert!(matches!(p.update(&props, vmpage::Msg::Start), GuestAction::Post { ref url, .. } if url == "/nodes/pve1/qemu/100/status/start"));
    assert!(matches!(p.update(&props, vmpage::Msg::Stop), GuestAction::Post { ref url, .. } if url == "/nodes/pve1/qemu/100/status/stop"));
    assert!(matches!(p.update(&props, vmpage::Msg::Shutdown), GuestAction::Post { ref url, .. } if url == "/nodes/pve1/qemu/100/status/shutdown"));
    p.update(&props, vmpage::Msg::SetViewState(GuestViewState::Backup));
    assert_eq!(p.view_state, GuestViewState::Backup);
    let b = vm_buttons(&status(false, None, None));
    assert!(b.start_enabled && !b.shutdown_enabled && !b.console_enabled);
}
