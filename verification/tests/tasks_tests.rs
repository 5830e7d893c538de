use pve_yew_mobile::upid::upid_node;
use pve_yew_mobile::task_list_button::{
    Msg as ButtonMsg, ProxmoxTaskListButton, TaskButtonAction, TasksListButton,
};
use pve_yew_mobile::task_status::{
    task_duration, task_state_text, IsRunning, Msg, PageTaskStatus, PvePageTaskStatus,
    TaskStatus, TaskStatusAction, ViewState,
};
use pve_yew_mobile::tasks_panel::{
    task_icon, task_info_time, ListTasksResponse, Msg as PanelMsg, PveTasksPanel, TaskIcon,
    TasksContent, TasksPanel, TasksPanelAction,
};

const U1: &str = "UPID:pve1:000012AB:0000CDEF:65A1B2C3:qmstart:100:root@pam:";

fn task(endtime: Option<i64>, status: Option<&str>) -> ListTasksResponse {
    ListTasksResponse {
        upid: "UPID:pve1:1".to_string(),
        starttime: 100,
        endtime,
        status: status.map(|s| s.to_string()),
    }
}

fn status(running: bool, exit: Option<&str>) -> TaskStatus {
    TaskStatus {
        status: if running { IsRunning::Running } else { IsRunning::Stopped },
        exitstatus: exit.map(|s| s.to_string()),
        ty: "qmstart".to_string(),
        id: "100".to_string(),
        user: "root@pam".to_string(),
        node: "pve1".to_string(),
        starttime: 100,
        upid: "UPID:pve1:1".to_string(),
    }
}

#[test]
fn task_icons_and_times() {
    assert_eq!(task_icon(&task(None, None)), TaskIcon::Spinner);
    assert_eq!(task_icon(&task(None, Some("OK"))), TaskIcon::Spinner);
    assert_eq!(task_icon(&task(Some(5), Some("OK"))), TaskIcon::Info);
    assert_eq!(task_icon(&task(Some(5), Some("ERROR"))), TaskIcon::Warning);
    assert_eq!(task_icon(&task(Some(5), None)), TaskIcon::Question);
    assert_eq!(task_info_time(&task(Some(5), None)), 5);
    assert_eq!(task_info_time(&task(None, None)), 100);
}

#[test]
fn task_panel() {
    let props = TasksPanel::new("/nodes/pve1/tasks".to_string());
    let mut p = PveTasksPanel::create();
    assert_eq!(p.content(), TasksContent::Loading);
    assert!(matches!(p.update(&props, PanelMsg::Load), TasksPanelAction::Fetch(ref u) if u == "/nodes/pve1/tasks"));
    p.update(&props, PanelMsg::LoadResult(Ok(vec![])));
    assert_eq!(p.content(), TasksContent::Empty);
    p.update(&props, PanelMsg::LoadResult(Ok(vec![task(Some(9), None)])));
    assert_eq!(p.content(), TasksContent::List);
    assert_eq!(p.task_selection(0), Some(("UPID:pve1:1".to_string(), Some(9))));
    assert_eq!(p.task_selection(1), None);
    p.update(&props, PanelMsg::LoadResult(Err("e".to_string())));
    assert_eq!(p.content(), TasksContent::Error);
}

#[test]
fn task_status_page() {
    let mut props = PageTaskStatus::new("/nodes/pve1/tasks".to_string(), "UPID:a".to_string());
    let (mut page, action) = PvePageTaskStatus::create(&props);
    assert!(page.active);
    assert_eq!(page.view_state, ViewState::Output);
    assert!(matches!(action, TaskStatusAction::FetchStatus(ref u) if u == "/nodes/pve1/tasks/UPID%3Aa/status"));
    props.endtime = Some(0);
    assert!(PvePageTaskStatus::create(&props).0.active);
    props.endtime = Some(200);
    assert!(!PvePageTaskStatus::create(&props).0.active);

    let (redraw, a) = page.update(&props, Msg::LoadResult(Ok(status(true, None))));
    assert!(redraw && page.active && matches!(a, TaskStatusAction::ScheduleReload));
    let (_, a) = page.update(&props, Msg::LoadResult(Ok(status(false, Some("OK")))));
    assert!(!page.active && matches!(a, TaskStatusAction::Idle));
    assert!(!page.stop_enabled());
    let (_, a) = page.update(&props, Msg::LoadResult(Err("gone".to_string())));
    assert!(page.active && matches!(a, TaskStatusAction::ScheduleReload));
    let (redraw, a) = page.update(&props, Msg::StopTask);
    assert!(!redraw);
    assert!(matches!(a, TaskStatusAction::Stop(ref u) if u == "/nodes/pve1/tasks/UPID%3Aa"));
    let (_, a) = page.update(&props, Msg::Load);
    assert!(matches!(a, TaskStatusAction::FetchStatus(_)));
    page.update(&props, Msg::SetViewState(ViewState::Status));
    assert_eq!(page.view_state, ViewState::Status);
    let (url, active) = page.log_url(&props);
    assert_eq!(url, "/nodes/pve1/tasks/UPID%3Aa/log");
    assert!(active);

    assert_eq!(task_state_text(&status(true, None)), "running");
    assert_eq!(task_state_text(&status(false, Some("OK"))), "stopped (OK)");
    assert_eq!(task_state_text(&status(false, None)), "stopped (unknown)");
    assert_eq!(task_duration(&props, &status(false, None)), Some(100));
    props.endtime = None;
    assert_eq!(task_duration(&props, &status(false, None)), None);
}

#[test]
fn upid_node_field() {
    assert_eq!(upid_node(U1).as_deref(), Some("pve1"));
    // the Proxmox Backup Server form, with a task number
    assert_eq!(
        upid_node("UPID:pbs-1:00001234:0000ABCD:0000000000000001:65A1B2C3:backup:store1\\x2dvm:root@pam:").as_deref(),
        Some("pbs-1")
    );
    // an empty worker id
    assert_eq!(upid_node("UPID:n1:000012AB:0000CDEF:65A1B2C3:aptupdate::root@pam:").as_deref(), Some("n1"));
    // a nine digit process start
    assert_eq!(upid_node("UPID:n1:000012AB:10000CDEF:65A1B2C3:vzdump::root@pam:").as_deref(), Some("n1"));
    assert_eq!(upid_node("UPID::000012AB:0000CDEF:65A1B2C3:qmstart:100:root@pam:"), None);
    assert_eq!(upid_node("UPID:-pve:000012AB:0000CDEF:65A1B2C3:qmstart:100:root@pam:"), None);
    assert_eq!(upid_node("UPID:pve1:000012AB:0000CDEF:65A1B2C3:qmstart:100:root@pam"), None);
    assert_eq!(upid_node("UPID:pve1:12AB:0000CDEF:65A1B2C3:qmstart:100:root@pam:"), None);
    assert_eq!(upid_node("UPID:pve1:000012AG:0000CDEF:65A1B2C3:qmstart:100:root@pam:"), None);
    assert_eq!(upid_node("UPID:pve1:000012AB:0000CDEF:65A1B2C3::100:root@pam:"), None);
    assert_eq!(upid_node("UPID:pve1:000012AB:0000CDEF:65A1B2C3:qm start:100:root@pam:"), None);
    assert_eq!(upid_node("UPID:pve1:000012AB:0000CDEF:65A1B2C3:qmstart:100::"), None);
    assert_eq!(upid_node("UPID:pve1:0000:x"), None);
    assert_eq!(upid_node("XPID:pve1:000012AB:0000CDEF:65A1B2C3:qmstart:100:root@pam:"), None);
    assert_eq!(upid_node("UPID"), None);
}

#[test]
fn task_list_button_shows_running_task() {
    let props = TasksListButton { running_upid: Some(U1.to_string()) };
    let (mut b, _) = ProxmoxTaskListButton::create(&props, "d".to_string());
    assert_eq!(b.show_running_task(), Some((U1.to_string(), None)));
    b.update(ButtonMsg::TaskStatusResult(U1.to_string(), Ok(status(false, None))), "d".to_string());
    assert_eq!(b.show_running_task(), None);
}

#[test]
fn task_list_button_ignores_malformed_id() {
    let props = TasksListButton { running_upid: Some("UPID:pve1:1:x".to_string()) };
    let (b, a) = ProxmoxTaskListButton::create(&props, "d".to_string());
    assert!(matches!(a, TaskButtonAction::Idle));
    assert_eq!(b.last_task_status.as_deref(), Some("d (running)"));
}

#[test]
fn task_list_button_follows_a_task() {
    let props = TasksListButton { running_upid: Some(U1.to_string()) };
    let (mut b, a) = ProxmoxTaskListButton::create(&props, "VM 100 - Start".to_string());
    assert_eq!(b.last_task_status.as_deref(), Some("VM 100 - Start (running)"));
    match a {
        TaskButtonAction::FetchStatus { upid, url } => {
            assert_eq!(upid, U1);
            assert_eq!(url, "/nodes/pve1/tasks/UPID%3Apve1%3A000012AB%3A0000CDEF%3A65A1B2C3%3Aqmstart%3A100%3Aroot%40pam%3A/status");
        }
        _ => panic!("expected a status request"),
    }
    // an answer for another task is dropped
    let (redraw, a) = b.update(ButtonMsg::TaskStatusResult("UPID:other".to_string(), Ok(status(false, None))), "d".to_string());
    assert!(!redraw && matches!(a, TaskButtonAction::Idle));
    assert_eq!(b.running_upid.as_deref(), Some(U1));
    let (_, a) = b.update(ButtonMsg::TaskStatusResult(U1.to_string(), Ok(status(true, None))), "d".to_string());
    assert!(matches!(a, TaskButtonAction::ScheduleCheck));
    let (_, a) = b.update(ButtonMsg::CheckTaskStatus, "d".to_string());
    assert!(matches!(a, TaskButtonAction::FetchStatus { .. }));
    let (_, a) = b.update(ButtonMsg::TaskStatusResult(U1.to_string(), Ok(status(false, Some("OK")))), "VM 100 - Start".to_string());
    assert!(matches!(a, TaskButtonAction::CancelCheck));
    assert_eq!(b.running_upid, None);
    assert_eq!(b.last_task_status.as_deref(), Some("Finished: VM 100 - Start (OK)"));
    let (_, a) = b.update(ButtonMsg::CheckTaskStatus, "d".to_string());
    assert!(matches!(a, TaskButtonAction::Idle));

    let none = TasksListButton::new();
    let a = b.changed(&props, &none, String::new());
    assert!(matches!(a, TaskButtonAction::Idle));
    assert_eq!(b.last_task_status, None);
    let a = b.changed(&none, &props, "again".to_string());
    assert!(matches!(a, TaskButtonAction::FetchStatus { .. }));
    assert_eq!(b.last_task_status.as_deref(), Some("again (running)"));
    let a = b.changed(&props, &props, "x".to_string());
    assert!(matches!(a, TaskButtonAction::Idle));
    let (_, _) = b.update(ButtonMsg::TaskStatusResult(U1.to_string(), Err("e".to_string())), "T".to_string());
    assert_eq!(b.last_task_status.as_deref(), Some("Finished: T (unknown)"));
}
