use pve_yew_mobile::node_dashboard::{
    cpu_threads_label, cpu_title, node_command_confirmation, CpuInfo, Msg, NodeAction,
    NodeDashboardPanel, PveNodeDashboardPanel,
};
use pve_yew_mobile::node_services::{
    all_running, service_state_icon, service_summary, Msg as SMsg, NodeServicesPanel,
    PanelAction, PveNodeServicesPanel, ServiceStatus, StateStyle,
};
use pve_yew_mobile::node_updates::{
    version_info, APTUpdateInfo, Msg as UMsg, NodeUpdatesPanel, PveNodeUpdatesPanel,
};
use pve_yew_mobile::status_pages::{
    guest_page_title, guest_tab_key, guest_view_state_key, is_standalone, node_page_title,
    node_tab_key, node_view_state_key, ClusterNodeStatus, ClusterNodeStatusType, GuestViewState,
    NodePageMsg, NodeViewState, PvePageNodeStatus,
};

fn svc(name: &str, state: &str, unit: &str) -> ServiceStatus {
    ServiceStatus {
        name: name.to_string(),
        desc: String::new(),
        state: state.to_string(),
        unit_state: unit.to_string(),
    }
}

#[test]
fn services_summary() {
    let list = vec![svc("pveproxy", "running", "enabled"), svc("corosync", "dead", "enabled")];
    assert!(!all_running(&list, false));
    assert!(all_running(&list, true));
    assert_eq!(service_summary(&list, true), "All required services running");
    assert_eq!(service_summary(&list, false), "One or more required services not running");
    assert!(all_running(&vec![svc("x", "dead", "masked"), svc("y", "dead", "not-found")], false));
    assert!(all_running(&vec![], false));
}

#[test]
fn service_states() {
    assert_eq!(service_state_icon(&svc("a", "running", "masked")), ("running".to_string(), StateStyle::Running));
    assert_eq!(service_state_icon(&svc("a", "dead", "masked")), ("masked".to_string(), StateStyle::Disabled));
    assert_eq!(service_state_icon(&svc("a", "dead", "not-found")), ("not-found".to_string(), StateStyle::Disabled));
    assert_eq!(service_state_icon(&svc("a", "dead", "enabled")), ("dead".to_string(), StateStyle::Other));
}

#[test]
fn services_and_updates_panels() {
    let props = NodeServicesPanel::new("pve1".to_string(), true);
    let mut p = PveNodeServicesPanel::create();
    assert!(matches!(p.update(&props, SMsg::Load), PanelAction::Fetch(ref u) if u == "/nodes/pve1/services"));
    assert!(matches!(p.update(&props, SMsg::LoadResult(Ok(vec![]))), PanelAction::ScheduleReload));
    let props = NodeUpdatesPanel::new("pve1".to_string());
    let mut u = PveNodeUpdatesPanel::create();
    assert!(matches!(u.update(&props, UMsg::Load), PanelAction::Fetch(ref x) if x == "/nodes/pve1/apt/update"));
    u.update(&props, UMsg::LoadResult(Ok(vec![])));
    assert!(u.is_empty());
    let info = APTUpdateInfo {
        package: "pve-manager".to_string(),
        title: "PVE".to_string(),
        version: "8.1".to_string(),
        old_version: Some("8.0".to_string()),
        description: String::new(),
    };
    assert_eq!(version_info(&info), "8.0 -> 8.1");
    let mut fresh = info.clone();
    fresh.old_version = None;
    assert_eq!(version_info(&fresh), "not installed -> 8.1");
    u.update(&props, UMsg::ShowInfo(Some(info)));
    assert!(u.show_info.is_some());
    u.update(&props, UMsg::ShowInfo(None));
    assert!(u.show_info.is_none());
}

#[test]
fn node_dashboard() {
    let c = CpuInfo { cores: 8, sockets: 2, cpus: 16, model: "x".to_string() };
    assert_eq!(cpu_title(&c), "CPU (8 Cores, 2 Sockets)");
    assert_eq!(cpu_threads_label(&c), "% of 16 threads");
    assert_eq!(node_command_confirmation(true, "pve1"), "Reboot node 'pve1'?");
    assert_eq!(node_command_confirmation(false, "pve1"), "Shutdown node 'pve1'?");
    let props = NodeDashboardPanel::new("pve1".to_string());
    let mut p = PveNodeDashboardPanel::create();
    assert!(matches!(p.update(&props, Msg::Load), NodeAction::Fetch(ref u) if u == "/nodes/pve1/status"));
    match p.update(&props, Msg::Reboot) {
        NodeAction::Post { url, command } => {
            assert_eq!(url, "/nodes/pve1/status");
            assert_eq!(command, "reboot");
        }
        _ => panic!("expected post"),
    }
    assert!(matches!(p.update(&props, Msg::Shutdown), NodeAction::Post { ref command, .. } if command == "shutdown"));
    assert!(matches!(p.update(&props, Msg::CommandResult(Err("x".to_string()))), NodeAction::Notify(ref m) if m == "Command failed: x"));
    assert!(matches!(p.update(&props, Msg::CommandResult(Ok(()))), NodeAction::Idle));
}

#[test]
fn node_page_and_tabs() {
    assert_eq!(node_page_title("pve1"), "Node pve1");
    assert_eq!(guest_page_title(true, 101), "CT 101");
    assert_eq!(guest_page_title(false, 100), "VM 100");
    assert_eq!(node_view_state_key("pve1"), "node-pve1-status-tab-bar-state");
    assert_eq!(guest_view_state_key(false, 100), "vm-100-status-tab-bar-state");
    assert_eq!(guest_tab_key(GuestViewState::Backup), "backup");
    assert_eq!(node_tab_key(NodeViewState::Updates), "updates");
    assert_eq!(GuestViewState::default(), GuestViewState::Dashboard);
    assert_eq!(NodeViewState::default(), NodeViewState::Dashboard);

    assert!(is_standalone("pve1", &None));
    let cluster = vec![
        ClusterNodeStatus { name: "pve1".to_string(), ty: ClusterNodeStatusType::Node },
        ClusterNodeStatus { name: "lab".to_string(), ty: ClusterNodeStatusType::Cluster },
    ];
    assert!(is_standalone("pve1", &Some(cluster.clone())));
    assert!(!is_standalone("lab", &Some(cluster.clone())));

    let mut page = PvePageNodeStatus::create(NodeViewState::Services);
    assert_eq!(page.update(NodePageMsg::SetNodeStatus(Err("e".to_string()))).as_deref(), Some("e"));
    assert_eq!(page.update(NodePageMsg::SetNodeStatus(Ok(cluster))), None);
    assert!(page.cluster_node_status.is_some());
    page.update(NodePageMsg::SetViewState(NodeViewState::Dashboard));
    assert_eq!(page.view_state, NodeViewState::Dashboard);
}
