use pve_yew_mobile::guest_config::{
    dns_info, lxc_config_lines, lxc_flags, network_info, qemu_config_lines, qemu_flags,
    qemu_hardware_summary, resource_info, ConfigAction, GuestConfigPanel, LxcConfig, Msg,
    PveLxcConfigPanel, PveLxcResourcesPanel, PveVmConfigPanel, QemuConfig, ResourcesMsg,
};
use pve_yew_mobile::navigation::{
    configuration_menu, leading, nav_heading, nav_items, nav_key, resources_tab_filter, Leading,
    MainNavigationSelection, NavBarMsg, PageLogin, PvePageLogin, PveTopNavBar, TopNavBar,
};
use pve_yew_mobile::task_pages::{
    page_not_found_message, PageLxcTasks, PageNodeTasks, PageStorageStatus,
    PvePageStorageStatus, StorageMsg, TaskRoute,
};

fn lxc_config() -> LxcConfig {
    LxcConfig {
        hostname: None,
        startup: None,
        ostype: Some("debian".to_string()),
        arch: None,
        tty: None,
        cmode: None,
        unprivileged: Some(true),
        features: None,
        memory: None,
        swap: Some(256),
        cores: None,
        rootfs: None,
        net: vec![(0, "name=eth0,bridge=vmbr0".to_string()), (3, "name=eth3".to_string())],
        searchdomain: None,
        nameserver: Some("1.1.1.1".to_string()),
    }
}

fn pairs(v: Vec<pve_yew_mobile::guest_config::ConfigLine>) -> Vec<(String, String)> {
    v.into_iter().map(|l| (l.title.to_string(), l.value)).collect()
}

#[test]
fn container_options() {
    let lines = pairs(lxc_config_lines(&lxc_config(), 101));
    let expect: Vec<(String, String)> = vec![
        ("Name", "CT 101"),
        ("Start/Shutdown order", "Default (any)"),
        ("OS Type", "debian"),
        ("Architecture", "-"),
        ("TTY count", "2"),
        ("Console mode", "tty"),
        ("Unprivileged", "true"),
        ("Features", "none"),
    ]
    .into_iter()
    .map(|(a, b)| (a.to_string(), b.to_string()))
    .collect();
    assert_eq!(lines, expect);
    let flags: Vec<(&str, &str, bool)> = lxc_flags().iter().map(|f| (f.title, f.key, f.default)).collect();
    assert_eq!(flags, vec![("Start on boot", "onboot", false), ("Protection", "protection", false), ("Console", "console", true)]);
    let res: Vec<(String, String)> = resource_info(&lxc_config()).into_iter().map(|l| (l.value, l.title)).collect();
    assert_eq!(res[0], ("512 MB".to_string(), "Memory".to_string()));
    assert_eq!(res[1], ("256 MB".to_string(), "Swap".to_string()));
    assert_eq!(res[2], ("1".to_string(), "Cores".to_string()));
    assert_eq!(res[3], ("-".to_string(), "Root Filesystem".to_string()));
    let net = network_info(&lxc_config());
    assert_eq!(net.len(), 2);
    assert_eq!(net[1].title, "Network Device (net3)");
    assert_eq!(net[1].value, "name=eth3");
    let dns = dns_info(&lxc_config());
    assert_eq!(dns[0].value, "Use host settings");
    assert_eq!(dns[1].value, "1.1.1.1");
}

#[test]
fn vm_options() {
    let c = QemuConfig {
        name: Some("web".to_string()),
        startup: None,
        ostype: None,
        boot: None,
        hotplug: None,
        startdate: None,
        smbios1: Some("uuid=1".to_string()),
        spice_enhancements: None,
        vmstatestorage: None,
        memory: Some("2048".to_string()),
        cpu: None,
        bios: None,
    };
    let lines = pairs(qemu_config_lines(&c, 100));
    assert_eq!(lines[0], ("Name".to_string(), "web".to_string()));
    assert_eq!(lines[3], ("Boot Device".to_string(), "Disk, Network, USB".to_string()));
    assert_eq!(lines[4], ("Hotplug".to_string(), "disk,network,usb".to_string()));
    assert_eq!(lines[5], ("RTC start date".to_string(), "now".to_string()));
    assert_eq!(lines[7], ("QEMU Guest Agent".to_string(), "uuid=1".to_string()));
    assert_eq!(lines[9], ("VM State Storage".to_string(), "1 (autogenerated)".to_string()));
    assert_eq!(qemu_flags().len(), 7);
    assert_eq!(qemu_flags()[1].key, "tablet");
    let hw = qemu_hardware_summary(&c);
    assert_eq!(hw[0].1, "2048");
    assert_eq!(hw[1].1, "-");
    assert_eq!(hw[2].1, "Default (SeaBIOS)");
    let mut unnamed = c.clone();
    unnamed.name = None;
    assert_eq!(pairs(qemu_config_lines(&unnamed, 100))[0].1, "VM 100");
}

#[test]
fn option_panels() {
    let props = GuestConfigPanel { vmid: 101, node: "pve1".to_string() };
    let mut p = PveLxcConfigPanel::create();
    assert!(matches!(p.update(&props, Msg::Load), ConfigAction::Fetch(ref u) if u == "/nodes/pve1/lxc/101/config"));
    assert!(matches!(p.update(&props, Msg::LoadResult(Ok(lxc_config()))), ConfigAction::LoadFormAndReload));
    match p.update(&props, Msg::StoreBoolConfig("onboot", true)) {
        ConfigAction::Store { url, key, value } => {
            assert_eq!(url, "/nodes/pve1/lxc/101/config");
            assert_eq!(key, "onboot");
            assert!(value);
        }
        _ => panic!("expected store"),
    }
    assert!(matches!(p.update(&props, Msg::StoreResult(Ok(()))), ConfigAction::StoreDone { error: None, reload: true }));

    let mut v = PveVmConfigPanel::create();
    assert!(matches!(v.data, Err(ref e) if e == "no data loaded"));
    assert!(matches!(v.update(&props, Msg::StoreBoolConfig("kvm", false)),
        ConfigAction::Store { ref url, .. } if url == "/nodes/pve1/qemu/10/config"));
    assert!(matches!(v.update(&props, Msg::StoreResult(Err("x".to_string()))),
        ConfigAction::StoreDone { error: Some(ref m), reload: false } if m == "Update failed: x"));

    let mut r = PveLxcResourcesPanel::create();
    assert!(matches!(r.update(&props, ResourcesMsg::LoadResult(Ok(lxc_config()))), ConfigAction::ScheduleReload));
    assert!(matches!(r.changed(&props), ConfigAction::Fetch(_)));
    assert!(r.data.is_none());
}

#[test]
fn navigation_frame() {
    let bar = TopNavBar::new();
    assert_eq!(nav_heading(&bar), ("Proxmox".to_string(), Some("Virtual Environment".to_string())));
    let mut titled = TopNavBar::new();
    titled.title = Some("Task List".to_string());
    assert_eq!(nav_heading(&titled), ("Task List".to_string(), None));
    titled.subtitle = Some("CT 1".to_string());
    assert_eq!(nav_heading(&titled).1.as_deref(), Some("CT 1"));
    assert!(matches!(leading(&bar, true), Leading::Logo("/images/proxmox_logo_icon_black.png")));
    assert!(matches!(leading(&bar, false), Leading::Logo("/images/proxmox_logo_icon_white.png")));
    titled.back = Some("/resources".to_string());
    assert!(matches!(leading(&titled, true), Leading::Back(ref b) if b == "/resources"));
    let mut state = PveTopNavBar { dark_mode: false };
    assert!(!state.update(NavBarMsg::ThemeChanged(true)));
    assert!(state.dark_mode);
    assert!(state.update(NavBarMsg::Logout));
    assert_eq!(nav_key(MainNavigationSelection::Resources), "resources");
    assert_eq!(nav_items()[2], ("configuration", "fa fa-cogs", "Configuration"));
    let f = resources_tab_filter();
    assert!(!f.qemu && !f.lxc && !f.nodes && !f.storage && f.name.is_empty());
    let menu = configuration_menu();
    assert_eq!(menu.len(), 11);
    assert_eq!(menu[0], ("server", "Cluster"));
    assert_eq!(menu[10], ("comments-o", "Support"));

    let props = PageLogin { consent_text: Some("Be nice".to_string()) };
    let mut login = PvePageLogin::create();
    assert_eq!(login.consent_text(&props).as_deref(), Some("Be nice"));
    assert_eq!(login.consent_text(&PageLogin { consent_text: Some(String::new()) }), None);
    login.consent();
    assert_eq!(login.consent_text(&props), None);
}

#[test]
fn task_and_storage_pages() {
    let n = PageNodeTasks::new("pve 1".to_string());
    let h = n.heading();
    assert_eq!(h.title, "Task List");
    assert_eq!(h.subtitle.as_deref(), Some("Node 'pve 1'"));
    assert_eq!(h.back.as_deref(), Some("/resources/node/pve%201"));
    assert_eq!(n.base_url(), "/nodes/pve%201/tasks");
    assert!(matches!(n.open_task("U".to_string(), None), TaskRoute::NodeTaskStatus { endtime: 0, .. }));
    assert!(matches!(n.open_task("U".to_string(), Some(7)), TaskRoute::NodeTaskStatus { endtime: 7, .. }));
    let c = PageLxcTasks::new("pve1".to_string(), 101);
    assert_eq!(c.heading().subtitle.as_deref(), Some("CT 101"));
    assert_eq!(c.base_url(), "/nodes/pve1/tasks?vmid=101");
    assert!(matches!(c.open_task("U".to_string(), None), TaskRoute::LxcTaskStatus { vmid: 101, endtime: 0, .. }));

    let props = PageStorageStatus { node: "pve1".to_string(), name: "local".to_string() };
    let mut s = PvePageStorageStatus::create();
    assert_eq!(s.update(&props, StorageMsg::Load).as_deref(), Some("/nodes/pve1/storage/local/status"));
    assert_eq!(s.texts(&props), ("Storage local".to_string(), None));
    s.update(&props, StorageMsg::LoadResult(Ok("{}".to_string())));
    assert_eq!(s.texts(&props).1.as_deref(), Some("This is the status for storage local"));
    assert_eq!(page_not_found_message(), "page not found");
}
