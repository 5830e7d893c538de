use pve_yew_mobile::dashboard::{
    analytics_subtitle, count_guests, count_subtitle, dashboard_link_filter, node_status_text, node_tiles, storage_totals,
    subscription_error, ClusterNodeIndexResponse, ClusterNodeIndexResponseStatus, DashboardCache,
    DashboardLink, Msg, PvePageDashboard,
};
use pve_yew_mobile::resources::{ClusterResource, ClusterResourceType, ResourceRoute};

fn node(name: &str, status: ClusterNodeIndexResponseStatus, level: Option<&str>) -> ClusterNodeIndexResponse {
    ClusterNodeIndexResponse {
        node: name.to_string(),
        status,
        level: level.map(|s| s.to_string()),
    }
}

use ClusterNodeIndexResponseStatus::{Offline, Online, Unknown};

fn res(ty: ClusterResourceType, status: Option<&str>, disk: Option<u64>, maxdisk: Option<u64>) -> ClusterResource {
    ClusterResource {
        id: "x".to_string(),
        ty,
        name: None,
        node: None,
        storage: None,
        vmid: None,
        status: status.map(|s| s.to_string()),
        level: None,
        disk,
        maxdisk,
    }
}

#[test]
fn subscription_check() {
    assert_eq!(subscription_error(&vec![node("a", Online, Some("c"))]), None);
    assert_eq!(
        subscription_error(&vec![node("a", Online, Some("c")), node("b", Online, Some("c"))]),
        None
    );
    assert_eq!(
        subscription_error(&vec![node("a", Online, Some("c")), node("b", Online, Some("b"))]).as_deref(),
        Some("notsame")
    );
    assert_eq!(subscription_error(&vec![node("a", Online, None)]).as_deref(), Some("notfound"));
    assert_eq!(subscription_error(&vec![node("a", Online, Some(""))]).as_deref(), Some("notfound"));
    assert_eq!(
        subscription_error(&vec![node("a", Online, Some("c")), node("b", Unknown, None)]).as_deref(),
        Some("notall")
    );
    // an unsubscribed node beats mixed levels
    assert_eq!(
        subscription_error(&vec![
            node("a", Online, Some("c")),
            node("b", Online, Some("b")),
            node("c", Online, None)
        ])
        .as_deref(),
        Some("notall")
    );
    // offline nodes do not count
    assert_eq!(
        subscription_error(&vec![node("a", Online, Some("c")), node("b", Offline, None)]),
        None
    );
    assert_eq!(
        subscription_error(&vec![node("a", Online, Some("c")), node("b", Offline, Some("x"))]),
        None
    );
    // no node counts: no level
    assert_eq!(subscription_error(&vec![node("a", Offline, Some("c"))]).as_deref(), Some("notfound"));
    assert_eq!(subscription_error(&vec![]).as_deref(), Some("notall"));
}

#[test]
fn guest_counts_and_totals() {
    let list = vec![
        res(ClusterResourceType::Qemu, Some("running"), None, None),
        res(ClusterResourceType::Qemu, Some("stopped"), None, None),
        res(ClusterResourceType::Lxc, Some("running"), None, None),
        res(ClusterResourceType::Storage, Some("available"), Some(10), Some(100)),
        res(ClusterResourceType::Storage, None, None, Some(50)),
        res(ClusterResourceType::Node, Some("online"), Some(1000), Some(1000)),
    ];
    let c = count_guests(&list);
    assert_eq!((c.vm_count, c.vm_online_count), (2, 1));
    assert_eq!((c.ct_count, c.ct_online_count), (1, 1));
    assert_eq!((c.storage_count, c.storage_online_count), (2, 1));
    assert_eq!(storage_totals(&list), (10, 150));
}

#[test]
fn node_list() {
    let tiles = node_tiles(&vec![node("a", Online, Some("c")), node("b", Offline, None)]);
    assert_eq!(tiles.len(), 2);
    assert!(tiles[0].highlighted);
    assert_eq!(tiles[0].subtitle, "c");
    assert_eq!(tiles[0].status, "online");
    assert!(!tiles[1].highlighted);
    assert_eq!(tiles[1].subtitle, "no subscription");
    assert_eq!(tiles[1].status, "offline");
    assert!(matches!(tiles[1].route, ResourceRoute::Node { ref nodename } if nodename == "b"));
    assert_eq!(node_status_text(Unknown), "unknown");
}

#[test]
fn dashboard_links() {
    let f = dashboard_link_filter(DashboardLink::NodesCard);
    assert!(f.nodes && !f.qemu && !f.lxc && !f.storage && f.name.is_empty());
    let f = dashboard_link_filter(DashboardLink::VirtualMachines);
    assert!(f.qemu && !f.nodes && !f.lxc && !f.storage);
    let f = dashboard_link_filter(DashboardLink::Containers);
    assert!(f.lxc && !f.qemu);
    let f = dashboard_link_filter(DashboardLink::Storages);
    assert!(f.storage && !f.lxc);
    let f = dashboard_link_filter(DashboardLink::ResourcesCard);
    assert!(f.lxc && f.qemu && !f.storage && !f.nodes);
}

#[test]
fn subscription_alert_lifecycle() {
    let mut cache = DashboardCache::new();
    let mut page = PvePageDashboard::create();
    assert_eq!(PvePageDashboard::node_count(&cache), 1);
    page.update(&mut cache, Msg::NodeLoadResult(Ok(vec![node("a", Online, None)])));
    assert_eq!(cache.subscription_error.as_deref(), Some("notfound"));
    assert!(!cache.subscription_confirmed);
    assert_eq!(page.subscription_alert(&cache).as_deref(), Some("notfound"));
    assert!(PvePageDashboard::shows_subscription_card(&cache));
    assert_eq!(PvePageDashboard::node_count(&cache), 1);
    page.update(&mut cache, Msg::ConfirmSubscription);
    assert!(cache.subscription_confirmed);
    assert_eq!(page.subscription_alert(&cache), None);
    page.update(&mut cache, Msg::ShowSubscriptionAlert);
    assert_eq!(page.subscription_alert(&cache).as_deref(), Some("notfound"));
    page.update(&mut cache, Msg::ConfirmSubscription);
    page.update(&mut cache, Msg::NodeLoadResult(Ok(vec![node("a", Online, Some("c")), node("b", Online, Some("c"))])));
    assert_eq!(cache.subscription_error, None);
    assert!(cache.subscription_confirmed);
    assert_eq!(PvePageDashboard::node_count(&cache), 2);
    // asking for the alert without an error does nothing
    page.update(&mut cache, Msg::ShowSubscriptionAlert);
    assert!(!page.show_subscription_alert);
    page.update(&mut cache, Msg::NodeLoadResult(Err("down".to_string())));
    assert_eq!(PvePageDashboard::node_count(&cache), 1);
    assert_eq!(cache.subscription_error, None);
}

#[test]
fn clean_check_confirms_without_user() {
    let mut cache = DashboardCache::new();
    let mut page = PvePageDashboard::create();
    page.update(&mut cache, Msg::NodeLoadResult(Ok(vec![node("a", Online, Some("c"))])));
    assert!(cache.subscription_confirmed);
    // a later problem shows no alert: the subscription stays confirmed
    page.update(&mut cache, Msg::NodeLoadResult(Ok(vec![node("a", Online, None)])));
    assert!(cache.subscription_confirmed);
    assert_eq!(page.subscription_alert(&cache), None);
    assert!(PvePageDashboard::shows_subscription_card(&cache));
}

#[test]
fn card_subtitles() {
    assert_eq!(count_subtitle(12, 3), "12 (3 online)");
    assert_eq!(count_subtitle(0, 0), "0 (0 online)");
    assert_eq!(analytics_subtitle(1), "Usage across all (1) online nodes.");
    assert_eq!(analytics_subtitle(105), "Usage across all (105) online nodes.");
}
