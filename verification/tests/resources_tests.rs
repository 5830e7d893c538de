use pve_yew_mobile::resources::{
    check_tile_fields, filter_match, filter_match_lowered, resource_tile, resource_tiles,
    sort_resources, type_ordering, ClusterResource, ClusterResourceType, Msg, PageResources,
    PvePageResources, ResourceFilter, ResourceRoute, ResourcesAction, ResourcesContent,
};

fn resource(id: &str, ty: ClusterResourceType, name: Option<&str>) -> ClusterResource {
    ClusterResource {
        id: id.to_string(),
        ty,
        name: name.map(|s| s.to_string()),
        node: Some("node1".to_string()),
        storage: None,
        vmid: None,
        status: None,
        level: None,
        disk: None,
        maxdisk: None,
    }
}

fn guest(id: &str, ty: ClusterResourceType, vmid: u32, name: Option<&str>, status: &str) -> ClusterResource {
    let mut r = resource(id, ty, name);
    r.vmid = Some(vmid);
    r.status = Some(status.to_string());
    r
}

fn only(qemu: bool, lxc: bool, storage: bool, nodes: bool, name: &str) -> ResourceFilter {
    ResourceFilter { name: name.to_string(), qemu, lxc, storage, nodes }
}

#[test]
fn empty_filter_matches_everything() {
    let f = ResourceFilter::default();
    assert!(filter_match(&resource("qemu/100", ClusterResourceType::Qemu, None), &f));
    assert!(filter_match(&resource("pool/x", ClusterResourceType::Pool, None), &f));
    assert!(filter_match(&resource("sdn/z", ClusterResourceType::Sdn, None), &f));
}

#[test]
fn type_flags_select_their_types_only() {
    let f = only(true, false, false, false, "");
    assert!(filter_match(&resource("qemu/100", ClusterResourceType::Qemu, None), &f));
    assert!(!filter_match(&resource("lxc/101", ClusterResourceType::Lxc, None), &f));
    assert!(!filter_match(&resource("node/a", ClusterResourceType::Node, None), &f));
    let g = only(false, true, true, false, "");
    assert!(filter_match(&resource("lxc/101", ClusterResourceType::Lxc, None), &g));
    assert!(filter_match(&resource("storage/a/local", ClusterResourceType::Storage, None), &g));
    assert!(!filter_match(&resource("qemu/100", ClusterResourceType::Qemu, None), &g));
}

#[test]
fn search_looks_at_lowercased_id_and_name_as_written() {
    let f = only(false, false, false, false, "web");
    assert!(filter_match(&resource("qemu/100", ClusterResourceType::Qemu, Some("webserver")), &f));
    assert!(!filter_match(&resource("qemu/100", ClusterResourceType::Qemu, Some("WebServer")), &f));
    assert!(filter_match(&resource("storage/WEB/x", ClusterResourceType::Storage, None), &f));
    let upper = only(false, false, false, false, "Web");
    // the id is lowercased, the search text is not
    assert!(!filter_match(&resource("storage/WEB/x", ClusterResourceType::Storage, None), &upper));
    assert!(filter_match(&resource("qemu/1", ClusterResourceType::Qemu, Some("WebServer")), &upper));
}

#[test]
fn lowered_filter_uses_given_id() {
    let f = only(false, false, false, false, "abc");
    let item = resource("qemu/100", ClusterResourceType::Qemu, None);
    assert!(filter_match_lowered(&item, &f, "xxabcxx"));
    assert!(!filter_match_lowered(&item, &f, "qemu/100"));
}

#[test]
fn type_order_puts_containers_first() {
    assert_eq!(type_ordering(ClusterResourceType::Lxc), 1);
    assert_eq!(type_ordering(ClusterResourceType::Openvz), 1);
    assert_eq!(type_ordering(ClusterResourceType::Qemu), 2);
    assert_eq!(type_ordering(ClusterResourceType::Storage), 3);
    assert_eq!(type_ordering(ClusterResourceType::Node), 4);
    assert_eq!(type_ordering(ClusterResourceType::Pool), 5);
    assert_eq!(type_ordering(ClusterResourceType::Sdn), 6);
}

#[test]
fn sort_by_type_then_id_and_stable() {
    let mut v = vec![
        resource("node/b", ClusterResourceType::Node, None),
        resource("qemu/101", ClusterResourceType::Qemu, Some("first")),
        resource("lxc/200", ClusterResourceType::Lxc, None),
        resource("qemu/100", ClusterResourceType::Qemu, None),
        resource("qemu/101", ClusterResourceType::Qemu, Some("second")),
        resource("node/a", ClusterResourceType::Node, None),
    ];
    sort_resources(&mut v);
    let ids: Vec<&str> = v.iter().map(|r| r.id.as_str()).collect();
    assert_eq!(ids, vec!["lxc/200", "qemu/100", "qemu/101", "qemu/101", "node/a", "node/b"]);
    assert_eq!(v[2].name.as_deref(), Some("first"));
    assert_eq!(v[3].name.as_deref(), Some("second"));
}

#[test]
fn node_tile_shows_subscription_level() {
    let mut n = resource("node/pve1", ClusterResourceType::Node, None);
    n.node = Some("pve1".to_string());
    n.status = Some("online".to_string());
    let t = resource_tile(&n);
    assert_eq!(t.icon, "server");
    assert!(t.highlighted);
    assert_eq!(t.title, "pve1");
    assert_eq!(t.subtitle.as_deref(), Some("no subscription"));
    n.level = Some(String::new());
    assert_eq!(resource_tile(&n).subtitle.as_deref(), Some("no subscription"));
    n.level = Some("c".to_string());
    n.status = Some("offline".to_string());
    let t = resource_tile(&n);
    assert_eq!(t.subtitle.as_deref(), Some("c"));
    assert!(!t.highlighted);
    assert!(matches!(t.route, ResourceRoute::Node { ref nodename } if nodename == "pve1"));
}

#[test]
fn guest_and_storage_tiles() {
    let vm = guest("qemu/100", ClusterResourceType::Qemu, 100, Some("web"), "running");
    let t = resource_tile(&vm);
    assert_eq!(t.icon, "desktop");
    assert_eq!(t.title, "100 web");
    assert!(t.highlighted);
    assert_eq!(t.subtitle.as_deref(), Some("node1"));
    assert!(matches!(t.route, ResourceRoute::Qemu { vmid: 100, .. }));
    let ct = guest("lxc/7", ClusterResourceType::Lxc, 7, None, "stopped");
    let t = resource_tile(&ct);
    assert_eq!(t.icon, "cube");
    assert_eq!(t.title, "7 ");
    assert!(!t.highlighted);
    let mut st = resource("storage/node1/local", ClusterResourceType::Storage, None);
    st.storage = Some("local".to_string());
    st.status = Some("available".to_string());
    st.disk = Some(10);
    st.maxdisk = Some(100);
    let t = resource_tile(&st);
    assert_eq!(t.icon, "database");
    assert_eq!(t.title, "local local");
    assert_eq!(t.usage, Some((10, 100)));
    st.maxdisk = None;
    assert_eq!(resource_tile(&st).usage, None);
}

#[test]
fn tiles_skip_pools_and_lowercase_the_search() {
    let data = vec![
        guest("qemu/100", ClusterResourceType::Qemu, 100, Some("db"), "running"),
        resource("pool/x", ClusterResourceType::Pool, None),
        guest("lxc/7", ClusterResourceType::Lxc, 7, None, "stopped"),
    ];
    assert!(check_tile_fields(&data));
    let tiles = resource_tiles(&data, &ResourceFilter::default());
    assert_eq!(tiles.len(), 2);
    let tiles = resource_tiles(&data, &only(false, false, false, false, "QEMU"));
    assert_eq!(tiles.len(), 1);
    assert_eq!(tiles[0].title, "100 db");
}

#[test]
fn incomplete_resources_are_detected() {
    let vm = resource("qemu/100", ClusterResourceType::Qemu, None);
    assert!(!check_tile_fields(&vec![vm]));
    let pool = resource("pool/a", ClusterResourceType::Pool, None);
    assert!(check_tile_fields(&vec![pool]));
}

#[test]
fn page_state_machine() {
    let props = PageResources::new_with_filter(only(true, false, false, false, "x"));
    let (mut page, action) = PvePageResources::create(&props, None);
    assert_eq!(action, ResourcesAction::Fetch);
    assert_eq!(page.filter.name, "x");
    assert!(matches!(page.content(), ResourcesContent::Error(ref e) if e == "no data loaded"));
    let (page2, _) = PvePageResources::create(&props, Some(only(false, true, false, false, "")));
    assert!(page2.filter.lxc && !page2.filter.qemu);

    assert_eq!(page.update(Msg::ClearTextFilter), ResourcesAction::Idle);
    assert_eq!(page.filter.name, "");
    assert!(!page.shows_clear_button());
    page.update(Msg::SetTextFilter("we".to_string()));
    assert!(page.shows_clear_button());
    page.update(Msg::FilterQemu(false));
    page.update(Msg::FilterLxc(true));
    assert!(page.filter.lxc && !page.filter.qemu);
    page.update(Msg::ShowFilterDialog);
    assert!(page.show_filter_dialog);
    page.update(Msg::CloseFilterDialog);
    assert!(!page.show_filter_dialog);
    assert_eq!(page.update(Msg::Load), ResourcesAction::Fetch);

    let data = vec![
        guest("qemu/100", ClusterResourceType::Qemu, 100, Some("web"), "running"),
        guest("lxc/9", ClusterResourceType::Lxc, 9, Some("web2"), "running"),
        guest("lxc/8", ClusterResourceType::Lxc, 8, Some("other"), "running"),
    ];
    assert_eq!(page.update(Msg::LoadResult(Ok(data))), ResourcesAction::ScheduleReload);
    match page.content() {
        ResourcesContent::Tiles(t) => {
            assert_eq!(t.len(), 1);
            assert_eq!(t[0].title, "9 web2");
        }
        _ => panic!("expected tiles"),
    }
    page.update(Msg::SetTextFilter("nothing".to_string()));
    assert!(matches!(page.content(), ResourcesContent::Empty));
    page.update(Msg::LoadResult(Err("boom".to_string())));
    assert!(matches!(page.content(), ResourcesContent::Error(ref e) if e == "boom"));
}

#[test]
fn sorting_twice_changes_nothing() {
    let mut v = vec![
        resource("storage/b", ClusterResourceType::Storage, None),
        resource("lxc/2", ClusterResourceType::Lxc, None),
        resource("lxc/1", ClusterResourceType::Lxc, None),
    ];
    sort_resources(&mut v);
    let once: Vec<String> = v.iter().map(|r| r.id.clone()).collect();
    sort_resources(&mut v);
    let twice: Vec<String> = v.iter().map(|r| r.id.clone()).collect();
    assert_eq!(once, twice);
    assert_eq!(once, vec!["lxc/1", "lxc/2", "storage/b"]);
}
