use pve_yew_mobile::backup::{
    backup_modes, compression_label, compression_modes, join, storage_card, storage_cards, Msg,
    BackupAction, PveVmBackupPanel, StorageInfo, VmBackupPanel,
};
use pve_yew_mobile::storage_content::{
    filter_volumes, get_content_icon, ContentAction, ContentView, Msg as CMsg,
    PveStorageContentPanel, StorageContentPanel, StorageEntry,
};

fn entry(volid: &str) -> StorageEntry {
    StorageEntry { volid: volid.to_string(), content: "backup".to_string(), size: 1 }
}

fn storage(name: &str, enabled: Option<bool>) -> StorageInfo {
    StorageInfo {
        storage: name.to_string(),
        ty: "dir".to_string(),
        shared: None,
        enabled,
        content: vec!["backup".to_string(), "iso".to_string()],
        total: Some(100),
        used: Some(25),
    }
}

#[test]
fn content_icons() {
    assert_eq!(get_content_icon("iso"), "cdrom");
    assert_eq!(get_content_icon("vztmpl"), "cube");
    assert_eq!(get_content_icon("rootdir"), "cube");
    assert_eq!(get_content_icon("images"), "hdd-o");
    assert_eq!(get_content_icon("backup"), "floppy-o");
    assert_eq!(get_content_icon("snippets"), "file-o");
}

#[test]
fn volume_search() {
    let data = vec![entry("local:backup/vzdump-qemu-100.vma"), entry("local:backup/vzdump-lxc-101.tar")];
    assert_eq!(filter_volumes(&data, ""), vec![0, 1]);
    assert_eq!(filter_volumes(&data, "lxc"), vec![1]);
    assert_eq!(filter_volumes(&data, "LXC"), Vec::<usize>::new());
}

#[test]
fn content_panel() {
    let props = StorageContentPanel::new("pve1".to_string(), "local".to_string())
        .vmid_filter(Some(100))
        .content_filter(Some("backup".to_string()));
    let mut p = PveStorageContentPanel::create();
    assert_eq!(p.view_kind(), ContentView::Loading);
    match p.update(&props, CMsg::Load) {
        ContentAction::Fetch(r) => {
            assert_eq!(r.url, "/nodes/pve1/storage/local/content");
            assert_eq!(r.content.as_deref(), Some("backup"));
            assert_eq!(r.vmid, Some(100));
        }
        _ => panic!("expected fetch"),
    }
    p.update(&props, CMsg::LoadResult(Ok(vec![])));
    assert_eq!(p.view_kind(), ContentView::Empty);
    p.update(&props, CMsg::LoadResult(Ok(vec![entry("a")])));
    assert_eq!(p.view_kind(), ContentView::List);
    p.update(&props, CMsg::SetFilter("x".to_string()));
    assert!(p.shows_clear_button());
    assert!(matches!(p.changed(&props), ContentAction::Fetch(_)));
    assert_eq!(p.view_kind(), ContentView::Loading);
    p.update(&props, CMsg::LoadResult(Err("e".to_string())));
    assert_eq!(p.view_kind(), ContentView::Error);
}

#[test]
fn backup_storages() {
    assert_eq!(join(&vec![], ", "), "");
    assert_eq!(join(&vec!["a".to_string()], ", "), "a");
    assert_eq!(join(&vec!["a".to_string(), "b".to_string(), "c".to_string()], ", "), "a, b, c");
    let card = storage_card(&storage("local", None));
    assert_eq!(card.title, "local (dir)");
    assert_eq!(card.icon, "folder");
    assert_eq!(card.content, "backup, iso");
    assert_eq!(card.usage, Some((25, 100)));
    let mut shared = storage("nfs", None);
    shared.shared = Some(true);
    shared.total = None;
    let card = storage_card(&shared);
    assert_eq!(card.icon, "cloud");
    assert_eq!(card.usage, None);
    assert_eq!(storage_cards(&vec![storage("a", None), storage("b", Some(false)), storage("c", Some(true))]), vec![0, 2]);
    assert_eq!(backup_modes(), vec!["SNAPSHOT", "SUSPEND", "STOP"]);
    assert_eq!(compression_modes(), vec!["none", "gzip", "lzo", "zstd"]);
    assert_eq!(compression_label("none"), "none");
    assert_eq!(compression_label("gzip"), "GZIP (good)");
    assert_eq!(compression_label("lzo"), "LZO (fast)");
    assert_eq!(compression_label("zstd"), "ZSTD (fast & good)");
}

#[test]
fn backup_panel() {
    let props = VmBackupPanel::new("pve1".to_string(), 100);
    let mut p = PveVmBackupPanel::create();
    assert!(matches!(p.update(&props, Msg::LoadStorage), BackupAction::FetchStorages(ref u) if u == "/nodes/pve1/storage"));
    p.update(&props, Msg::LoadStorageResult(Ok(vec![storage("zfs", None), storage("local", None), storage("nfs", None)])));
    let names: Vec<String> = match &p.storage_list {
        Some(Ok(v)) => v.iter().map(|s| s.storage.clone()).collect(),
        _ => panic!("expected storages"),
    };
    assert_eq!(names, vec!["local", "nfs", "zfs"]);
    assert!(p.recent_backups(&props).is_none());
    assert!(!p.shows_backup_button());
    p.update(&props, Msg::ActiveStorage("nfs".to_string()));
    assert!(p.is_active(&storage("nfs", None)));
    assert!(!p.is_active(&storage("zfs", None)));
    let panel = p.recent_backups(&props).unwrap();
    assert_eq!(panel.storage, "nfs");
    assert_eq!(panel.vmid_filter, Some(100));
    assert_eq!(panel.content_filter.as_deref(), Some("backup"));
    p.update(&props, Msg::ShowBackupDialog(true));
    assert!(p.show_backup_dialog);
    assert!(matches!(p.changed(&props), BackupAction::FetchStorages(_)));
    assert!(p.storage_list.is_none());
}
