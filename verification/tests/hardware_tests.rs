use pve_yew_mobile::hardware::{
    card_menu, card_menu_for, detach_message, hardware_rows, hardware_update, row_edit_action, row_icon,
    row_menu, DiskDialog, DriveEntry, DriveMedia, EditAction, HardwareAction, HardwareProperties,
    MenuEntry, Msg, PropertyInfo, QemuHardwarePanel, RowKind,
};
use pve_yew_mobile::properties::{PropertyMap, PropertyValue};

fn info(name: &str, required: bool) -> PropertyInfo {
    PropertyInfo { name: Some(name.to_string()), required }
}

fn properties() -> HardwareProperties {
    HardwareProperties::new(
        info("memory", true),
        info("bios", true),
        info("vga", true),
        info("machine", true),
        info("scsihw", true),
        info("vmstatestorage", false),
    )
}

fn keys(k: &[&str]) -> Vec<String> {
    k.iter().map(|s| s.to_string()).collect()
}

#[test]
fn rows_in_slot_order() {
    let drives = vec![
        DriveEntry { name: "ide2".to_string(), media: Some(DriveMedia::Cdrom) },
        DriveEntry { name: "scsi0".to_string(), media: Some(DriveMedia::Disk) },
        DriveEntry { name: "sata1".to_string(), media: None },
    ];
    let rows = hardware_rows(
        &properties(),
        &keys(&["net0", "scsi0", "ide2", "sata1", "virtio3", "unused0", "efidisk0", "tpmstate0", "scsi31"]),
        &drives,
    );
    let seen: Vec<(RowKind, &str)> = rows.iter().map(|r| (r.kind, r.name.as_str())).collect();
    assert_eq!(
        seen,
        vec![
            (RowKind::Memory, "memory"),
            (RowKind::Processor, ""),
            (RowKind::Bios, "bios"),
            (RowKind::Display, "vga"),
            (RowKind::Machine, "machine"),
            (RowKind::ScsiHw, "scsihw"),
            (RowKind::Cdrom, "ide2"),
            (RowKind::Disk, "scsi0"),
            (RowKind::Disk, "virtio3"),
            (RowKind::Network, "net0"),
            (RowKind::Unused, "unused0"),
            (RowKind::TpmState, "tpmstate0"),
        ]
    );
}

#[test]
fn optional_rows_need_their_key() {
    let rows = hardware_rows(&properties(), &keys(&["vmstatestorage", "edidisk0"]), &vec![]);
    let kinds: Vec<RowKind> = rows.iter().map(|r| r.kind).collect();
    assert!(kinds.contains(&RowKind::VmState));
    assert!(kinds.contains(&RowKind::EfiDisk));
}

#[test]
fn row_menus_and_icons() {
    assert_eq!(row_icon(RowKind::Memory), "memory");
    assert_eq!(row_icon(RowKind::Cdrom), "cdrom");
    assert_eq!(row_icon(RowKind::Unused), "hdd-o");
    assert_eq!(row_icon(RowKind::Network), "exchange");
    assert_eq!(row_edit_action(RowKind::EfiDisk), EditAction::Readonly);
    assert_eq!(row_edit_action(RowKind::Unused), EditAction::Add);
    assert_eq!(row_edit_action(RowKind::Disk), EditAction::Edit);
    assert_eq!(
        row_menu(RowKind::Disk),
        vec![MenuEntry::MoveDisk, MenuEntry::ReassignDisk, MenuEntry::ResizeDisk, MenuEntry::DetachDisk]
    );
    assert_eq!(row_menu(RowKind::Cdrom), vec![MenuEntry::DeleteDevice]);
    assert_eq!(row_menu(RowKind::Network), vec![MenuEntry::EditNetwork, MenuEntry::EditMtu, MenuEntry::DeleteDevice]);
    assert_eq!(row_menu(RowKind::Unused), vec![MenuEntry::DeleteDisk]);
    assert_eq!(row_menu(RowKind::Memory), vec![]);
    assert_eq!(detach_message("scsi0"), "Are you sure you want to detach entry scsi0");
    let m = card_menu(true, false);
    assert!(!m.efidisk_enabled && m.tpmstate_enabled);
    let mut pending = PropertyMap::new();
    let m = card_menu_for(&pending);
    assert!(m.efidisk_enabled && m.tpmstate_enabled);
    pending.insert("tpmstate0".to_string(), PropertyValue::Null);
    let m = card_menu_for(&pending);
    assert!(m.efidisk_enabled && !m.tpmstate_enabled);
    pending.insert("efidisk0".to_string(), PropertyValue::Text("local:1".to_string()));
    assert!(!card_menu_for(&pending).efidisk_enabled);
}

#[test]
fn fixed_hardware_keys() {
    let p = properties();
    assert_eq!(p.efidisk.name.as_deref(), Some("edidisk0"));
    assert!(!p.efidisk.required);
    assert_eq!(p.tpmstate.name.as_deref(), Some("tpmstate0"));
    assert!(!p.tpmstate.required);
    assert_eq!(p.memory.name.as_deref(), Some("memory"));
    assert!(p.memory.required);
}

#[test]
fn panel_events() {
    let props = QemuHardwarePanel::new("pve1".to_string(), 100);
    assert_eq!(props.editor_url(), "/nodes/pve1/qemu/100/config");
    assert_eq!(props.pending_url(), "/nodes/pve1/qemu/100/pending");
    match hardware_update(&props, false, Msg::DeleteDevice("net0".to_string())) {
        HardwareAction::DeleteDevice { url, name } => {
            assert_eq!(url, "/nodes/pve1/qemu/100/config");
            assert_eq!(name, "net0");
        }
        _ => panic!("expected delete"),
    }
    match hardware_update(&props, true, Msg::CommandResult(Err("locked".to_string()))) {
        HardwareAction::CommandDone { error, reload } => {
            assert_eq!(error.as_deref(), Some("locked"));
            assert!(reload);
        }
        _ => panic!("expected result"),
    }
    match hardware_update(&props, false, Msg::ResizeDisk("scsi0".to_string())) {
        HardwareAction::OpenDialog { dialog, name, load_url, submit_url } => {
            assert_eq!(dialog, DiskDialog::Resize);
            assert_eq!(name, "scsi0");
            assert_eq!(load_url, "/nodes/pve1/qemu/100/config");
            assert_eq!(submit_url, "/nodes/pve1/qemu/100/resize");
        }
        _ => panic!("expected dialog"),
    }
    assert!(matches!(hardware_update(&props, false, Msg::MoveDisk("scsi0".to_string())),
        HardwareAction::OpenDialog { dialog: DiskDialog::Move, ref submit_url, .. } if submit_url == "/nodes/pve1/qemu/100/move_disk"));
    assert!(matches!(hardware_update(&props, false, Msg::ReassignDisk("scsi0".to_string())),
        HardwareAction::OpenDialog { dialog: DiskDialog::Reassign, .. }));
    let other = QemuHardwarePanel::new("pve1".to_string(), 101);
    assert!(other.changed(&props));
    assert!(!props.changed(&props));
}
