use pve_yew_mobile::disk_dialogs::{
    disk_dialog, disk_dialog_texts, move_submit_data, resize_submit_data, size_increment_is_number,
    DiskDialogKind,
};
use pve_yew_mobile::edit_dialog::{add_digest, DialogAction, EditDialog, FormRenderer, Msg, PwtEditDialog};
use pve_yew_mobile::properties::{
    is_property_shown, pending_display, render_bool_value, render_boolean, render_property_text,
    render_value, revert_keys, visible_properties, EditableProperty, PropertyMap, PropertyValue,
};
use pve_yew_mobile::property_list::{
    config_tile_dialog, config_tile_editable, property_tile_activation, pve_pending_config_array_to_objects,
    CallbackSource, ListAction, Msg as LMsg,
    PendingMsg, PvePendingPropertyList, PvePropertyList, QemuPendingConfigValue,
};

fn text(s: &str) -> PropertyValue {
    PropertyValue::Text(s.to_string())
}

fn map(entries: &[(&str, PropertyValue)]) -> PropertyMap {
    let mut m = PropertyMap::new();
    for (k, v) in entries {
        m.insert(k.to_string(), v.clone());
    }
    m
}

fn get_text(m: &PropertyMap, k: &str) -> Option<String> {
    match m.get(k) {
        Some(PropertyValue::Text(t)) => Some(t.clone()),
        Some(PropertyValue::Number(t)) => Some(t.clone()),
        _ => None,
    }
}

#[test]
fn record_reads_last_write() {
    let mut m = map(&[("a", text("1")), ("b", text("2"))]);
    m.insert("a".to_string(), text("3"));
    assert_eq!(get_text(&m, "a").as_deref(), Some("3"));
    assert_eq!(get_text(&m, "b").as_deref(), Some("2"));
    assert!(m.get("c").is_none());
    assert!(matches!(m.value("c"), PropertyValue::Null));
}

#[test]
fn value_rendering() {
    assert_eq!(render_boolean(true), "Yes");
    assert_eq!(render_boolean(false), "No");
    assert_eq!(render_value(&PropertyValue::Null, &None), "-");
    assert_eq!(render_value(&PropertyValue::Null, &Some("auto".to_string())), "auto");
    assert_eq!(render_value(&PropertyValue::Bool(true), &None), "Yes");
    assert_eq!(render_value(&PropertyValue::Number("512".to_string()), &None), "512");
    assert_eq!(render_value(&PropertyValue::Other("[1,2]".to_string()), &None), "[1,2]");
    assert_eq!(render_bool_value(&PropertyValue::Number("1".to_string()), None), "Yes");
    assert_eq!(render_bool_value(&PropertyValue::Number("0".to_string()), None), "No");
    assert_eq!(render_bool_value(&PropertyValue::Number("2".to_string()), None), "2");
    assert_eq!(render_bool_value(&PropertyValue::Null, Some(true)), "Yes");
    assert_eq!(render_bool_value(&PropertyValue::Null, None), "-");
    assert_eq!(render_bool_value(&text("yes"), None), "\"yes\"");
    assert_eq!(render_bool_value(&text("a\"b\\c\n"), None), "\"a\\\"b\\\\c\\n\"");
    assert_eq!(render_bool_value(&text("\u{1}"), None), "\"\\u0001\"");
}

#[test]
fn properties_shown_and_rendered() {
    let onboot = EditableProperty::new_bool("onboot".to_string(), "Start on boot".to_string(), Some(false));
    assert!(onboot.single_row && onboot.has_input_panel);
    assert_eq!(onboot.placeholder.as_deref(), Some("No"));
    let mut name = EditableProperty::new_string("name".to_string(), "Name".to_string());
    name.required = true;
    let mut custom = EditableProperty::new("cpu".to_string(), "CPU".to_string());
    custom.set_renderer();
    let record = map(&[("onboot", PropertyValue::Number("1".to_string())), ("cpu", text("host"))]);
    assert_eq!(render_property_text(&onboot, &record).as_deref(), Some("Yes"));
    assert_eq!(render_property_text(&name, &record).as_deref(), Some("-"));
    assert_eq!(render_property_text(&custom, &record), None);
    assert!(is_property_shown(&name, &record));
    assert!(is_property_shown(&onboot, &record));
    let missing = EditableProperty::new("memory".to_string(), "Memory".to_string());
    assert!(!is_property_shown(&missing, &record));
    let null_record = map(&[("memory", PropertyValue::Null)]);
    assert!(!is_property_shown(&missing, &null_record));
    let props = vec![onboot.clone(), missing, name, custom];
    assert_eq!(visible_properties(&props, &record), vec![0, 2, 3]);
    assert_eq!(pending_display("a".to_string(), "a".to_string()), ("a".to_string(), None));
    assert_eq!(pending_display("a".to_string(), "b".to_string()), ("a".to_string(), Some("b".to_string())));
    assert_eq!(revert_keys(&onboot), vec!["onboot".to_string()]);
    let mut multi = onboot;
    multi.revert_keys = Some(vec!["sockets".to_string(), "cores".to_string()]);
    assert_eq!(revert_keys(&multi), vec!["sockets".to_string(), "cores".to_string()]);
}

fn pending(key: &str, value: Option<&str>, pending: Option<&str>, delete: Option<u64>) -> QemuPendingConfigValue {
    QemuPendingConfigValue {
        key: key.to_string(),
        value: value.map(text),
        pending: pending.map(text),
        delete,
    }
}

#[test]
fn pending_configuration_split() {
    let data = vec![
        pending("memory", Some("512"), Some("1024"), None),
        pending("name", Some("vm"), None, None),
        pending("cores", Some("2"), None, Some(1)),
        pending("sockets", None, None, Some(2)),
        pending("tablet", None, Some("1"), None),
        pending("agent", Some("0"), None, Some(0)),
    ];
    let cfg = pve_pending_config_array_to_objects(data).unwrap();
    assert_eq!(get_text(&cfg.current, "memory").as_deref(), Some("512"));
    assert_eq!(get_text(&cfg.pending, "memory").as_deref(), Some("1024"));
    assert_eq!(get_text(&cfg.pending, "name").as_deref(), Some("vm"));
    assert_eq!(get_text(&cfg.current, "cores").as_deref(), Some("2"));
    assert!(cfg.pending.get("cores").is_none());
    assert!(cfg.pending.get("sockets").is_none());
    assert!(cfg.current.get("tablet").is_none());
    assert_eq!(get_text(&cfg.pending, "agent").as_deref(), Some("0"));
    let mut deleted = cfg.deleted.clone();
    deleted.sort();
    assert_eq!(deleted, vec!["cores", "sockets"]);
}

#[test]
fn property_lists() {
    let mut l = PvePropertyList::create();
    assert!(matches!(l.update(LMsg::Load), ListAction::Fetch));
    assert!(matches!(l.update(LMsg::CloseDialog), ListAction::Idle));
    assert!(matches!(l.update(LMsg::LoadResult(Ok(PropertyMap::new()))), ListAction::ScheduleReload));
    l.update(LMsg::EditProperty("name".to_string()));
    assert_eq!(l.edit_dialog.as_deref(), Some("name"));
    assert!(matches!(l.update(LMsg::CloseDialog), ListAction::Reload));
    assert!(l.edit_dialog.is_none());

    let mut p = PvePendingPropertyList::create();
    p.update(PendingMsg::LoadResult(Ok(vec![pending("a", Some("1"), None, None)])), true);
    assert!(p.reload_pending);
    let prop = EditableProperty::new("a".to_string(), "A".to_string());
    match p.update(PendingMsg::Revert(prop.clone()), true) {
        ListAction::SubmitRevert(keys) => assert_eq!(keys, vec!["a".to_string()]),
        _ => panic!("expected revert"),
    }
    assert!(matches!(p.update(PendingMsg::Revert(prop), false), ListAction::Idle));
    match p.update(PendingMsg::RevertResult(Err("denied".to_string())), true) {
        ListAction::RevertDone { error, reload } => {
            assert_eq!(error.as_deref(), Some("denied"));
            assert!(reload);
        }
        _ => panic!("expected revert result"),
    }
    p.update(PendingMsg::EditProperty("a".to_string()), true);
    assert!(matches!(p.update(PendingMsg::ShowDialog(None), true), ListAction::Reload));
    assert!(matches!(p.update(PendingMsg::Load, true), ListAction::Fetch));
    assert!(!p.reload_pending);
    assert!(matches!(p.update(PendingMsg::ShowDialog(None), true), ListAction::Idle));

    let mut editable = EditableProperty::new_string("n".to_string(), "N".to_string());
    assert!(matches!(property_tile_activation(&editable), Some(LMsg::EditProperty(ref n)) if n == "n"));
    assert!(property_tile_activation(&EditableProperty::new("m".to_string(), "M".to_string())).is_none());
    assert!(config_tile_editable(&editable, true));
    assert!(!config_tile_editable(&editable, false));
    let plain = EditableProperty::new("n".to_string(), "N".to_string());
    assert!(!config_tile_editable(&plain, true));
    assert!(config_tile_dialog(&plain, true, true).is_none());
    assert!(config_tile_dialog(&editable, false, true).is_none());

    let (d, submit, loader) = config_tile_dialog(&editable, true, true).unwrap();
    assert_eq!(d.title, "N");
    assert!(d.has_loader && d.has_on_submit && d.has_on_done && !d.has_on_close);
    assert_eq!(submit, CallbackSource::List);
    assert_eq!(loader, CallbackSource::List);
    editable.has_on_submit = true;
    editable.has_loader = true;
    assert!(config_tile_editable(&editable, false));
    let (_, submit, loader) = config_tile_dialog(&editable, true, true).unwrap();
    assert_eq!(submit, CallbackSource::Property);
    assert_eq!(loader, CallbackSource::Property);
    editable.has_loader = false;
    let (d, _, loader) = config_tile_dialog(&editable, false, false).unwrap();
    assert!(!d.has_loader);
    assert_eq!(loader, CallbackSource::Absent);
}

#[test]
fn edit_dialog_flow() {
    let mut props = EditDialog::new("Memory".to_string());
    assert!(!props.is_edit());
    props.has_loader = true;
    assert!(props.is_edit());
    props.edit = Some(false);
    assert!(!props.is_edit());
    // the button text follows the loader, whatever `edit` says
    assert_eq!(PwtEditDialog::create(false).view(&props).submit_text, "Update");
    props.edit = None;
    props.has_on_submit = true;
    props.has_on_done = true;

    let mut d = PwtEditDialog::create(false);
    assert!(matches!(d.update(&props, Msg::Load), DialogAction::StartLoad));
    assert!(d.loading);
    let v = d.view(&props);
    assert!(v.form_hidden && v.reset_button && v.digest_field && v.check_dirty);
    assert!(!v.advanced_checked);
    assert_eq!(v.submit_text, "Update");
    let record = map(&[("memory", text("512"))]);
    let a = d.update(&props, Msg::LoadResult(Ok((record, Some("d1".to_string())))));
    assert!(matches!(a, DialogAction::LoadForm));
    assert!(!d.loading);
    assert_eq!(get_text(&d.load_data, "digest").as_deref(), Some("d1"));
    assert_eq!(get_text(&d.load_data, "memory").as_deref(), Some("512"));
    assert!(matches!(d.update(&props, Msg::Submit), DialogAction::StartSubmit { hook: false }));
    match d.update(&props, Msg::SubmitData(Ok(map(&[("memory", text("1024"))])))) {
        DialogAction::ApplySubmit(m) => assert_eq!(get_text(&m, "memory").as_deref(), Some("1024")),
        _ => panic!("expected the submit data"),
    }
    d.update(&props, Msg::SubmitResult(Err("bad value".to_string())));
    assert_eq!(d.view(&props).submit_alert.as_deref(), Some("bad value"));
    d.update(&props, Msg::FormDataChange);
    assert!(d.submit_error.is_none());
    // a failing submit hook ends the submit with its error
    d.update(&props, Msg::Submit);
    assert!(matches!(d.update(&props, Msg::SubmitData(Err("hook failed".to_string()))), DialogAction::Idle));
    assert!(!d.loading);
    assert_eq!(d.submit_error.as_deref(), Some("hook failed"));
    assert!(matches!(d.update(&props, Msg::SubmitResult(Ok(()))), DialogAction::Done));
    assert!(matches!(
        d.update(&props, Msg::Close),
        DialogAction::Closed { on_close: false, on_done: true }
    ));
    d.update(&props, Msg::LoadResult(Err("gone".to_string())));
    assert_eq!(d.view(&props).load_error_alert.as_deref(), Some("gone"));
    assert!(matches!(d.update(&props, Msg::ShowAdvanced(true)), DialogAction::SetShowAdvanced(true)));
    assert!(d.view(&props).advanced_checked);

    let add = EditDialog::new("Disk".to_string());
    let v = PwtEditDialog::create(false).view(&add);
    assert_eq!(v.submit_text, "Add");
    assert!(!v.reset_button && !v.digest_field && !v.closable);
    assert!(matches!(PwtEditDialog::create(false).update(&add, Msg::Close), DialogAction::Idle));

    let mut record = PropertyMap::new();
    add_digest(&mut record, Some("abc".to_string()), true);
    assert_eq!(get_text(&record, "digest").as_deref(), Some("abc"));
    let mut record = PropertyMap::new();
    add_digest(&mut record, Some("abc".to_string()), false);
    assert!(record.get("digest").is_none());
}

#[test]
fn edit_dialog_hooks() {
    let mut p = EditableProperty::new_string("name".to_string(), "Name".to_string());
    p.has_load_hook = true;
    p.has_submit_hook = true;
    p.has_on_change = true;
    let props = EditDialog::from_property(&p);
    assert_eq!(props.title, "Name");
    assert!(props.has_load_hook && props.has_submit_hook && props.has_on_change);
    assert_eq!(props.renderer, FormRenderer::InputPanel);
    assert!(!props.has_loader && !props.has_on_submit && props.edit.is_none());
    let plain = EditDialog::from_property(&EditableProperty::new("x".to_string(), "X".to_string()));
    assert_eq!(plain.renderer, FormRenderer::Empty);
    assert!(!plain.has_load_hook && !plain.has_on_change);

    let mut props = props;
    props.has_loader = true;
    props.has_on_submit = true;
    props.has_on_close = true;
    props.has_on_done = true;
    let mut d = PwtEditDialog::create(true);
    assert!(d.view(&props).advanced_checked);
    match d.update(&props, Msg::LoadResult(Ok((map(&[("name", text("a"))]), Some("d2".to_string()))))) {
        DialogAction::RunLoadHook(m) => {
            assert_eq!(get_text(&m, "digest").as_deref(), Some("d2"));
            assert_eq!(get_text(&m, "name").as_deref(), Some("a"));
        }
        _ => panic!("expected the load hook"),
    }
    assert!(d.load_data.get("name").is_none());
    assert!(matches!(d.update(&props, Msg::LoadHookResult(Ok(map(&[("name", text("b"))])))), DialogAction::LoadForm));
    assert_eq!(get_text(&d.load_data, "name").as_deref(), Some("b"));
    assert!(matches!(d.update(&props, Msg::FormDataChange), DialogAction::EmitChange));
    assert!(matches!(d.update(&props, Msg::Submit), DialogAction::StartSubmit { hook: true }));
    assert!(matches!(d.update(&props, Msg::Close), DialogAction::Closed { on_close: true, on_done: true }));
    d.update(&props, Msg::LoadHookResult(Err("hook".to_string())));
    assert_eq!(d.view(&props).load_error_alert.as_deref(), Some("hook"));
}

#[test]
fn disk_dialogs() {
    let (title, submit) = disk_dialog_texts(DiskDialogKind::Resize, "scsi0");
    assert_eq!(title, "Resize Disk (scsi0)");
    assert_eq!(submit, "Resize Disk");
    assert_eq!(disk_dialog_texts(DiskDialogKind::Move, "ide0").0, "Move Disk (ide0)");
    assert_eq!(disk_dialog_texts(DiskDialogKind::Reassign, "ide0").1, "Reassign Disk");
    let d = move_submit_data(PropertyMap::new(), "scsi1");
    assert_eq!(get_text(&d, "disk").as_deref(), Some("scsi1"));
    let d = resize_submit_data(map(&[("digest", text("abc"))]), "scsi0", Some("10")).unwrap();
    assert_eq!(get_text(&d, "digest").as_deref(), Some("abc"));
    assert_eq!(get_text(&d, "disk").as_deref(), Some("scsi0"));
    assert_eq!(get_text(&d, "size").as_deref(), Some("+10G"));
    assert_eq!(
        resize_submit_data(PropertyMap::new(), "scsi0", None).err().as_deref(),
        Some("invalid size increase - internal error")
    );
    assert!(size_increment_is_number(&PropertyValue::Number("10".to_string())));
    assert!(!size_increment_is_number(&text("10")));
    assert!(!size_increment_is_number(&PropertyValue::Null));
    let r = disk_dialog(DiskDialogKind::Resize, "scsi0");
    assert_eq!(r.title, "Resize Disk (scsi0)");
    assert_eq!(r.submit_text.as_deref(), Some("Resize Disk"));
    assert_eq!(r.edit, Some(false));
    assert!(!r.is_edit() && r.has_submit_hook && !r.has_loader);
    assert_eq!(disk_dialog(DiskDialogKind::Reassign, "ide0").title, "Reassign Disk (ide0)");
    let d = resize_submit_data(PropertyMap::new(), "scsi1", Some("4")).unwrap();
    assert_eq!(get_text(&d, "size").as_deref(), Some("+4G"));
    assert_eq!(get_text(&d, "disk").as_deref(), Some("scsi1"));
}
