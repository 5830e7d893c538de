//! The disk dialogs of the hardware list: their titles, and the data they
//! submit.

use vstd::prelude::*;
use crate::edit_dialog::{EditDialog, FormRenderer};
use crate::properties::{PropertyMap, PropertyValue, ValueView};

verus! {

/// The disk dialogs.
#[derive(Clone, Copy, Debug, PartialEq, Eq, Structural)]
pub enum DiskDialogKind {
    Resize,
    Move,
    Reassign,
}

/// The action a dialog is named after.
pub open spec fn action_name(k: DiskDialogKind) -> Seq<char> {
    match k {
        DiskDialogKind::Resize => "Resize Disk"@,
        DiskDialogKind::Move => "Move Disk"@,
        DiskDialogKind::Reassign => "Reassign Disk"@,
    }
}

/// The title of a dialog for disk `name`, "{action} ({name})", and its
/// submit text, the action. These dialogs never edit an existing record.
pub fn disk_dialog_texts(k: DiskDialogKind, name: &str) -> (r: (String, String))
    ensures
        r.0@ == action_name(k) + " ("@ + name@ + ")"@,
        r.1@ == action_name(k),
{
    let action = match k {
        DiskDialogKind::Resize => "Resize Disk",
        DiskDialogKind::Move => "Move Disk",
        DiskDialogKind::Reassign => "Reassign Disk",
    };
    let mut title = String::from_str(action);
    title.append(" (");
    title.append(name);
    title.append(")");
    (title, String::from_str(action))
}

/// The properties of a disk dialog for disk `name`: its title and submit
/// text, never in edit mode, its data built by a submit hook from its own
/// input panel; no loader and no callbacks of its own.
pub fn disk_dialog(k: DiskDialogKind, name: &str) -> (d: EditDialog)
    ensures
        d.title@ == action_name(k) + " ("@ + name@ + ")"@,
        d.submit_text matches Some(t) && t@ == action_name(k),
        d.edit == Some(false),
        d.has_submit_hook,
        d.renderer == FormRenderer::InputPanel,
        !d.advanced_checkbox && !d.has_loader && d.submit_digest,
        !d.has_on_close && !d.has_on_done && !d.has_on_submit && !d.has_on_change,
        !d.has_load_hook,
{
    let (title, submit) = disk_dialog_texts(k, name);
    let mut d = EditDialog::new(title);
    d.edit = Some(false);
    d.submit_text = Some(submit);
    d.has_submit_hook = true;
    d.renderer = FormRenderer::InputPanel;
    d
}

/// The submit data of a move or reassignment: the form data with the disk
/// named.
pub fn move_submit_data(data: PropertyMap, disk: &str) -> (r: PropertyMap)
    ensures
        r@ == data@.insert("disk"@, ValueView::Text(disk@)),
{
    let mut d = data;
    d.insert(String::from_str("disk"), PropertyValue::Text(String::from_str(disk)));
    d
}

/// The error of a resize whose size increment is not a number.
pub open spec fn invalid_increment_message() -> Seq<char> {
    "invalid size increase - internal error"@
}

/// Whether the form's size increment is a number, which a resize needs.
pub fn size_increment_is_number(v: &PropertyValue) -> (r: bool)
    ensures
        r == (v@ is Number),
{
    match v {
        PropertyValue::Number(_) => true,
        _ => false,
    }
}

/// The submit data of a resize: the form data with the disk named and the
/// size grown by the increment in GiB ("+{increment}G"). `increment` is
/// the number as written for the request, `None` where the form's value is
/// not a number: the resize then fails.
pub fn resize_submit_data(data: PropertyMap, disk: &str, increment: Option<&str>) -> (r: Result<PropertyMap, String>)
    ensures
        match increment {
            Some(i) => r matches Ok(m) && m@ == data@.insert("disk"@, ValueView::Text(disk@)).insert(
                "size"@,
                ValueView::Text("+"@ + i@ + "G"@),
            ),
            None => r matches Err(e) && e@ == invalid_increment_message(),
        },
{
    match increment {
        Some(incr) => {
            let mut d = move_submit_data(data, disk);
            let mut size = String::from_str("+");
            size.append(incr);
            size.append("G");
            d.insert(String::from_str("size"), PropertyValue::Text(size));
            Ok(d)
        },
        None => {
            proof {
                reveal_strlit("invalid size increase - internal error");
            }
            Err(String::from_str("invalid size increase - internal error"))
        },
    }
}

} // verus!
