//! The side dialog of a storage volume: it shows the selected volume and
//! offers to remove it or to show its configuration.

use vstd::prelude::*;
use crate::storage_content::StorageEntry;

verus! {

/// Properties of the dialog: the volume, and which callbacks its owner set.
pub struct VolumeActionDialog {
    pub item: StorageEntry,
    pub has_on_remove: bool,
    pub has_on_show_config: bool,
}

impl VolumeActionDialog {
    /// The dialog of `item`, with no callbacks.
    pub fn new(item: StorageEntry) -> (d: Self)
        ensures
            d.item.volid@ == item.volid@,
            d.item.content@ == item.content@,
            d.item.size == item.size,
            !d.has_on_remove,
            !d.has_on_show_config,
    {
        VolumeActionDialog { item, has_on_remove: false, has_on_show_config: false }
    }

    /// Sets whether a remove callback is given.
    pub fn on_remove(self, present: bool) -> (d: Self)
        ensures
            d.item == self.item,
            d.has_on_remove == present,
            d.has_on_show_config == self.has_on_show_config,
    {
        VolumeActionDialog { has_on_remove: present, ..self }
    }

    /// Sets whether a show-configuration callback is given.
    pub fn on_show_config(self, present: bool) -> (d: Self)
        ensures
            d.item == self.item,
            d.has_on_remove == self.has_on_remove,
            d.has_on_show_config == present,
    {
        VolumeActionDialog { has_on_show_config: present, ..self }
    }
}

/// The buttons of the dialog (removing asks for confirmation first).
#[derive(Clone, Copy, Debug, PartialEq, Eq, Structural)]
pub enum VolumeButton {
    Remove,
    ShowConfig,
}

/// What activating a button does, in order.
#[derive(Clone, Copy, Debug, PartialEq, Eq, Structural)]
pub enum VolumeEffect {
    CloseSideDialog,
    EmitRemove,
    EmitShowConfig,
}

/// The effects of a button: the side dialog closes, then the button's
/// callback is called where one is given.
pub open spec fn button_effects(d: VolumeActionDialog, b: VolumeButton) -> Seq<VolumeEffect> {
    seq![VolumeEffect::CloseSideDialog] + match b {
        VolumeButton::Remove => if d.has_on_remove {
            seq![VolumeEffect::EmitRemove]
        } else {
            Seq::empty()
        },
        VolumeButton::ShowConfig => if d.has_on_show_config {
            seq![VolumeEffect::EmitShowConfig]
        } else {
            Seq::empty()
        },
    }
}

/// The dialog itself; it keeps no state.
pub struct PveVolumeActionDialog {}

impl PveVolumeActionDialog {
    pub fn create() -> (d: Self) {
        PveVolumeActionDialog {  }
    }

    /// The selection the dialog shows: the volume id and its size in bytes.
    pub fn selection(&self, props: &VolumeActionDialog) -> (r: (String, u64))
        ensures
            r.0@ == props.item.volid@,
            r.1 == props.item.size,
    {
        (props.item.volid.clone(), props.item.size)
    }

    /// What activating button `b` does.
    pub fn activate(&self, props: &VolumeActionDialog, b: VolumeButton) -> (r: Vec<VolumeEffect>)
        ensures
            r@ == button_effects(*props, b),
    {
        let mut r: Vec<VolumeEffect> = Vec::new();
        r.push(VolumeEffect::CloseSideDialog);
        match b {
            VolumeButton::Remove => if props.has_on_remove {
                r.push(VolumeEffect::EmitRemove);
            },
            VolumeButton::ShowConfig => if props.has_on_show_config {
                r.push(VolumeEffect::EmitShowConfig);
            },
        }
        assert(r@ =~= button_effects(*props, b));
        r
    }
}

} // verus!
