//! Lists of configuration properties: the plain property list, the
//! configuration list and the list with pending changes, as state machines.

use vstd::prelude::*;
use crate::properties::{
    EditableProperty, PropertyMap, PropertyValue, ValueView, clone_value, revert_key_list, revert_keys,
};
use crate::text::opt_text;
use crate::text::texts;
use crate::hardware::has_key;
use crate::edit_dialog::{EditDialog, FormRenderer};

verus! {

/// What a property list asks for after an event.
pub enum ListAction {
    Idle,
    /// Run the list's loader (where it has one) and deliver the result as
    /// `LoadResult`.
    Fetch,
    /// Send `Load` after `LIST_RELOAD_MS`.
    ScheduleReload,
    /// Send `Load` now.
    Reload,
    /// Submit `{"revert": keys}` and deliver the outcome as `RevertResult`.
    SubmitRevert(Vec<String>),
    /// Report a failed revert ("Revert property failed - {error}") where
    /// there is an error, and reload where a reload is pending.
    RevertDone { error: Option<String>, reload: bool },
}

/// Milliseconds after a load until a list loads again.
pub const LIST_RELOAD_MS: u32 = 3000;

/// Events of the plain property list and the configuration list.
pub enum Msg {
    Load,
    LoadResult(Result<PropertyMap, String>),
    /// Open the edit dialog of the property with this name.
    EditProperty(String),
    /// Close the edit dialog.
    CloseDialog,
}

/// State of a property list: the loaded record, whether a reload is
/// scheduled, and the property whose edit dialog is open.
pub struct PvePropertyList {
    pub data: Option<Result<PropertyMap, String>>,
    pub reload_pending: bool,
    pub edit_dialog: Option<String>,
}

impl PvePropertyList {
    /// Nothing loaded; the list then loads.
    pub fn create() -> (l: Self)
        ensures
            l.data is None,
            !l.reload_pending,
            l.edit_dialog is None,
    {
        PvePropertyList { data: None, reload_pending: false, edit_dialog: None }
    }

    /// `Load` drops a scheduled reload and loads; a result is kept and a
    /// reload scheduled; closing the dialog reloads where a reload was
    /// scheduled.
    pub fn update(&mut self, msg: Msg) -> (a: ListAction)
        ensures
            match msg {
                Msg::Load => a is Fetch && !final(self).reload_pending && final(self).edit_dialog
                    == old(self).edit_dialog,
                Msg::LoadResult(_) => a is ScheduleReload && final(self).reload_pending
                    && final(self).edit_dialog == old(self).edit_dialog,
                Msg::EditProperty(n) => a is Idle && opt_text(final(self).edit_dialog) == Some(n@)
                    && final(self).reload_pending == old(self).reload_pending,
                Msg::CloseDialog => (if old(self).reload_pending { a is Reload } else { a is Idle })
                    && final(self).edit_dialog is None && final(self).reload_pending
                    == old(self).reload_pending,
            },
            match msg {
                Msg::LoadResult(r) => final(self).data == Some(r),
                _ => final(self).data == old(self).data,
            },
    {
        match msg {
            Msg::Load => {
                self.reload_pending = false;
                ListAction::Fetch
            },
            Msg::LoadResult(r) => {
                self.data = Some(r);
                self.reload_pending = true;
                ListAction::ScheduleReload
            },
            Msg::EditProperty(name) => {
                self.edit_dialog = Some(name);
                ListAction::Idle
            },
            Msg::CloseDialog => {
                self.edit_dialog = None;
                if self.reload_pending {
                    ListAction::Reload
                } else {
                    ListAction::Idle
                }
            },
        }
    }
}

/// What activating a property's tile of the plain property list sends:
/// the request to edit that property where it has an input panel, nothing
/// (the tile is not interactive) where it has none.
pub fn property_tile_activation(p: &EditableProperty) -> (r: Option<Msg>)
    ensures
        p.has_input_panel ==> (r matches Some(Msg::EditProperty(n)) && n@ == p.name@),
        !p.has_input_panel ==> r is None,
{
    if p.has_input_panel {
        Some(Msg::EditProperty(p.name.clone()))
    } else {
        None
    }
}

/// A property's tile of a configuration list opens an edit dialog where a
/// submit callback (the property's own or the list's) and an input panel
/// exist.
pub fn config_tile_editable(p: &EditableProperty, list_has_submit: bool) -> (r: bool)
    ensures
        r == ((p.has_on_submit || list_has_submit) && p.has_input_panel),
{
    (p.has_on_submit || list_has_submit) && p.has_input_panel
}

/// Where a dialog's callback or loader comes from.
#[derive(Clone, Copy, Debug, PartialEq, Eq, Structural)]
pub enum CallbackSource {
    /// The property's own.
    Property,
    /// The list's.
    List,
    /// Neither has one.
    Absent,
}

/// The property's own callback where it has one, else the list's where it
/// has one.
pub open spec fn source_of(own: bool, list: bool) -> CallbackSource {
    if own {
        CallbackSource::Property
    } else if list {
        CallbackSource::List
    } else {
        CallbackSource::Absent
    }
}

/// The edit dialog a configuration list opens from the tile of `p`, where
/// the tile is editable: titled like the property, its form the property's
/// input panel, done when closed or submitted; it submits with the
/// property's own submit callback, else the list's, and loads with the
/// property's own loader, else the list's. The two sources are returned with
/// the dialog.
pub fn config_tile_dialog(p: &EditableProperty, list_has_submit: bool, list_has_loader: bool) -> (r: Option<(EditDialog, CallbackSource, CallbackSource)>)
    ensures
        r is Some <== ((p.has_on_submit || list_has_submit) && p.has_input_panel),
        r is Some ==> ((p.has_on_submit || list_has_submit) && p.has_input_panel),
        r matches Some((d, submit, loader)) ==> {
            &&& d.title@ == p.title@
            &&& d.renderer == FormRenderer::InputPanel
            &&& d.has_on_done && !d.has_on_close && d.has_on_submit
            &&& d.has_loader == (p.has_loader || list_has_loader)
            &&& !d.advanced_checkbox && !d.has_load_hook && !d.has_submit_hook && !d.has_on_change
            &&& d.submit_text is None && d.submit_digest && d.edit is None
            &&& submit == source_of(p.has_on_submit, list_has_submit)
            &&& loader == source_of(p.has_loader, list_has_loader)
        },
{
    if !config_tile_editable(p, list_has_submit) {
        return None;
    }
    let mut d = EditDialog::new(p.title.clone());
    d.has_on_done = true;
    d.has_on_submit = true;
    d.has_loader = p.has_loader || list_has_loader;
    d.renderer = FormRenderer::InputPanel;
    let submit = if p.has_on_submit {
        CallbackSource::Property
    } else {
        CallbackSource::List
    };
    let loader = if p.has_loader {
        CallbackSource::Property
    } else if list_has_loader {
        CallbackSource::List
    } else {
        CallbackSource::Absent
    };
    Some((d, submit, loader))
}

/// A single-row property shows its value at the end of the row, any other
/// property under its title.
pub fn value_trailing(p: &EditableProperty) -> (r: bool)
    ensures
        r == p.single_row,
{
    p.single_row
}

/// One entry of a pending configuration: the current value, the pending
/// one, and whether the key is to be deleted (1 or 2).
#[derive(Clone, Debug)]
pub struct QemuPendingConfigValue {
    pub key: String,
    pub value: Option<PropertyValue>,
    pub pending: Option<PropertyValue>,
    pub delete: Option<u64>,
}

/// A pending configuration split into the current record, the record with
/// the pending changes applied, and the set of deleted keys.
pub struct PendingConfig {
    pub current: PropertyMap,
    pub pending: PropertyMap,
    /// The keys marked deleted, each once.
    pub deleted: Vec<String>,
}

/// The entry marks its key as deleted.
pub open spec fn marked_deleted(item: QemuPendingConfigValue) -> bool {
    item.delete == Some(1u64) || item.delete == Some(2u64)
}

/// The split of a pending configuration, entry by entry: a present value
/// goes into the current record; a deleted key goes into the deleted set
/// and stays out of the pending record; otherwise the pending value, or
/// else the current value (if any), goes into the pending record.
pub open spec fn pending_split(data: Seq<QemuPendingConfigValue>) -> (Map<Seq<char>, ValueView>, Map<Seq<char>, ValueView>, Set<Seq<char>>)
    decreases data.len(),
{
    if data.len() == 0 {
        (Map::empty(), Map::empty(), Set::empty())
    } else {
        let (c, p, del) = pending_split(data.drop_last());
        let item = data.last();
        let k = item.key@;
        let c2 = match item.value {
            Some(v) => c.insert(k, v@),
            None => c,
        };
        if marked_deleted(item) {
            (c2, p, del.insert(k))
        } else {
            match item.pending {
                Some(v) => (c2, p.insert(k, v@), del),
                None => match item.value {
                    Some(v) => (c2, p.insert(k, v@), del),
                    None => (c2, p, del),
                },
            }
        }
    }
}

/// The set of texts of a sequence of strings.
pub open spec fn text_set(s: Seq<String>) -> Set<Seq<char>> {
    texts(s).to_set()
}

/// Splits a pending configuration into current record, pending record and
/// the set of deleted keys. It never fails.
pub fn pve_pending_config_array_to_objects(data: Vec<QemuPendingConfigValue>) -> (r: Result<PendingConfig, String>)
    ensures
        r matches Ok(cfg) && (cfg.current@, cfg.pending@, text_set(cfg.deleted@)) == pending_split(data@)
            && texts(cfg.deleted@).no_duplicates(),
{
    let mut current = PropertyMap::new();
    let mut pending = PropertyMap::new();
    let mut deleted: Vec<String> = Vec::new();
    let mut i: usize = 0;
    while i < data.len()
        invariant
            i <= data@.len(),
            (current@, pending@, text_set(deleted@)) == pending_split(data@.subrange(0, i as int)),
            texts(deleted@).no_duplicates(),
        decreases data@.len() - i,
    {
        let item = &data[i];
        let ghost pre = data@.subrange(0, i + 1);
        assert(pre.drop_last() =~= data@.subrange(0, i as int));
        match &item.value {
            Some(v) => current.insert(item.key.clone(), clone_value(v)),
            None => {},
        }
        let is_deleted = match item.delete {
            Some(d) => d == 1 || d == 2,
            None => false,
        };
        if is_deleted {
            let ghost old_deleted = deleted@;
            if !has_key(&deleted, item.key.as_str()) {
                deleted.push(item.key.clone());
                proof {
                    assert(texts(deleted@) =~= texts(old_deleted).push(item.key@));
                    texts(old_deleted).lemma_push_to_set_commute(item.key@);
                    assert(text_set(deleted@) =~= text_set(old_deleted).insert(item.key@));
                    assert forall|x: int, y: int|
                        0 <= x < texts(deleted@).len() && 0 <= y < texts(deleted@).len() && x != y
                        implies texts(deleted@)[x] != texts(deleted@)[y] by {
                        if x < old_deleted.len() && y < old_deleted.len() {
                            assert(texts(old_deleted)[x] == texts(deleted@)[x]);
                            assert(texts(old_deleted)[y] == texts(deleted@)[y]);
                        } else if x < old_deleted.len() {
                            assert(texts(old_deleted)[x] == texts(deleted@)[x]);
                        } else {
                            assert(texts(old_deleted)[y] == texts(deleted@)[y]);
                        }
                    }
                }
            } else {
                proof {
                    assert(texts(deleted@).to_set().contains(item.key@));
                    assert(text_set(deleted@) =~= text_set(deleted@).insert(item.key@));
                }
            }
        } else {
            match &item.pending {
                Some(v) => {
                    pending.insert(item.key.clone(), clone_value(v));
                },
                None => match &item.value {
                    Some(v) => pending.insert(item.key.clone(), clone_value(v)),
                    None => {},
                },
            }
        }
        i = i + 1;
    }
    assert(data@.subrange(0, data@.len() as int) =~= data@);
    Ok(PendingConfig { current, pending, deleted })
}

/// The last entry of a key decides what the split holds for it: its
/// current value (where it has one) is the key's current value; where it
/// is not marked deleted (1 or 2), its pending value, or else its current
/// value, is the key's pending value; where it is marked deleted, the key
/// is among the deleted ones.
pub proof fn law_last_entry_decides(data: Seq<QemuPendingConfigValue>, i: int)
    requires
        0 <= i < data.len(),
        forall|j: int| i < j < data.len() ==> (#[trigger] data[j]).key@ != data[i].key@,
    ensures
        ({
            let (c, p, del) = pending_split(data);
            let e = data[i];
            let k = e.key@;
            let deleted = e.delete == Some(1u64) || e.delete == Some(2u64);
            &&& e.value is Some ==> c.contains_key(k) && c[k] == e.value->0@
            &&& deleted ==> del.contains(k)
            &&& !deleted && e.pending is Some ==> p.contains_key(k) && p[k] == e.pending->0@
            &&& !deleted && e.pending is None && e.value is Some ==> p.contains_key(k) && p[k]
                == e.value->0@
        }),
    decreases data.len(),
{
    if i < data.len() - 1 {
        let pre = data.drop_last();
        assert(pre[i] == data[i]);
        assert forall|j: int| i < j < pre.len() implies (#[trigger] pre[j]).key@ != pre[i].key@ by {
            assert(pre[j] == data[j]);
        }
        law_last_entry_decides(pre, i);
        assert(data.last() == data[data.len() - 1]);
    }
}

/// The deleted set holds exactly the keys of entries marked deleted.
pub proof fn lemma_deleted_are_marked(data: Seq<QemuPendingConfigValue>, k: Seq<char>)
    ensures
        pending_split(data).2.contains(k) <==> exists|i: int|
            0 <= i < data.len() && (#[trigger] data[i]).key@ == k && marked_deleted(data[i]),
    decreases data.len(),
{
    if data.len() > 0 {
        let pre = data.drop_last();
        lemma_deleted_are_marked(pre, k);
        if exists|i: int| 0 <= i < pre.len() && (#[trigger] pre[i]).key@ == k && marked_deleted(pre[i]) {
            let i = choose|i: int| 0 <= i < pre.len() && (#[trigger] pre[i]).key@ == k && marked_deleted(pre[i]);
            assert(data[i] == pre[i]);
        }
        if exists|i: int| 0 <= i < data.len() && (#[trigger] data[i]).key@ == k && marked_deleted(data[i]) {
            let i = choose|i: int| 0 <= i < data.len() && (#[trigger] data[i]).key@ == k && marked_deleted(data[i]);
            if i < data.len() - 1 {
                assert(pre[i] == data[i]);
            }
        }
    }
}

/// The current record holds exactly the keys of entries with a current
/// value.
pub proof fn lemma_current_holds_valued_keys(data: Seq<QemuPendingConfigValue>, k: Seq<char>)
    ensures
        pending_split(data).0.contains_key(k) <==> exists|i: int|
            0 <= i < data.len() && (#[trigger] data[i]).key@ == k && data[i].value is Some,
    decreases data.len(),
{
    if data.len() > 0 {
        let pre = data.drop_last();
        lemma_current_holds_valued_keys(pre, k);
        if exists|i: int| 0 <= i < pre.len() && (#[trigger] pre[i]).key@ == k && pre[i].value is Some {
            let i = choose|i: int| 0 <= i < pre.len() && (#[trigger] pre[i]).key@ == k && pre[i].value is Some;
            assert(data[i] == pre[i]);
        }
        if exists|i: int| 0 <= i < data.len() && (#[trigger] data[i]).key@ == k && data[i].value is Some {
            let i = choose|i: int| 0 <= i < data.len() && (#[trigger] data[i]).key@ == k && data[i].value is Some;
            if i < data.len() - 1 {
                assert(pre[i] == data[i]);
            }
        }
    }
}

/// The pending record holds exactly the keys of entries that are not
/// deleted and carry a pending or current value.
pub proof fn lemma_pending_holds_kept_keys(data: Seq<QemuPendingConfigValue>, k: Seq<char>)
    ensures
        pending_split(data).1.contains_key(k) <==> exists|i: int|
            0 <= i < data.len() && (#[trigger] data[i]).key@ == k && !marked_deleted(data[i]) && (
            data[i].pending is Some || data[i].value is Some),
    decreases data.len(),
{
    if data.len() > 0 {
        let pre = data.drop_last();
        lemma_pending_holds_kept_keys(pre, k);
        if exists|i: int|
            0 <= i < pre.len() && (#[trigger] pre[i]).key@ == k && !marked_deleted(pre[i]) && (
            pre[i].pending is Some || pre[i].value is Some) {
            let i = choose|i: int|
                0 <= i < pre.len() && (#[trigger] pre[i]).key@ == k && !marked_deleted(pre[i]) && (
                pre[i].pending is Some || pre[i].value is Some);
            assert(data[i] == pre[i]);
        }
        if exists|i: int|
            0 <= i < data.len() && (#[trigger] data[i]).key@ == k && !marked_deleted(data[i]) && (
            data[i].pending is Some || data[i].value is Some) {
            let i = choose|i: int|
                0 <= i < data.len() && (#[trigger] data[i]).key@ == k && !marked_deleted(data[i]) && (
                data[i].pending is Some || data[i].value is Some);
            if i < data.len() - 1 {
                assert(pre[i] == data[i]);
            }
        }
    }
}

/// Events of the pending property list.
pub enum PendingMsg {
    Load,
    LoadResult(Result<Vec<QemuPendingConfigValue>, String>),
    /// Open (`Some`) or close (`None`) the edit dialog of a property.
    ShowDialog(Option<String>),
    EditProperty(String),
    Revert(EditableProperty),
    RevertResult(Result<(), String>),
}

/// State of the pending property list.
pub struct PvePendingPropertyList {
    pub data: Option<Result<PendingConfig, String>>,
    pub reload_pending: bool,
    pub edit_dialog: Option<String>,
}

impl PvePendingPropertyList {
    /// Nothing loaded; the list then loads.
    pub fn create() -> (l: Self)
        ensures
            l.data is None,
            !l.reload_pending,
            l.edit_dialog is None,
    {
        PvePendingPropertyList { data: None, reload_pending: false, edit_dialog: None }
    }

    /// Handles one event; `has_submit` says whether the list can submit.
    /// A loaded configuration is split and kept; a revert submits the
    /// property's revert keys; closing a dialog or a revert result reloads
    /// where a reload is scheduled.
    pub fn update(&mut self, msg: PendingMsg, has_submit: bool) -> (a: ListAction)
        ensures
            match msg {
                PendingMsg::Load => a is Fetch && !final(self).reload_pending,
                PendingMsg::LoadResult(_) => a is ScheduleReload && final(self).reload_pending,
                PendingMsg::ShowDialog(d) => (if d is None && old(self).reload_pending {
                    a is Reload
                } else {
                    a is Idle
                }) && opt_text(final(self).edit_dialog) == opt_text(d) && final(self).reload_pending
                    == old(self).reload_pending,
                PendingMsg::EditProperty(n) => a is Idle && opt_text(final(self).edit_dialog) == Some(
                    n@,
                ) && final(self).reload_pending == old(self).reload_pending,
                PendingMsg::Revert(p) => (if has_submit {
                    a matches ListAction::SubmitRevert(k) && texts(k@) == revert_key_list(p)
                } else {
                    a is Idle
                }) && final(self).reload_pending == old(self).reload_pending,
                PendingMsg::RevertResult(r) => a matches ListAction::RevertDone { error, reload }
                    && reload == old(self).reload_pending && opt_text(error) == match r {
                    Ok(()) => None,
                    Err(e) => Some(e@),
                } && final(self).reload_pending == old(self).reload_pending,
            },
            match msg {
                PendingMsg::LoadResult(Ok(v)) => final(self).data matches Some(Ok(cfg)) && (
                cfg.current@, cfg.pending@, text_set(cfg.deleted@)) == pending_split(v@),
                PendingMsg::LoadResult(Err(e)) => final(self).data matches Some(Err(m)) && m@ == e@,
                _ => final(self).data == old(self).data,
            },
    {
        match msg {
            PendingMsg::Load => {
                self.reload_pending = false;
                ListAction::Fetch
            },
            PendingMsg::LoadResult(r) => {
                self.data = match r {
                    Ok(v) => Some(pve_pending_config_array_to_objects(v)),
                    Err(e) => Some(Err(e)),
                };
                self.reload_pending = true;
                ListAction::ScheduleReload
            },
            PendingMsg::ShowDialog(d) => {
                let reload = d.is_none() && self.reload_pending;
                self.edit_dialog = d;
                if reload {
                    ListAction::Reload
                } else {
                    ListAction::Idle
                }
            },
            PendingMsg::EditProperty(n) => {
                self.edit_dialog = Some(n);
                ListAction::Idle
            },
            PendingMsg::Revert(p) => {
                if has_submit {
                    ListAction::SubmitRevert(revert_keys(&p))
                } else {
                    ListAction::Idle
                }
            },
            PendingMsg::RevertResult(r) => {
                let error = match r {
                    Ok(()) => None,
                    Err(e) => Some(e),
                };
                ListAction::RevertDone { error, reload: self.reload_pending }
            },
        }
    }
}

} // verus!
