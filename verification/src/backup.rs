//! The backup panel of a VM: the backup storages it offers, their cards,
//! the backup form's choices, and the panel's states.

use vstd::prelude::*;
use crate::text::opt_text;
use crate::sort::{SortKey, stable_sort, stable_sorted};
use crate::storage_content::StorageContentPanel;
use crate::text::{
    same_text, text_le, text_le_exec, lemma_text_lt_total, lemma_text_le_transitive, texts,
};
use crate::urls::{node_path, node_url};

verus! {

/// A storage of a node, with the fields this crate reads.
#[derive(Clone, Debug)]
pub struct StorageInfo {
    pub storage: String,
    pub ty: String,
    pub shared: Option<bool>,
    pub enabled: Option<bool>,
    pub content: Vec<String>,
    pub total: Option<i64>,
    pub used: Option<i64>,
}

impl SortKey for StorageInfo {
    /// Storages are ordered by name.
    open spec fn key_le(self, other: Self) -> bool {
        text_le(self.storage@, other.storage@)
    }

    proof fn lemma_key_total(a: Self, b: Self) {
        lemma_text_lt_total(a.storage@, b.storage@);
    }

    proof fn lemma_key_transitive(a: Self, b: Self, c: Self) {
        lemma_text_le_transitive(a.storage@, b.storage@, c.storage@);
    }

    fn precedes(&self, other: &Self) -> (r: bool) {
        text_le_exec(self.storage.as_str(), other.storage.as_str())
    }
}

/// A storage gets a card unless it is disabled.
pub open spec fn storage_enabled(s: StorageInfo) -> bool {
    match s.enabled {
        Some(e) => e,
        None => true,
    }
}

/// `s` joined with `sep` between the elements.
pub open spec fn joined(s: Seq<Seq<char>>, sep: Seq<char>) -> Seq<char>
    decreases s.len(),
{
    if s.len() == 0 {
        Seq::empty()
    } else if s.len() == 1 {
        s[0]
    } else {
        joined(s.drop_last(), sep) + sep + s.last()
    }
}

/// Joins the texts with `sep` between them.
pub fn join(s: &Vec<String>, sep: &str) -> (r: String)
    ensures
        r@ == joined(texts(s@), sep@),
{
    let mut out = String::new();
    let mut i: usize = 0;
    while i < s.len()
        invariant
            i <= s@.len(),
            out@ == joined(texts(s@.subrange(0, i as int)), sep@),
        decreases s@.len() - i,
    {
        let ghost pre = texts(s@.subrange(0, i + 1));
        assert(pre.drop_last() =~= texts(s@.subrange(0, i as int)));
        if i > 0 {
            out.append(sep);
        } else {
            assert(out@ =~= Seq::<char>::empty());
        }
        out.append(s[i].as_str());
        i = i + 1;
    }
    assert(s@.subrange(0, s@.len() as int) =~= s@);
    out
}

/// What a storage card shows.
pub struct StorageCard {
    /// "{storage} ({type})".
    pub title: String,
    /// "cloud" for a shared storage, else "folder".
    pub icon: &'static str,
    /// The content types, joined with ", ".
    pub content: String,
    /// Used and total bytes, where both are known ("Storage size/usage
    /// unknown" otherwise).
    pub usage: Option<(i64, i64)>,
}

/// The card of a storage.
pub fn storage_card(s: &StorageInfo) -> (c: StorageCard)
    ensures
        c.title@ == s.storage@ + " ("@ + s.ty@ + ")"@,
        c.icon@ == (if s.shared == Some(true) { "cloud"@ } else { "folder"@ }),
        c.content@ == joined(texts(s.content@), ", "@),
        c.usage == (if s.total is Some && s.used is Some {
            Some((s.used->0, s.total->0))
        } else {
            None
        }),
{
    let mut title = s.storage.clone();
    title.append(" (");
    title.append(s.ty.as_str());
    title.append(")");
    let shared = match s.shared {
        Some(b) => b,
        None => false,
    };
    StorageCard {
        title,
        icon: if shared {
            "cloud"
        } else {
            "folder"
        },
        content: join(&s.content, ", "),
        usage: match (s.total, s.used) {
            (Some(t), Some(u)) => Some((u, t)),
            _ => None,
        },
    }
}

/// The backup modes the form offers, in order.
pub fn backup_modes() -> (r: Vec<&'static str>)
    ensures
        r@.len() == 3,
        r@[0]@ == "SNAPSHOT"@ && r@[1]@ == "SUSPEND"@ && r@[2]@ == "STOP"@,
{
    let mut v: Vec<&'static str> = Vec::new();
    v.push("SNAPSHOT");
    v.push("SUSPEND");
    v.push("STOP");
    v
}

/// The compression choices, in order; "zstd" is the default.
pub fn compression_modes() -> (r: Vec<&'static str>)
    ensures
        r@.len() == 4,
        r@[0]@ == "none"@ && r@[1]@ == "gzip"@ && r@[2]@ == "lzo"@ && r@[3]@ == "zstd"@,
{
    let mut v: Vec<&'static str> = Vec::new();
    v.push("none");
    v.push("gzip");
    v.push("lzo");
    v.push("zstd");
    v
}

/// A compression choice of the form.
pub open spec fn known_compression(c: Seq<char>) -> bool {
    c == "none"@ || c == "gzip"@ || c == "lzo"@ || c == "zstd"@
}

/// How a compression choice reads.
pub fn compression_label(c: &str) -> (r: &'static str)
    requires
        known_compression(c@),
    ensures
        r@ == (if c@ == "none"@ {
            "none"@
        } else if c@ == "gzip"@ {
            "GZIP (good)"@
        } else if c@ == "lzo"@ {
            "LZO (fast)"@
        } else {
            "ZSTD (fast & good)"@
        }),
{
    if same_text(c, "none") {
        "none"
    } else if same_text(c, "gzip") {
        "GZIP (good)"
    } else if same_text(c, "lzo") {
        "LZO (fast)"
    } else {
        "ZSTD (fast & good)"
    }
}

/// Properties of the panel: the VM and its node.
pub struct VmBackupPanel {
    pub vmid: u32,
    pub node: String,
}

impl VmBackupPanel {
    /// The backup panel of VM `vmid` on `node`.
    pub fn new(node: String, vmid: u32) -> (p: Self)
        ensures
            p.node@ == node@,
            p.vmid == vmid,
    {
        VmBackupPanel { vmid, node }
    }
}

/// Events of the panel.
pub enum Msg {
    LoadStorage,
    LoadStorageResult(Result<Vec<StorageInfo>, String>),
    ActiveStorage(String),
    ShowBackupDialog(bool),
}

/// What the panel asks for after an event.
pub enum BackupAction {
    Idle,
    /// GET this URL with `{"content": "backup"}` and deliver the storages
    /// as `LoadStorageResult`.
    FetchStorages(String),
}

/// State of the panel.
pub struct PveVmBackupPanel {
    pub storage_list: Option<Result<Vec<StorageInfo>, String>>,
    pub active_storage: Option<String>,
    pub show_backup_dialog: bool,
}

impl PveVmBackupPanel {
    /// Nothing loaded or selected; the panel then loads the storages.
    pub fn create() -> (p: Self)
        ensures
            p.storage_list is None,
            p.active_storage is None,
            !p.show_backup_dialog,
    {
        PveVmBackupPanel { storage_list: None, active_storage: None, show_backup_dialog: false }
    }

    /// New properties drop the storages and load them again.
    pub fn changed(&mut self, props: &VmBackupPanel) -> (a: BackupAction)
        ensures
            final(self).storage_list is None,
            opt_text(final(self).active_storage) == opt_text(old(self).active_storage),
            final(self).show_backup_dialog == old(self).show_backup_dialog,
            a matches BackupAction::FetchStorages(u) && u@ == node_path(props.node@) + "/storage"@,
    {
        self.storage_list = None;
        BackupAction::FetchStorages(node_url(props.node.as_str(), "/storage"))
    }

    /// Handles one event; loaded storages are kept sorted by name.
    pub fn update(&mut self, props: &VmBackupPanel, msg: Msg) -> (a: BackupAction)
        ensures
            match msg {
                Msg::LoadStorage => a matches BackupAction::FetchStorages(u) && u@ == node_path(props.node@) + "/storage"@,
                _ => a is Idle,
            },
            match msg {
                Msg::LoadStorageResult(Ok(v)) => final(self).storage_list matches Some(Ok(w))
                    && w@ == stable_sorted(v@),
                Msg::LoadStorageResult(Err(e)) => final(self).storage_list matches Some(Err(m)) && m@ == e@,
                _ => final(self).storage_list == old(self).storage_list,
            },
            opt_text(final(self).active_storage) == match msg {
                Msg::ActiveStorage(n) => Some(n@),
                _ => opt_text(old(self).active_storage),
            },
            final(self).show_backup_dialog == match msg {
                Msg::ShowBackupDialog(b) => b,
                _ => old(self).show_backup_dialog,
            },
    {
        match msg {
            Msg::ShowBackupDialog(b) => {
                self.show_backup_dialog = b;
                BackupAction::Idle
            },
            Msg::ActiveStorage(name) => {
                self.active_storage = Some(name);
                BackupAction::Idle
            },
            Msg::LoadStorage => BackupAction::FetchStorages(node_url(props.node.as_str(), "/storage")),
            Msg::LoadStorageResult(r) => {
                match r {
                    Ok(mut v) => {
                        stable_sort(&mut v);
                        self.storage_list = Some(Ok(v));
                    },
                    Err(e) => {
                        self.storage_list = Some(Err(e));
                    },
                }
                BackupAction::Idle
            },
        }
    }

    /// Whether card `s` is the selected storage (drawn raised).
    pub fn is_active(&self, s: &StorageInfo) -> (r: bool)
        ensures
            r == (opt_text(self.active_storage) == Some(s.storage@)),
    {
        match &self.active_storage {
            Some(a) => same_text(a.as_str(), s.storage.as_str()),
            None => false,
        }
    }

    /// The recent backups of the selected storage: its backup content for
    /// this VM; none before a storage is selected ("Please select a target
    /// storage.").
    pub fn recent_backups(&self, props: &VmBackupPanel) -> (r: Option<StorageContentPanel>)
        ensures
            match self.active_storage {
                Some(a) => r matches Some(p) && p.node@ == props.node@ && p.storage@ == a@
                    && p.vmid_filter == Some(props.vmid) && opt_text(p.content_filter) == Some("backup"@),
                None => r is None,
            },
    {
        match &self.active_storage {
            Some(a) => Some(
                StorageContentPanel::new(props.node.clone(), a.clone()).vmid_filter(Some(props.vmid)).content_filter(
                    Some(String::from_str("backup")),
                ),
            ),
            None => None,
        }
    }

    /// The "Backup now" button shows once a storage is selected.
    pub fn shows_backup_button(&self) -> (r: bool)
        ensures
            r == self.active_storage is Some,
    {
        self.active_storage.is_some()
    }
}

/// The indices of the storages that get a card, in order.
pub open spec fn enabled_storages(list: Seq<StorageInfo>) -> Seq<usize>
    decreases list.len(),
{
    if list.len() == 0 {
        Seq::empty()
    } else {
        let rest = enabled_storages(list.drop_last());
        if storage_enabled(list.last()) {
            rest.push((list.len() - 1) as usize)
        } else {
            rest
        }
    }
}

/// The storages that get a card, by index.
pub fn storage_cards(list: &Vec<StorageInfo>) -> (r: Vec<usize>)
    ensures
        r@ == enabled_storages(list@),
{
    let mut r: Vec<usize> = Vec::new();
    let mut i: usize = 0;
    while i < list.len()
        invariant
            i <= list@.len(),
            r@ == enabled_storages(list@.subrange(0, i as int)),
        decreases list@.len() - i,
    {
        let ghost pre = list@.subrange(0, i + 1);
        assert(pre.drop_last() =~= list@.subrange(0, i as int));
        let enabled = match list[i].enabled {
            Some(e) => e,
            None => true,
        };
        if enabled {
            r.push(i);
        }
        i = i + 1;
    }
    assert(list@.subrange(0, list@.len() as int) =~= list@);
    r
}

} // verus!
