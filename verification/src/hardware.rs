//! The hardware list of a virtual machine: which rows it shows in which
//! order, their menus, and what the panel's events request.

use vstd::prelude::*;
use crate::text::{decimal, lemma_decimal_injective, same_text, texts, u64_text};
use crate::urls::{qemu_config_url, qemu_path};
use crate::properties::PropertyMap;

verus! {

/// Slots of each kind of device a VM configuration has.
pub const IDE_SLOTS: u64 = 4;
pub const SATA_SLOTS: u64 = 6;
pub const SCSI_SLOTS: u64 = 31;
pub const VIRTIO_SLOTS: u64 = 16;
pub const NET_SLOTS: u64 = 32;
pub const UNUSED_SLOTS: u64 = 256;

/// The medium of a drive.
#[derive(Clone, Copy, Debug, PartialEq, Eq, Structural)]
pub enum DriveMedia {
    Disk,
    Cdrom,
}

/// The kinds of rows of the hardware list.
#[derive(Clone, Copy, Debug, PartialEq, Eq, Structural)]
pub enum RowKind {
    Memory,
    Processor,
    Bios,
    Display,
    Machine,
    ScsiHw,
    VmState,
    Disk,
    Cdrom,
    Network,
    Unused,
    EfiDisk,
    TpmState,
}

/// One row of the hardware list: its kind and the configuration key it
/// shows (empty for the processor row).
#[derive(Clone, Debug)]
pub struct HardwareRow {
    pub kind: RowKind,
    pub name: String,
}

/// An editable property's key, where it has one, and whether it is shown
/// even while absent from the configuration.
pub struct PropertyInfo {
    pub name: Option<String>,
    pub required: bool,
}

/// The fixed properties of the hardware list.
pub struct HardwareProperties {
    pub memory: PropertyInfo,
    pub bios: PropertyInfo,
    pub display: PropertyInfo,
    pub machine: PropertyInfo,
    pub scsihw: PropertyInfo,
    pub vmstate: PropertyInfo,
    pub efidisk: PropertyInfo,
    pub tpmstate: PropertyInfo,
}

impl HardwareProperties {
    /// The fixed properties, with the EFI disk row on key `edidisk0` and the
    /// TPM state row on key `tpmstate0`, both shown only where configured.
    pub fn new(
        memory: PropertyInfo,
        bios: PropertyInfo,
        display: PropertyInfo,
        machine: PropertyInfo,
        scsihw: PropertyInfo,
        vmstate: PropertyInfo,
    ) -> (p: Self)
        ensures
            p.memory == memory,
            p.bios == bios,
            p.display == display,
            p.machine == machine,
            p.scsihw == scsihw,
            p.vmstate == vmstate,
            p.efidisk.name matches Some(n) && n@ == "edidisk0"@,
            !p.efidisk.required,
            p.tpmstate.name matches Some(n) && n@ == "tpmstate0"@,
            !p.tpmstate.required,
    {
        proof {
            reveal_strlit("edidisk0");
            reveal_strlit("tpmstate0");
        }
        HardwareProperties {
            memory,
            bios,
            display,
            machine,
            scsihw,
            vmstate,
            efidisk: PropertyInfo { name: Some(String::from_str("edidisk0")), required: false },
            tpmstate: PropertyInfo { name: Some(String::from_str("tpmstate0")), required: false },
        }
    }
}

/// A drive key with the medium its pending value names; `None` where the
/// value could not be read (the drive is then left out).
pub struct DriveEntry {
    pub name: String,
    pub media: Option<DriveMedia>,
}

/// The view of a row: kind and key.
pub open spec fn row_view(r: HardwareRow) -> (RowKind, Seq<char>) {
    (r.kind, r.name@)
}

/// The keys, as texts.
pub open spec fn key_views(keys: Seq<String>) -> Seq<Seq<char>> {
    texts(keys)
}

/// The row of a fixed property: shown where it has a key and is required
/// or configured.
pub open spec fn fixed_rows(kind: RowKind, p: PropertyInfo, keys: Seq<Seq<char>>) -> Seq<(RowKind, Seq<char>)> {
    match p.name {
        Some(n) => if p.required || keys.contains(n@) {
            seq![(kind, n@)]
        } else {
            Seq::empty()
        },
        None => Seq::empty(),
    }
}

/// The medium the drive entries give for `name` (the first entry of that
/// name), `None` where there is none or it is unreadable.
pub open spec fn media_of(drives: Seq<DriveEntry>, name: Seq<char>) -> Option<DriveMedia>
    decreases drives.len(),
{
    if drives.len() == 0 {
        None
    } else if drives[0].name@ == name {
        drives[0].media
    } else {
        media_of(drives.drop_first(), name)
    }
}

/// How a slot shows.
#[derive(Clone, Copy, Debug, PartialEq, Eq, Structural)]
pub enum SlotKind {
    /// ide, sata and scsi: a disk or CD drive, as its medium says.
    Drive,
    /// virtio: always a disk.
    Virtio,
    Network,
    Unused,
}

/// The row of slot `name`: none where the key is not configured (or the
/// medium of a drive is unreadable).
pub open spec fn slot_row(k: SlotKind, name: Seq<char>, keys: Seq<Seq<char>>, drives: Seq<DriveEntry>) -> Seq<(RowKind, Seq<char>)> {
    if !keys.contains(name) {
        Seq::empty()
    } else {
        match k {
            SlotKind::Drive => match media_of(drives, name) {
                Some(DriveMedia::Disk) => seq![(RowKind::Disk, name)],
                Some(DriveMedia::Cdrom) => seq![(RowKind::Cdrom, name)],
                None => Seq::empty(),
            },
            SlotKind::Virtio => seq![(RowKind::Disk, name)],
            SlotKind::Network => seq![(RowKind::Network, name)],
            SlotKind::Unused => seq![(RowKind::Unused, name)],
        }
    }
}

/// The rows of slots `{prefix}0` up to `{prefix}{n-1}`.
pub open spec fn slot_rows(k: SlotKind, prefix: Seq<char>, n: nat, keys: Seq<Seq<char>>, drives: Seq<DriveEntry>) -> Seq<(RowKind, Seq<char>)>
    decreases n,
{
    if n == 0 {
        Seq::empty()
    } else {
        slot_rows(k, prefix, (n - 1) as nat, keys, drives) + slot_row(
            k,
            prefix + decimal((n - 1) as nat),
            keys,
            drives,
        )
    }
}

/// The hardware list: memory, processor, BIOS, display, machine, SCSI
/// controller and VM state where shown; then the ide, sata, scsi and virtio
/// drives, network cards and unused disks in slot order; then the EFI disk
/// and TPM state where shown.
pub open spec fn hardware_list(p: HardwareProperties, keys: Seq<Seq<char>>, drives: Seq<DriveEntry>) -> Seq<(RowKind, Seq<char>)> {
    fixed_rows(RowKind::Memory, p.memory, keys) + seq![(RowKind::Processor, Seq::<char>::empty())]
        + fixed_rows(RowKind::Bios, p.bios, keys) + fixed_rows(RowKind::Display, p.display, keys)
        + fixed_rows(RowKind::Machine, p.machine, keys) + fixed_rows(RowKind::ScsiHw, p.scsihw, keys)
        + fixed_rows(RowKind::VmState, p.vmstate, keys) + slot_rows(SlotKind::Drive, "ide"@, IDE_SLOTS as nat, keys, drives)
        + slot_rows(SlotKind::Drive, "sata"@, SATA_SLOTS as nat, keys, drives)
        + slot_rows(SlotKind::Drive, "scsi"@, SCSI_SLOTS as nat, keys, drives)
        + slot_rows(SlotKind::Virtio, "virtio"@, VIRTIO_SLOTS as nat, keys, drives)
        + slot_rows(SlotKind::Network, "net"@, NET_SLOTS as nat, keys, drives)
        + slot_rows(SlotKind::Unused, "unused"@, UNUSED_SLOTS as nat, keys, drives)
        + fixed_rows(RowKind::EfiDisk, p.efidisk, keys) + fixed_rows(RowKind::TpmState, p.tpmstate, keys)
}

/// The rows of `v`, as views.
pub open spec fn rows_view(v: Seq<HardwareRow>) -> Seq<(RowKind, Seq<char>)> {
    v.map_values(|r: HardwareRow| row_view(r))
}

/// Whether `name` is among the keys.
pub fn has_key(keys: &Vec<String>, name: &str) -> (r: bool)
    ensures
        r == key_views(keys@).contains(name@),
{
    let mut i: usize = 0;
    while i < keys.len()
        invariant
            i <= keys@.len(),
            forall|j: int| 0 <= j < i ==> (#[trigger] keys@[j])@ != name@,
        decreases keys@.len() - i,
    {
        if same_text(keys[i].as_str(), name) {
            assert(key_views(keys@)[i as int] == name@);
            return true;
        }
        i = i + 1;
    }
    proof {
        if key_views(keys@).contains(name@) {
            let j = choose|j: int| 0 <= j < key_views(keys@).len() && key_views(keys@)[j] == name@;
            assert(keys@[j]@ == name@);
        }
    }
    false
}

fn lookup_media(drives: &Vec<DriveEntry>, name: &str) -> (r: Option<DriveMedia>)
    ensures
        r == media_of(drives@, name@),
{
    let mut i: usize = 0;
    assert(drives@.skip(0) =~= drives@);
    while i < drives.len()
        invariant
            i <= drives@.len(),
            media_of(drives@.skip(i as int), name@) == media_of(drives@, name@),
        decreases drives@.len() - i,
    {
        assert(drives@.skip(i as int)[0] == drives@[i as int]);
        assert(drives@.skip(i as int).drop_first() =~= drives@.skip(i + 1));
        if same_text(drives[i].name.as_str(), name) {
            return drives[i].media;
        }
        i = i + 1;
    }
    assert(drives@.skip(i as int).len() == 0);
    None
}

fn push_row(list: &mut Vec<HardwareRow>, kind: RowKind, name: String)
    ensures
        rows_view(final(list)@) == rows_view(old(list)@).push((kind, name@)),
{
    list.push(HardwareRow { kind, name });
    assert(rows_view(final(list)@) =~= rows_view(old(list)@).push((kind, name@)));
}

fn push_fixed(list: &mut Vec<HardwareRow>, kind: RowKind, p: &PropertyInfo, keys: &Vec<String>)
    ensures
        rows_view(final(list)@) == rows_view(old(list)@) + fixed_rows(kind, *p, key_views(keys@)),
{
    match &p.name {
        Some(n) => {
            if p.required || has_key(keys, n.as_str()) {
                push_row(list, kind, n.clone());
            } else {
                assert(rows_view(old(list)@) + Seq::empty() =~= rows_view(old(list)@));
            }
        },
        None => {
            assert(rows_view(old(list)@) + Seq::empty() =~= rows_view(old(list)@));
        },
    }
}

fn push_slots(
    list: &mut Vec<HardwareRow>,
    k: SlotKind,
    prefix: &str,
    max: u64,
    keys: &Vec<String>,
    drives: &Vec<DriveEntry>,
)
    ensures
        rows_view(final(list)@) == rows_view(old(list)@) + slot_rows(
            k,
            prefix@,
            max as nat,
            key_views(keys@),
            drives@,
        ),
{
    let ghost start = rows_view(list@);
    let mut n: u64 = 0;
    while n < max
        invariant
            n <= max,
            rows_view(list@) == start + slot_rows(k, prefix@, n as nat, key_views(keys@), drives@),
        decreases max - n,
    {
        let mut name = String::from_str(prefix);
        let digits = u64_text(n);
        name.append(digits.as_str());
        let ghost before = rows_view(list@);
        if has_key(keys, name.as_str()) {
            match k {
                SlotKind::Drive => match lookup_media(drives, name.as_str()) {
                    Some(DriveMedia::Disk) => push_row(list, RowKind::Disk, name),
                    Some(DriveMedia::Cdrom) => push_row(list, RowKind::Cdrom, name),
                    None => {},
                },
                SlotKind::Virtio => push_row(list, RowKind::Disk, name),
                SlotKind::Network => push_row(list, RowKind::Network, name),
                SlotKind::Unused => push_row(list, RowKind::Unused, name),
            }
        }
        assert(rows_view(list@) =~= before + slot_row(k, prefix@ + decimal(n as nat), key_views(keys@), drives@));
        assert(start + slot_rows(k, prefix@, (n + 1) as nat, key_views(keys@), drives@) =~= start
            + slot_rows(k, prefix@, n as nat, key_views(keys@), drives@) + slot_row(
            k,
            prefix@ + decimal(n as nat),
            key_views(keys@),
            drives@,
        ));
        n = n + 1;
    }
}

/// The rows of the hardware list for a configuration with `keys`.
pub fn hardware_rows(p: &HardwareProperties, keys: &Vec<String>, drives: &Vec<DriveEntry>) -> (rows: Vec<HardwareRow>)
    ensures
        rows_view(rows@) == hardware_list(*p, key_views(keys@), drives@),
{
    let mut list: Vec<HardwareRow> = Vec::new();
    assert(rows_view(list@) =~= Seq::empty());
    push_fixed(&mut list, RowKind::Memory, &p.memory, keys);
    push_row(&mut list, RowKind::Processor, String::new());
    push_fixed(&mut list, RowKind::Bios, &p.bios, keys);
    push_fixed(&mut list, RowKind::Display, &p.display, keys);
    push_fixed(&mut list, RowKind::Machine, &p.machine, keys);
    push_fixed(&mut list, RowKind::ScsiHw, &p.scsihw, keys);
    push_fixed(&mut list, RowKind::VmState, &p.vmstate, keys);
    push_slots(&mut list, SlotKind::Drive, "ide", IDE_SLOTS, keys, drives);
    push_slots(&mut list, SlotKind::Drive, "sata", SATA_SLOTS, keys, drives);
    push_slots(&mut list, SlotKind::Drive, "scsi", SCSI_SLOTS, keys, drives);
    push_slots(&mut list, SlotKind::Virtio, "virtio", VIRTIO_SLOTS, keys, drives);
    push_slots(&mut list, SlotKind::Network, "net", NET_SLOTS, keys, drives);
    push_slots(&mut list, SlotKind::Unused, "unused", UNUSED_SLOTS, keys, drives);
    push_fixed(&mut list, RowKind::EfiDisk, &p.efidisk, keys);
    push_fixed(&mut list, RowKind::TpmState, &p.tpmstate, keys);
    assert(rows_view(list@) =~= hardware_list(*p, key_views(keys@), drives@));
    list
}

/// Whether a row can be edited, or be added (an unused disk is added
/// back).
#[derive(Clone, Copy, Debug, PartialEq, Eq, Structural)]
pub enum EditAction {
    Readonly,
    Edit,
    Add,
}

/// The icon of a row.
pub fn row_icon(kind: RowKind) -> (r: &'static str)
    ensures
        r@ == match kind {
            RowKind::Memory => "memory"@,
            RowKind::Processor => "cpu"@,
            RowKind::Bios => "microchip"@,
            RowKind::Display => "desktop"@,
            RowKind::Machine => "cogs"@,
            RowKind::ScsiHw => "database"@,
            RowKind::VmState => "download"@,
            RowKind::Cdrom => "cdrom"@,
            RowKind::Network => "exchange"@,
            _ => "hdd-o"@,
        },
{
    match kind {
        RowKind::Memory => "memory",
        RowKind::Processor => "cpu",
        RowKind::Bios => "microchip",
        RowKind::Display => "desktop",
        RowKind::Machine => "cogs",
        RowKind::ScsiHw => "database",
        RowKind::VmState => "download",
        RowKind::Cdrom => "cdrom",
        RowKind::Network => "exchange",
        _ => "hdd-o",
    }
}

/// What activating a row does: the EFI disk and TPM state rows are read
/// only, an unused disk is added, every other row is edited.
pub fn row_edit_action(kind: RowKind) -> (r: EditAction)
    ensures
        r == match kind {
            RowKind::EfiDisk | RowKind::TpmState => EditAction::Readonly,
            RowKind::Unused => EditAction::Add,
            _ => EditAction::Edit,
        },
{
    match kind {
        RowKind::EfiDisk | RowKind::TpmState => EditAction::Readonly,
        RowKind::Unused => EditAction::Add,
        _ => EditAction::Edit,
    }
}

/// Entries of a row's menu.
#[derive(Clone, Copy, Debug, PartialEq, Eq, Structural)]
pub enum MenuEntry {
    EditSocketsCores,
    EditKernelScheduler,
    EditCpuFlags,
    EditNetwork,
    EditMtu,
    MoveDisk,
    ReassignDisk,
    ResizeDisk,
    /// "Detach disk", confirmed with a message naming the disk.
    DetachDisk,
    /// "Delete device", confirmed by typing its name.
    DeleteDevice,
    /// "Delete disk" of an unused disk.
    DeleteDisk,
}

/// The menu of a row, in order: the processor's editors; a network card's
/// editors and removal; a disk's move, reassign and resize then detach; a
/// CD drive's removal; an unused disk's deletion; no menu otherwise.
pub open spec fn menu_of(kind: RowKind) -> Seq<MenuEntry> {
    match kind {
        RowKind::Processor => seq![
            MenuEntry::EditSocketsCores,
            MenuEntry::EditKernelScheduler,
            MenuEntry::EditCpuFlags,
        ],
        RowKind::Network => seq![MenuEntry::EditNetwork, MenuEntry::EditMtu, MenuEntry::DeleteDevice],
        RowKind::Disk => seq![
            MenuEntry::MoveDisk,
            MenuEntry::ReassignDisk,
            MenuEntry::ResizeDisk,
            MenuEntry::DetachDisk,
        ],
        RowKind::Cdrom => seq![MenuEntry::DeleteDevice],
        RowKind::Unused => seq![MenuEntry::DeleteDisk],
        _ => Seq::empty(),
    }
}

/// The menu of a row.
pub fn row_menu(kind: RowKind) -> (r: Vec<MenuEntry>)
    ensures
        r@ == menu_of(kind),
{
    let mut v: Vec<MenuEntry> = Vec::new();
    match kind {
        RowKind::Processor => {
            v.push(MenuEntry::EditSocketsCores);
            v.push(MenuEntry::EditKernelScheduler);
            v.push(MenuEntry::EditCpuFlags);
        },
        RowKind::Network => {
            v.push(MenuEntry::EditNetwork);
            v.push(MenuEntry::EditMtu);
            v.push(MenuEntry::DeleteDevice);
        },
        RowKind::Disk => {
            v.push(MenuEntry::MoveDisk);
            v.push(MenuEntry::ReassignDisk);
            v.push(MenuEntry::ResizeDisk);
            v.push(MenuEntry::DetachDisk);
        },
        RowKind::Cdrom => {
            v.push(MenuEntry::DeleteDevice);
        },
        RowKind::Unused => {
            v.push(MenuEntry::DeleteDisk);
        },
        _ => {},
    }
    assert(v@ =~= menu_of(kind));
    v
}

/// The confirmation of detaching disk `name`.
pub fn detach_message(name: &str) -> (r: String)
    ensures
        r@ == "Are you sure you want to detach entry "@ + name@,
{
    let mut s = String::from_str("Are you sure you want to detach entry ");
    s.append(name);
    s
}

/// The entries of the panel's add menu that are enabled: hard disk, CD
/// drive and network card always; an EFI disk or TPM state only while the
/// pending configuration has none.
#[derive(Clone, Copy, Debug, PartialEq, Eq, Structural)]
pub struct CardMenu {
    pub efidisk_enabled: bool,
    pub tpmstate_enabled: bool,
}

/// The add menu for a pending configuration that has (or lacks) an EFI
/// disk and a TPM state.
pub fn card_menu(has_efidisk: bool, has_tpmstate: bool) -> (m: CardMenu)
    ensures
        m.efidisk_enabled == !has_efidisk,
        m.tpmstate_enabled == !has_tpmstate,
{
    CardMenu { efidisk_enabled: !has_efidisk, tpmstate_enabled: !has_tpmstate }
}

/// The add menu for a pending configuration: the EFI disk entry is
/// enabled while it has no key `efidisk0`, the TPM state entry while it has
/// no key `tpmstate0`.
pub fn card_menu_for(pending: &PropertyMap) -> (m: CardMenu)
    ensures
        m.efidisk_enabled == !pending@.contains_key("efidisk0"@),
        m.tpmstate_enabled == !pending@.contains_key("tpmstate0"@),
{
    proof {
        reveal_strlit("efidisk0");
        reveal_strlit("tpmstate0");
    }
    let has_efidisk = pending.get("efidisk0").is_some();
    let has_tpmstate = pending.get("tpmstate0").is_some();
    card_menu(has_efidisk, has_tpmstate)
}

/// Properties of the panel: the VM and its node.
pub struct QemuHardwarePanel {
    pub vmid: u32,
    pub node: String,
}

impl QemuHardwarePanel {
    /// The hardware panel of VM `vmid` on `node`.
    pub fn new(node: String, vmid: u32) -> (p: Self)
        ensures
            p.node@ == node@,
            p.vmid == vmid,
    {
        QemuHardwarePanel { vmid, node }
    }

    /// Where the configuration is loaded from and submitted to.
    pub fn editor_url(&self) -> (r: String)
        ensures
            r@ == qemu_path(self.node@, self.vmid as u64) + "/config"@,
    {
        qemu_config_url(self.node.as_str(), self.vmid as u64)
    }

    /// Where the pending configuration is loaded from.
    pub fn pending_url(&self) -> (r: String)
        ensures
            r@ == qemu_path(self.node@, self.vmid as u64) + "/pending"@,
    {
        crate::urls::qemu_pending_url(self.node.as_str(), self.vmid as u64)
    }

    /// Where a disk resize is submitted.
    pub fn resize_disk_url(&self) -> (r: String)
        ensures
            r@ == qemu_path(self.node@, self.vmid as u64) + "/resize"@,
    {
        crate::urls::qemu_resize_url(self.node.as_str(), self.vmid as u64)
    }

    /// Where a disk move or reassignment is submitted.
    pub fn move_disk_url(&self) -> (r: String)
        ensures
            r@ == qemu_path(self.node@, self.vmid as u64) + "/move_disk"@,
    {
        crate::urls::qemu_move_disk_url(self.node.as_str(), self.vmid as u64)
    }

    /// New properties reload the panel where they name another VM.
    pub fn changed(&self, old_props: &QemuHardwarePanel) -> (reload: bool)
        ensures
            reload == (self.node@ != old_props.node@ || self.vmid != old_props.vmid),
    {
        !same_text(self.node.as_str(), old_props.node.as_str()) || self.vmid != old_props.vmid
    }
}

/// Events of the panel.
pub enum Msg {
    CommandResult(Result<(), String>),
    DeleteDevice(String),
    ResizeDisk(String),
    ReassignDisk(String),
    MoveDisk(String),
}

/// The dialogs the panel opens for a disk.
#[derive(Clone, Copy, Debug, PartialEq, Eq, Structural)]
pub enum DiskDialog {
    /// Submitted with PUT to the resize URL.
    Resize,
    /// Submitted with POST to the move URL.
    Reassign,
    /// Submitted with POST to the move URL.
    Move,
}

/// What the panel asks for after an event.
pub enum HardwareAction {
    /// PUT `{"delete": [name]}` to the configuration URL and deliver the
    /// outcome as `CommandResult`.
    DeleteDevice { url: String, name: String },
    /// Show the error where there is one, and reload where a reload is
    /// pending.
    CommandDone { error: Option<String>, reload: bool },
    /// Open a disk dialog for drive `name`: it loads from `load_url` and
    /// submits to `submit_url`.
    OpenDialog { dialog: DiskDialog, name: String, load_url: String, submit_url: String },
}

/// Handles one event of the hardware panel; `reload_pending` says whether
/// the panel has a reload scheduled.
pub fn hardware_update(props: &QemuHardwarePanel, reload_pending: bool, msg: Msg) -> (a: HardwareAction)
    ensures
        match msg {
            Msg::DeleteDevice(n) => a matches HardwareAction::DeleteDevice { url, name } && url@
                == qemu_path(props.node@, props.vmid as u64) + "/config"@ && name@ == n@,
            Msg::CommandResult(r) => a matches HardwareAction::CommandDone { error, reload } && reload
                == reload_pending && match r {
                Ok(()) => error is None,
                Err(e) => error matches Some(m) && m@ == e@,
            },
            Msg::ResizeDisk(n) => a matches HardwareAction::OpenDialog { dialog, name, load_url, submit_url }
                && dialog == DiskDialog::Resize && name@ == n@ && load_url@ == qemu_path(props.node@, props.vmid as u64) + "/config"@
                && submit_url@ == qemu_path(props.node@, props.vmid as u64) + "/resize"@,
            Msg::ReassignDisk(n) => a matches HardwareAction::OpenDialog { dialog, name, load_url, submit_url }
                && dialog == DiskDialog::Reassign && name@ == n@ && load_url@ == qemu_path(props.node@, props.vmid as u64) + "/config"@
                && submit_url@ == qemu_path(props.node@, props.vmid as u64) + "/move_disk"@,
            Msg::MoveDisk(n) => a matches HardwareAction::OpenDialog { dialog, name, load_url, submit_url }
                && dialog == DiskDialog::Move && name@ == n@ && load_url@ == qemu_path(props.node@, props.vmid as u64) + "/config"@
                && submit_url@ == qemu_path(props.node@, props.vmid as u64) + "/move_disk"@,
        },
{
    match msg {
        Msg::DeleteDevice(name) => HardwareAction::DeleteDevice { url: props.editor_url(), name },
        Msg::CommandResult(result) => {
            let error = match result {
                Ok(()) => None,
                Err(e) => Some(e),
            };
            HardwareAction::CommandDone { error, reload: reload_pending }
        },
        Msg::ResizeDisk(name) => HardwareAction::OpenDialog {
            dialog: DiskDialog::Resize,
            name,
            load_url: props.editor_url(),
            submit_url: props.resize_disk_url(),
        },
        Msg::ReassignDisk(name) => HardwareAction::OpenDialog {
            dialog: DiskDialog::Reassign,
            name,
            load_url: props.editor_url(),
            submit_url: props.move_disk_url(),
        },
        Msg::MoveDisk(name) => HardwareAction::OpenDialog {
            dialog: DiskDialog::Move,
            name,
            load_url: props.editor_url(),
            submit_url: props.move_disk_url(),
        },
    }
}

/// What the hardware card shows.
#[derive(Clone, Copy, Debug, PartialEq, Eq, Structural)]
pub enum CardContent {
    /// A progress bar: nothing loaded and no error.
    Loading,
    /// Only the error: nothing loaded.
    Error,
    /// The add menu, the error and the list.
    ListWithError,
    /// The add menu and the list.
    List,
}

/// The hardware card for the loaded data and the last error.
pub fn card_content(has_data: bool, has_error: bool) -> (c: CardContent)
    ensures
        c == (if !has_data {
            if has_error { CardContent::Error } else { CardContent::Loading }
        } else if has_error {
            CardContent::ListWithError
        } else {
            CardContent::List
        }),
{
    if !has_data {
        if has_error {
            CardContent::Error
        } else {
            CardContent::Loading
        }
    } else if has_error {
        CardContent::ListWithError
    } else {
        CardContent::List
    }
}


/// The buses whose slots hold disk or CD drives.
pub open spec fn is_drive_bus(bus: Seq<char>, slots: nat) -> bool {
    (bus == "ide"@ && slots == IDE_SLOTS as nat) || (bus == "sata"@ && slots == SATA_SLOTS as nat) || (
    bus == "scsi"@ && slots == SCSI_SLOTS as nat)
}

proof fn lemma_concat_contains<A>(a: Seq<A>, b: Seq<A>, x: A)
    ensures
        (a + b).contains(x) <==> (a.contains(x) || b.contains(x)),
{
    if (a + b).contains(x) {
        let i = choose|i: int| 0 <= i < (a + b).len() && (a + b)[i] == x;
        if i < a.len() {
            assert(a[i] == x);
        } else {
            assert(b[i - a.len()] == x);
        }
    }
    if a.contains(x) {
        let i = choose|i: int| 0 <= i < a.len() && a[i] == x;
        assert((a + b)[i] == x);
    }
    if b.contains(x) {
        let i = choose|i: int| 0 <= i < b.len() && b[i] == x;
        assert((a + b)[a.len() + i] == x);
    }
}

proof fn lemma_single_contains<A>(a: A, x: A)
    ensures
        seq![a].contains(x) <==> a == x,
{
    if seq![a].contains(x) {
        let i = choose|i: int| 0 <= i < seq![a].len() && seq![a][i] == x;
        assert(i == 0);
    }
    if a == x {
        assert(seq![a][0] == x);
    }
}

proof fn lemma_fixed_kind(kind: RowKind, p: PropertyInfo, keys: Seq<Seq<char>>, x: (RowKind, Seq<char>))
    ensures
        fixed_rows(kind, p, keys).contains(x) ==> x.0 == kind,
{
    if let Some(n) = p.name {
        lemma_single_contains((kind, n@), x);
    }
}

proof fn lemma_slot_row_shape(k: SlotKind, name: Seq<char>, keys: Seq<Seq<char>>, drives: Seq<DriveEntry>, x: (RowKind, Seq<char>))
    requires
        slot_row(k, name, keys, drives).contains(x),
    ensures
        x.1 == name,
        keys.contains(name),
        k == SlotKind::Drive ==> (x.0 == RowKind::Disk && media_of(drives, name) == Some(DriveMedia::Disk))
            || (x.0 == RowKind::Cdrom && media_of(drives, name) == Some(DriveMedia::Cdrom)),
        k == SlotKind::Virtio ==> x.0 == RowKind::Disk,
        k == SlotKind::Network ==> x.0 == RowKind::Network,
        k == SlotKind::Unused ==> x.0 == RowKind::Unused,
{
    lemma_single_contains((RowKind::Disk, name), x);
    lemma_single_contains((RowKind::Cdrom, name), x);
    lemma_single_contains((RowKind::Network, name), x);
    lemma_single_contains((RowKind::Unused, name), x);
}

proof fn lemma_slot_rows_member(k: SlotKind, prefix: Seq<char>, n: nat, keys: Seq<Seq<char>>, drives: Seq<DriveEntry>, x: (RowKind, Seq<char>))
    requires
        slot_rows(k, prefix, n, keys, drives).contains(x),
    ensures
        exists|m: nat| m < n && #[trigger] slot_row(k, prefix + decimal(m), keys, drives).contains(x),
    decreases n,
{
    if n > 0 {
        let a = slot_rows(k, prefix, (n - 1) as nat, keys, drives);
        let b = slot_row(k, prefix + decimal((n - 1) as nat), keys, drives);
        lemma_concat_contains(a, b, x);
        if a.contains(x) {
            lemma_slot_rows_member(k, prefix, (n - 1) as nat, keys, drives, x);
        }
    }
}

proof fn lemma_slot_rows_has(k: SlotKind, prefix: Seq<char>, n: nat, keys: Seq<Seq<char>>, drives: Seq<DriveEntry>, m: nat, x: (RowKind, Seq<char>))
    requires
        m < n,
        slot_row(k, prefix + decimal(m), keys, drives).contains(x),
    ensures
        slot_rows(k, prefix, n, keys, drives).contains(x),
    decreases n,
{
    let a = slot_rows(k, prefix, (n - 1) as nat, keys, drives);
    let b = slot_row(k, prefix + decimal((n - 1) as nat), keys, drives);
    lemma_concat_contains(a, b, x);
    if m < n - 1 {
        lemma_slot_rows_has(k, prefix, (n - 1) as nat, keys, drives, m, x);
    }
}

proof fn lemma_prefix_cancel(a: Seq<char>, d1: Seq<char>, d2: Seq<char>)
    requires
        a + d1 == a + d2,
    ensures
        d1 == d2,
{
    assert(d1 =~= (a + d1).subrange(a.len() as int, (a + d1).len() as int));
    assert(d2 =~= (a + d2).subrange(a.len() as int, (a + d2).len() as int));
}

/// A drive row of bus `q` that names slot `n` of bus `bus` is that slot's
/// own row.
proof fn lemma_drive_part(q: Seq<char>, qslots: nat, bus: Seq<char>, slots: nat, n: nat, keys: Seq<Seq<char>>, drives: Seq<DriveEntry>, x: (RowKind, Seq<char>))
    requires
        is_drive_bus(q, qslots),
        is_drive_bus(bus, slots),
        slot_rows(SlotKind::Drive, q, qslots, keys, drives).contains(x),
        x.1 == bus + decimal(n),
    ensures
        keys.contains(x.1),
        x.0 == RowKind::Disk ==> media_of(drives, x.1) == Some(DriveMedia::Disk),
        x.0 == RowKind::Cdrom ==> media_of(drives, x.1) == Some(DriveMedia::Cdrom),
{
    reveal_strlit("ide");
    reveal_strlit("sata");
    reveal_strlit("scsi");
    lemma_slot_rows_member(SlotKind::Drive, q, qslots, keys, drives, x);
    let m = choose|m: nat| m < qslots && #[trigger] slot_row(SlotKind::Drive, q + decimal(m), keys, drives).contains(x);
    lemma_slot_row_shape(SlotKind::Drive, q + decimal(m), keys, drives, x);
    if q != bus {
        if q == "ide"@ || bus == "ide"@ {
            assert((q + decimal(m))[0] != (bus + decimal(n))[0]);
        } else {
            assert((q + decimal(m))[1] != (bus + decimal(n))[1]);
        }
    }
    lemma_prefix_cancel(bus, decimal(m), decimal(n));
    lemma_decimal_injective(m, n);
}

/// Slot `n` of an ide, sata or scsi bus shows as a CD drive exactly where
/// it is configured and its drive's medium is a CD, and as a disk exactly
/// where it is configured and its medium is a disk; a drive whose medium
/// cannot be read has no row.
pub proof fn law_drive_rows_follow_medium(
    p: HardwareProperties,
    keys: Seq<Seq<char>>,
    drives: Seq<DriveEntry>,
    bus: Seq<char>,
    slots: nat,
    n: nat,
)
    requires
        is_drive_bus(bus, slots),
        n < slots,
    ensures
        hardware_list(p, keys, drives).contains((RowKind::Cdrom, bus + decimal(n))) <==> keys.contains(
            bus + decimal(n),
        ) && media_of(drives, bus + decimal(n)) == Some(DriveMedia::Cdrom),
        hardware_list(p, keys, drives).contains((RowKind::Disk, bus + decimal(n))) <==> keys.contains(
            bus + decimal(n),
        ) && media_of(drives, bus + decimal(n)) == Some(DriveMedia::Disk),
{
    reveal_strlit("ide");
    reveal_strlit("sata");
    reveal_strlit("scsi");
    reveal_strlit("virtio");
    let name = bus + decimal(n);
    assert forall|a: Seq<(RowKind, Seq<char>)>, b: Seq<(RowKind, Seq<char>)>, x: (RowKind, Seq<char>)|
        #[trigger] (a + b).contains(x) <==> (a.contains(x) || b.contains(x)) by {
        lemma_concat_contains(a, b, x);
    }
    let kinds = seq![RowKind::Cdrom, RowKind::Disk];
    assert forall|i: int| 0 <= i < 2 implies {
        let x = (#[trigger] kinds[i], name);
        hardware_list(p, keys, drives).contains(x) <==> keys.contains(name) && media_of(drives, name)
            == Some(if x.0 == RowKind::Cdrom { DriveMedia::Cdrom } else { DriveMedia::Disk })
    } by {
        let x = (kinds[i], name);
        let med = if x.0 == RowKind::Cdrom { DriveMedia::Cdrom } else { DriveMedia::Disk };
        let ide = slot_rows(SlotKind::Drive, "ide"@, IDE_SLOTS as nat, keys, drives);
        let sata = slot_rows(SlotKind::Drive, "sata"@, SATA_SLOTS as nat, keys, drives);
        let scsi = slot_rows(SlotKind::Drive, "scsi"@, SCSI_SLOTS as nat, keys, drives);
        let virtio = slot_rows(SlotKind::Virtio, "virtio"@, VIRTIO_SLOTS as nat, keys, drives);
        let net = slot_rows(SlotKind::Network, "net"@, NET_SLOTS as nat, keys, drives);
        let unused = slot_rows(SlotKind::Unused, "unused"@, UNUSED_SLOTS as nat, keys, drives);
        if keys.contains(name) && media_of(drives, name) == Some(med) {
            lemma_single_contains(x, x);
            lemma_slot_rows_has(SlotKind::Drive, bus, slots, keys, drives, n, x);
        }
        if hardware_list(p, keys, drives).contains(x) {
            lemma_fixed_kind(RowKind::Memory, p.memory, keys, x);
            lemma_single_contains((RowKind::Processor, Seq::<char>::empty()), x);
            lemma_fixed_kind(RowKind::Bios, p.bios, keys, x);
            lemma_fixed_kind(RowKind::Display, p.display, keys, x);
            lemma_fixed_kind(RowKind::Machine, p.machine, keys, x);
            lemma_fixed_kind(RowKind::ScsiHw, p.scsihw, keys, x);
            lemma_fixed_kind(RowKind::VmState, p.vmstate, keys, x);
            lemma_fixed_kind(RowKind::EfiDisk, p.efidisk, keys, x);
            lemma_fixed_kind(RowKind::TpmState, p.tpmstate, keys, x);
            if ide.contains(x) {
                lemma_drive_part("ide"@, IDE_SLOTS as nat, bus, slots, n, keys, drives, x);
            }
            if sata.contains(x) {
                lemma_drive_part("sata"@, SATA_SLOTS as nat, bus, slots, n, keys, drives, x);
            }
            if scsi.contains(x) {
                lemma_drive_part("scsi"@, SCSI_SLOTS as nat, bus, slots, n, keys, drives, x);
            }
            if virtio.contains(x) {
                lemma_slot_rows_member(SlotKind::Virtio, "virtio"@, VIRTIO_SLOTS as nat, keys, drives, x);
                let m = choose|m: nat| m < VIRTIO_SLOTS as nat && #[trigger] slot_row(SlotKind::Virtio, "virtio"@ + decimal(m), keys, drives).contains(x);
                lemma_slot_row_shape(SlotKind::Virtio, "virtio"@ + decimal(m), keys, drives, x);
                assert(("virtio"@ + decimal(m))[0] != name[0]);
            }
            if net.contains(x) {
                lemma_slot_rows_member(SlotKind::Network, "net"@, NET_SLOTS as nat, keys, drives, x);
                let m = choose|m: nat| m < NET_SLOTS as nat && #[trigger] slot_row(SlotKind::Network, "net"@ + decimal(m), keys, drives).contains(x);
                lemma_slot_row_shape(SlotKind::Network, "net"@ + decimal(m), keys, drives, x);
            }
            if unused.contains(x) {
                lemma_slot_rows_member(SlotKind::Unused, "unused"@, UNUSED_SLOTS as nat, keys, drives, x);
                let m = choose|m: nat| m < UNUSED_SLOTS as nat && #[trigger] slot_row(SlotKind::Unused, "unused"@ + decimal(m), keys, drives).contains(x);
                lemma_slot_row_shape(SlotKind::Unused, "unused"@ + decimal(m), keys, drives, x);
            }
        }
    }
    assert(kinds[0] == RowKind::Cdrom);
    assert(kinds[1] == RowKind::Disk);
}


proof fn lemma_slot_rows_facts(k: SlotKind, prefix: Seq<char>, n: nat, keys: Seq<Seq<char>>, drives: Seq<DriveEntry>, x: (RowKind, Seq<char>))
    requires
        slot_rows(k, prefix, n, keys, drives).contains(x),
        prefix.len() > 0,
    ensures
        keys.contains(x.1),
        x.1.len() > 0 && x.1[0] == prefix[0],
        k == SlotKind::Drive ==> x.0 == RowKind::Disk || x.0 == RowKind::Cdrom,
        k == SlotKind::Virtio ==> x.0 == RowKind::Disk,
        k == SlotKind::Network ==> x.0 == RowKind::Network,
        k == SlotKind::Unused ==> x.0 == RowKind::Unused,
{
    lemma_slot_rows_member(k, prefix, n, keys, drives, x);
    let m = choose|m: nat| m < n && #[trigger] slot_row(k, prefix + decimal(m), keys, drives).contains(x);
    lemma_slot_row_shape(k, prefix + decimal(m), keys, drives, x);
    assert((prefix + decimal(m))[0] == prefix[0]);
}

/// The virtio, network and unused slots: slot `n` of each shows (as a
/// disk, a network card and an unused disk) exactly where it is
/// configured.
pub proof fn law_other_slots_shown_when_configured(p: HardwareProperties, keys: Seq<Seq<char>>, drives: Seq<DriveEntry>, n: nat)
    ensures
        n < VIRTIO_SLOTS ==> (hardware_list(p, keys, drives).contains((RowKind::Disk, "virtio"@ + decimal(n)))
            <==> keys.contains("virtio"@ + decimal(n))),
        n < NET_SLOTS ==> (hardware_list(p, keys, drives).contains((RowKind::Network, "net"@ + decimal(n)))
            <==> keys.contains("net"@ + decimal(n))),
        n < UNUSED_SLOTS ==> (hardware_list(p, keys, drives).contains((RowKind::Unused, "unused"@ + decimal(n)))
            <==> keys.contains("unused"@ + decimal(n))),
{
    reveal_strlit("ide");
    reveal_strlit("sata");
    reveal_strlit("scsi");
    reveal_strlit("virtio");
    reveal_strlit("net");
    reveal_strlit("unused");
    assert forall|a: Seq<(RowKind, Seq<char>)>, b: Seq<(RowKind, Seq<char>)>, x: (RowKind, Seq<char>)|
        #[trigger] (a + b).contains(x) <==> (a.contains(x) || b.contains(x)) by {
        lemma_concat_contains(a, b, x);
    }
    let kinds = seq![SlotKind::Virtio, SlotKind::Network, SlotKind::Unused];
    let prefixes = seq!["virtio"@, "net"@, "unused"@];
    let counts = seq![VIRTIO_SLOTS as nat, NET_SLOTS as nat, UNUSED_SLOTS as nat];
    let rks = seq![RowKind::Disk, RowKind::Network, RowKind::Unused];
    assert forall|i: int| 0 <= i < 3 && n < counts[i] implies (hardware_list(p, keys, drives).contains(
        (#[trigger] rks[i], prefixes[i] + decimal(n)),
    ) <==> keys.contains(prefixes[i] + decimal(n))) by {
        let name = prefixes[i] + decimal(n);
        let x = (rks[i], name);
        assert(name[0] == prefixes[i][0]);
        if keys.contains(name) {
            lemma_single_contains(x, x);
            lemma_slot_rows_has(kinds[i], prefixes[i], counts[i], keys, drives, n, x);
        }
        if hardware_list(p, keys, drives).contains(x) {
            lemma_fixed_kind(RowKind::Memory, p.memory, keys, x);
            lemma_single_contains((RowKind::Processor, Seq::<char>::empty()), x);
            lemma_fixed_kind(RowKind::Bios, p.bios, keys, x);
            lemma_fixed_kind(RowKind::Display, p.display, keys, x);
            lemma_fixed_kind(RowKind::Machine, p.machine, keys, x);
            lemma_fixed_kind(RowKind::ScsiHw, p.scsihw, keys, x);
            lemma_fixed_kind(RowKind::VmState, p.vmstate, keys, x);
            lemma_fixed_kind(RowKind::EfiDisk, p.efidisk, keys, x);
            lemma_fixed_kind(RowKind::TpmState, p.tpmstate, keys, x);
            if slot_rows(SlotKind::Drive, "ide"@, IDE_SLOTS as nat, keys, drives).contains(x) {
                lemma_slot_rows_facts(SlotKind::Drive, "ide"@, IDE_SLOTS as nat, keys, drives, x);
            }
            if slot_rows(SlotKind::Drive, "sata"@, SATA_SLOTS as nat, keys, drives).contains(x) {
                lemma_slot_rows_facts(SlotKind::Drive, "sata"@, SATA_SLOTS as nat, keys, drives, x);
            }
            if slot_rows(SlotKind::Drive, "scsi"@, SCSI_SLOTS as nat, keys, drives).contains(x) {
                lemma_slot_rows_facts(SlotKind::Drive, "scsi"@, SCSI_SLOTS as nat, keys, drives, x);
            }
            if slot_rows(SlotKind::Virtio, "virtio"@, VIRTIO_SLOTS as nat, keys, drives).contains(x) {
                lemma_slot_rows_facts(SlotKind::Virtio, "virtio"@, VIRTIO_SLOTS as nat, keys, drives, x);
            }
            if slot_rows(SlotKind::Network, "net"@, NET_SLOTS as nat, keys, drives).contains(x) {
                lemma_slot_rows_facts(SlotKind::Network, "net"@, NET_SLOTS as nat, keys, drives, x);
            }
            if slot_rows(SlotKind::Unused, "unused"@, UNUSED_SLOTS as nat, keys, drives).contains(x) {
                lemma_slot_rows_facts(SlotKind::Unused, "unused"@, UNUSED_SLOTS as nat, keys, drives, x);
            }
        }
    }
    assert(rks[0] == RowKind::Disk && prefixes[0] == "virtio"@ && counts[0] == VIRTIO_SLOTS as nat);
    assert(rks[1] == RowKind::Network && prefixes[1] == "net"@ && counts[1] == NET_SLOTS as nat);
    assert(rks[2] == RowKind::Unused && prefixes[2] == "unused"@ && counts[2] == UNUSED_SLOTS as nat);
}

} // verus!
