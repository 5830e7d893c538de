//! The option lists of guests: which options they show with which
//! defaults, the flags that can be switched, and the panels' states.

use vstd::prelude::*;
use crate::text::{decimal, u64_text};
use crate::urls::{lxc_config_url, lxc_path, qemu_config_url, qemu_path};

verus! {

/// One line of an option list: its title and the text of its value.
pub struct ConfigLine {
    pub title: &'static str,
    pub value: String,
}

/// The view of a line.
pub open spec fn line_view(l: ConfigLine) -> (Seq<char>, Seq<char>) {
    (l.title@, l.value@)
}

/// The views of lines.
pub open spec fn lines_view(v: Seq<ConfigLine>) -> Seq<(Seq<char>, Seq<char>)> {
    v.map_values(|l: ConfigLine| line_view(l))
}

/// The value, or `d` where there is none.
pub open spec fn or_default(o: Option<String>, d: Seq<char>) -> Seq<char> {
    match o {
        Some(s) => s@,
        None => d,
    }
}

fn value_or(o: &Option<String>, d: &str) -> (r: String)
    ensures
        r@ == or_default(*o, d@),
{
    match o {
        Some(s) => s.clone(),
        None => String::from_str(d),
    }
}

fn push_line(v: &mut Vec<ConfigLine>, title: &'static str, value: String)
    ensures
        lines_view(final(v)@) == lines_view(old(v)@).push((title@, value@)),
{
    v.push(ConfigLine { title, value });
    assert(lines_view(final(v)@) =~= lines_view(old(v)@).push((title@, value@)));
}

/// A flag of an option list that a switch changes: title, key, and the
/// value it has where unset.
pub struct ConfigFlag {
    pub title: &'static str,
    pub key: &'static str,
    pub default: bool,
}

/// The view of a flag.
pub open spec fn flag_view(f: ConfigFlag) -> (Seq<char>, Seq<char>, bool) {
    (f.title@, f.key@, f.default)
}

/// The views of flags.
pub open spec fn flags_view(v: Seq<ConfigFlag>) -> Seq<(Seq<char>, Seq<char>, bool)> {
    v.map_values(|f: ConfigFlag| flag_view(f))
}

fn push_flag(v: &mut Vec<ConfigFlag>, title: &'static str, key: &'static str, default: bool)
    ensures
        flags_view(final(v)@) == flags_view(old(v)@).push((title@, key@, default)),
{
    v.push(ConfigFlag { title, key, default });
    assert(flags_view(final(v)@) =~= flags_view(old(v)@).push((title@, key@, default)));
}

/// The configuration of a container, with the fields its option list
/// reads (enumerations and property strings in their text form).
#[derive(Clone, Debug)]
pub struct LxcConfig {
    pub hostname: Option<String>,
    pub startup: Option<String>,
    pub ostype: Option<String>,
    pub arch: Option<String>,
    pub tty: Option<u64>,
    pub cmode: Option<String>,
    pub unprivileged: Option<bool>,
    pub features: Option<String>,
    pub memory: Option<u64>,
    pub swap: Option<u64>,
    pub cores: Option<u64>,
    pub rootfs: Option<String>,
    /// Network devices by index, in index order, as property strings.
    pub net: Vec<(u32, String)>,
    pub searchdomain: Option<String>,
    pub nameserver: Option<String>,
}

/// The switches of a container's option list.
pub fn lxc_flags() -> (r: Vec<ConfigFlag>)
    ensures
        flags_view(r@) == seq![
            ("Start on boot"@, "onboot"@, false),
            ("Protection"@, "protection"@, false),
            ("Console"@, "console"@, true),
        ],
{
    let mut v: Vec<ConfigFlag> = Vec::new();
    assert(flags_view(v@) =~= Seq::empty());
    push_flag(&mut v, "Start on boot", "onboot", false);
    push_flag(&mut v, "Protection", "protection", false);
    push_flag(&mut v, "Console", "console", true);
    v
}

/// `true` or `false`, as a flag prints.
pub open spec fn bool_word(b: bool) -> Seq<char> {
    if b {
        "true"@
    } else {
        "false"@
    }
}

/// The option lines of a container: name ("CT {vmid}" where unset), start
/// order, OS type, architecture, TTY count (2), console mode ("tty"),
/// unprivileged (false) and features ("none").
pub open spec fn lxc_lines(c: LxcConfig, vmid: u32) -> Seq<(Seq<char>, Seq<char>)> {
    seq![
        ("Name"@, or_default(c.hostname, "CT "@ + decimal(vmid as nat))),
        ("Start/Shutdown order"@, or_default(c.startup, "Default (any)"@)),
        ("OS Type"@, or_default(c.ostype, "Other"@)),
        ("Architecture"@, or_default(c.arch, "-"@)),
        ("TTY count"@, decimal(match c.tty { Some(t) => t as nat, None => 2 })),
        ("Console mode"@, or_default(c.cmode, "tty"@)),
        ("Unprivileged"@, bool_word(match c.unprivileged { Some(u) => u, None => false })),
        ("Features"@, or_default(c.features, "none"@)),
    ]
}

/// The option lines of a container.
pub fn lxc_config_lines(c: &LxcConfig, vmid: u32) -> (r: Vec<ConfigLine>)
    ensures
        lines_view(r@) == lxc_lines(*c, vmid),
{
    let mut v: Vec<ConfigLine> = Vec::new();
    assert(lines_view(v@) =~= Seq::empty());
    let name = match &c.hostname {
        Some(h) => h.clone(),
        None => {
            let mut s = String::from_str("CT ");
            let id = u64_text(vmid as u64);
            s.append(id.as_str());
            s
        },
    };
    push_line(&mut v, "Name", name);
    push_line(&mut v, "Start/Shutdown order", value_or(&c.startup, "Default (any)"));
    push_line(&mut v, "OS Type", value_or(&c.ostype, "Other"));
    push_line(&mut v, "Architecture", value_or(&c.arch, "-"));
    let tty = match c.tty {
        Some(t) => t,
        None => 2,
    };
    push_line(&mut v, "TTY count", u64_text(tty));
    push_line(&mut v, "Console mode", value_or(&c.cmode, "tty"));
    let unprivileged = match c.unprivileged {
        Some(u) => u,
        None => false,
    };
    push_line(
        &mut v,
        "Unprivileged",
        if unprivileged {
            String::from_str("true")
        } else {
            String::from_str("false")
        },
    );
    push_line(&mut v, "Features", value_or(&c.features, "none"));
    assert(lines_view(v@) =~= lxc_lines(*c, vmid));
    v
}

/// The configuration of a VM, with the fields its option list reads.
#[derive(Clone, Debug)]
pub struct QemuConfig {
    pub name: Option<String>,
    pub startup: Option<String>,
    pub ostype: Option<String>,
    pub boot: Option<String>,
    pub hotplug: Option<String>,
    pub startdate: Option<String>,
    pub smbios1: Option<String>,
    pub spice_enhancements: Option<String>,
    pub vmstatestorage: Option<String>,
    pub memory: Option<String>,
    pub cpu: Option<String>,
    pub bios: Option<String>,
}

/// The switches of a VM's option list.
pub fn qemu_flags() -> (r: Vec<ConfigFlag>)
    ensures
        flags_view(r@) == seq![
            ("Start on boot"@, "onboot"@, false),
            ("Use tablet for pointer"@, "tablet"@, true),
            ("ACPI support"@, "acpi"@, true),
            ("KVM hardware virtualization"@, "kvm"@, true),
            ("Freeze CPU on startup"@, "freeze"@, false),
            ("Use local time for RTC"@, "localtime"@, false),
            ("Protection"@, "protection"@, false),
        ],
{
    let mut v: Vec<ConfigFlag> = Vec::new();
    assert(flags_view(v@) =~= Seq::empty());
    push_flag(&mut v, "Start on boot", "onboot", false);
    push_flag(&mut v, "Use tablet for pointer", "tablet", true);
    push_flag(&mut v, "ACPI support", "acpi", true);
    push_flag(&mut v, "KVM hardware virtualization", "kvm", true);
    push_flag(&mut v, "Freeze CPU on startup", "freeze", false);
    push_flag(&mut v, "Use local time for RTC", "localtime", false);
    push_flag(&mut v, "Protection", "protection", false);
    v
}

/// The option lines of a VM with their defaults. The guest agent line
/// shows the SMBIOS value.
pub open spec fn qemu_lines(c: QemuConfig, vmid: u32) -> Seq<(Seq<char>, Seq<char>)> {
    seq![
        ("Name"@, or_default(c.name, "VM "@ + decimal(vmid as nat))),
        ("Start/Shutdown order"@, or_default(c.startup, "Default (any)"@)),
        ("OS Type"@, or_default(c.ostype, "Other"@)),
        ("Boot Device"@, or_default(c.boot, "Disk, Network, USB"@)),
        ("Hotplug"@, or_default(c.hotplug, "disk,network,usb"@)),
        ("RTC start date"@, or_default(c.startdate, "now"@)),
        ("SMBIOS settings (type1)"@, or_default(c.smbios1, "-"@)),
        ("QEMU Guest Agent"@, or_default(c.smbios1, "Default (disabled)"@)),
        ("Spice Enhancements"@, or_default(c.spice_enhancements, "No enhancements"@)),
        ("VM State Storage"@, or_default(c.vmstatestorage, "1 (autogenerated)"@)),
    ]
}

/// The option lines of a VM.
pub fn qemu_config_lines(c: &QemuConfig, vmid: u32) -> (r: Vec<ConfigLine>)
    ensures
        lines_view(r@) == qemu_lines(*c, vmid),
{
    let mut v: Vec<ConfigLine> = Vec::new();
    assert(lines_view(v@) =~= Seq::empty());
    let name = match &c.name {
        Some(h) => h.clone(),
        None => {
            let mut s = String::from_str("VM ");
            let id = u64_text(vmid as u64);
            s.append(id.as_str());
            s
        },
    };
    push_line(&mut v, "Name", name);
    push_line(&mut v, "Start/Shutdown order", value_or(&c.startup, "Default (any)"));
    push_line(&mut v, "OS Type", value_or(&c.ostype, "Other"));
    push_line(&mut v, "Boot Device", value_or(&c.boot, "Disk, Network, USB"));
    push_line(&mut v, "Hotplug", value_or(&c.hotplug, "disk,network,usb"));
    push_line(&mut v, "RTC start date", value_or(&c.startdate, "now"));
    push_line(&mut v, "SMBIOS settings (type1)", value_or(&c.smbios1, "-"));
    push_line(&mut v, "QEMU Guest Agent", value_or(&c.smbios1, "Default (disabled)"));
    push_line(&mut v, "Spice Enhancements", value_or(&c.spice_enhancements, "No enhancements"));
    push_line(&mut v, "VM State Storage", value_or(&c.vmstatestorage, "1 (autogenerated)"));
    assert(lines_view(v@) =~= qemu_lines(*c, vmid));
    v
}

/// The hardware summary of a VM: memory, processor and BIOS, with their
/// icons ("-" and "Default (SeaBIOS)" where unset).
pub fn qemu_hardware_summary(c: &QemuConfig) -> (r: Vec<(&'static str, String, &'static str)>)
    ensures
        r@.len() == 3,
        r@[0].0@ == "memory"@ && r@[0].1@ == or_default(c.memory, "-"@) && r@[0].2@ == "Memory"@,
        r@[1].0@ == "cpu"@ && r@[1].1@ == or_default(c.cpu, "-"@) && r@[1].2@ == "Processor"@,
        r@[2].0@ == "microchip"@ && r@[2].1@ == or_default(c.bios, "Default (SeaBIOS)"@) && r@[2].2@
            == "Bios"@,
{
    let mut v: Vec<(&'static str, String, &'static str)> = Vec::new();
    v.push(("memory", value_or(&c.memory, "-"), "Memory"));
    v.push(("cpu", value_or(&c.cpu, "-"), "Processor"));
    v.push(("microchip", value_or(&c.bios, "Default (SeaBIOS)"), "Bios"));
    v
}

/// Events of a guest option panel.
pub enum Msg<C> {
    Load,
    LoadResult(Result<C, String>),
    /// A switch changed flag `key` to the value.
    StoreBoolConfig(&'static str, bool),
    StoreResult(Result<(), String>),
}

/// What a guest option panel asks for after an event.
pub enum ConfigAction {
    Idle,
    /// GET this configuration URL and deliver it as `LoadResult`.
    Fetch(String),
    /// Fill the form from the loaded configuration and send `Load` after
    /// the reload interval.
    LoadFormAndReload,
    /// Send `Load` after the reload interval.
    ScheduleReload,
    /// Send `{key: value}` to this URL (PUT for containers, POST for VMs)
    /// and deliver the outcome as `StoreResult`.
    Store { url: String, key: &'static str, value: bool },
    /// Reload now where a reload is pending, and report the error where
    /// there is one.
    StoreDone { error: Option<String>, reload: bool },
}

/// Properties of an option panel: the guest and its node.
pub struct GuestConfigPanel {
    pub vmid: u32,
    pub node: String,
}

impl GuestConfigPanel {
    /// The option panel of guest `vmid` on `node`.
    pub fn new(node: String, vmid: u32) -> (p: Self)
        ensures
            p.node@ == node@,
            p.vmid == vmid,
    {
        GuestConfigPanel { vmid, node }
    }
}

/// State of the container option panel.
pub struct PveLxcConfigPanel {
    pub data: Option<Result<LxcConfig, String>>,
    pub reload_pending: bool,
}

impl PveLxcConfigPanel {
    /// Nothing loaded; the panel then loads.
    pub fn create() -> (p: Self)
        ensures
            p.data is None,
            !p.reload_pending,
    {
        PveLxcConfigPanel { data: None, reload_pending: false }
    }

    /// Loads `/nodes/{node}/lxc/{vmid}/config`, fills the form and reloads
    /// after each answer; a switched flag is stored with PUT to the same
    /// URL.
    pub fn update(&mut self, props: &GuestConfigPanel, msg: Msg<LxcConfig>) -> (a: ConfigAction)
        ensures
            match msg {
                Msg::Load => a matches ConfigAction::Fetch(u) && u@ == lxc_path(props.node@, props.vmid as u64) + "/config"@
                    && !final(self).reload_pending && final(self).data == old(self).data,
                Msg::LoadResult(r) => (if r is Ok { a is LoadFormAndReload } else { a is ScheduleReload })
                    && final(self).data == Some(r) && final(self).reload_pending,
                Msg::StoreBoolConfig(k, b) => a matches ConfigAction::Store { url, key, value } && url@
                    == lxc_path(props.node@, props.vmid as u64) + "/config"@ && key == k && value == b
                    && final(self).data == old(self).data && final(self).reload_pending == old(self).reload_pending,
                Msg::StoreResult(r) => a matches ConfigAction::StoreDone { error, reload } && reload
                    == old(self).reload_pending && error == match r {
                    Ok(()) => None,
                    Err(e) => Some(e),
                } && final(self).data == old(self).data && final(self).reload_pending == old(self).reload_pending,
            },
    {
        match msg {
            Msg::Load => {
                self.reload_pending = false;
                ConfigAction::Fetch(lxc_config_url(props.node.as_str(), props.vmid as u64))
            },
            Msg::LoadResult(r) => {
                let ok = r.is_ok();
                self.data = Some(r);
                self.reload_pending = true;
                if ok {
                    ConfigAction::LoadFormAndReload
                } else {
                    ConfigAction::ScheduleReload
                }
            },
            Msg::StoreBoolConfig(key, value) => ConfigAction::Store {
                url: lxc_config_url(props.node.as_str(), props.vmid as u64),
                key,
                value,
            },
            Msg::StoreResult(r) => {
                let error = match r {
                    Ok(()) => None,
                    Err(e) => Some(e),
                };
                ConfigAction::StoreDone { error, reload: self.reload_pending }
            },
        }
    }
}

/// State of the VM option panel.
pub struct PveVmConfigPanel {
    pub data: Result<QemuConfig, String>,
    pub reload_pending: bool,
}

/// The VM whose configuration a switched flag is stored to: always VM 10
/// on the panel's node, whatever VM the panel shows.
pub const STORE_TARGET_VMID: u64 = 10;

impl PveVmConfigPanel {
    /// Nothing loaded ("no data loaded"); the panel then loads.
    pub fn create() -> (p: Self)
        ensures
            p.data matches Err(e) && e@ == "no data loaded"@,
            !p.reload_pending,
    {
        PveVmConfigPanel { data: Err(String::from_str("no data loaded")), reload_pending: false }
    }

    /// Loads `/nodes/{node}/qemu/{vmid}/config`, fills the form and reloads
    /// after each answer; a switched flag is stored with POST to the
    /// configuration of VM 10; a failed store is reported as "Update
    /// failed: {error}".
    pub fn update(&mut self, props: &GuestConfigPanel, msg: Msg<QemuConfig>) -> (a: ConfigAction)
        ensures
            match msg {
                Msg::Load => a matches ConfigAction::Fetch(u) && u@ == qemu_path(props.node@, props.vmid as u64) + "/config"@
                    && !final(self).reload_pending && final(self).data == old(self).data,
                Msg::LoadResult(r) => (if r is Ok { a is LoadFormAndReload } else { a is ScheduleReload })
                    && final(self).data == r && final(self).reload_pending,
                Msg::StoreBoolConfig(k, b) => a matches ConfigAction::Store { url, key, value } && url@
                    == qemu_path(props.node@, STORE_TARGET_VMID) + "/config"@ && key == k && value == b
                    && final(self).data == old(self).data && final(self).reload_pending == old(self).reload_pending,
                Msg::StoreResult(r) => a matches ConfigAction::StoreDone { error, reload } && reload
                    == old(self).reload_pending && match r {
                    Ok(()) => error is None,
                    Err(e) => error matches Some(m) && m@ == "Update failed: "@ + e@,
                } && final(self).data == old(self).data && final(self).reload_pending == old(self).reload_pending,
            },
    {
        match msg {
            Msg::Load => {
                self.reload_pending = false;
                ConfigAction::Fetch(qemu_config_url(props.node.as_str(), props.vmid as u64))
            },
            Msg::LoadResult(r) => {
                let ok = r.is_ok();
                self.data = r;
                self.reload_pending = true;
                if ok {
                    ConfigAction::LoadFormAndReload
                } else {
                    ConfigAction::ScheduleReload
                }
            },
            Msg::StoreBoolConfig(key, value) => ConfigAction::Store {
                url: qemu_config_url(props.node.as_str(), STORE_TARGET_VMID),
                key,
                value,
            },
            Msg::StoreResult(r) => {
                let error = match r {
                    Ok(()) => None,
                    Err(e) => {
                        let mut m = String::from_str("Update failed: ");
                        m.append(e.as_str());
                        Some(m)
                    },
                };
                ConfigAction::StoreDone { error, reload: self.reload_pending }
            },
        }
    }
}

/// A line of a container's resource cards: icon, value and title.
pub struct InfoLine {
    pub icon: &'static str,
    pub value: String,
    pub title: String,
}

/// The view of an info line.
pub open spec fn info_view(l: InfoLine) -> (Seq<char>, Seq<char>, Seq<char>) {
    (l.icon@, l.value@, l.title@)
}

/// The views of info lines.
pub open spec fn infos_view(v: Seq<InfoLine>) -> Seq<(Seq<char>, Seq<char>, Seq<char>)> {
    v.map_values(|l: InfoLine| info_view(l))
}

fn push_info(v: &mut Vec<InfoLine>, icon: &'static str, value: String, title: String)
    ensures
        infos_view(final(v)@) == infos_view(old(v)@).push((icon@, value@, title@)),
{
    v.push(InfoLine { icon, value, title });
    assert(infos_view(final(v)@) =~= infos_view(old(v)@).push((icon@, value@, title@)));
}

fn number_with_default(o: Option<u64>, d: u64) -> (r: String)
    ensures
        r@ == decimal(match o { Some(x) => x as nat, None => d as nat }),
{
    match o {
        Some(x) => u64_text(x),
        None => u64_text(d),
    }
}

/// The resource card of a container: memory (512 MB) and swap (0 MB),
/// cores (1) and root file system ("-").
pub open spec fn lxc_resource_lines(c: LxcConfig) -> Seq<(Seq<char>, Seq<char>, Seq<char>)> {
    seq![
        ("memory"@, decimal(match c.memory { Some(m) => m as nat, None => 512 }) + " MB"@, "Memory"@),
        ("retweet"@, decimal(match c.swap { Some(m) => m as nat, None => 0 }) + " MB"@, "Swap"@),
        ("cpu"@, decimal(match c.cores { Some(m) => m as nat, None => 1 }), "Cores"@),
        ("hdd-o"@, or_default(c.rootfs, "-"@), "Root Filesystem"@),
    ]
}

/// The lines of a container's resource card.
pub fn resource_info(c: &LxcConfig) -> (r: Vec<InfoLine>)
    ensures
        infos_view(r@) == lxc_resource_lines(*c),
{
    let mut v: Vec<InfoLine> = Vec::new();
    assert(infos_view(v@) =~= Seq::empty());
    let mut mem = number_with_default(c.memory, 512);
    mem.append(" MB");
    push_info(&mut v, "memory", mem, String::from_str("Memory"));
    let mut swap = number_with_default(c.swap, 0);
    swap.append(" MB");
    push_info(&mut v, "retweet", swap, String::from_str("Swap"));
    push_info(&mut v, "cpu", number_with_default(c.cores, 1), String::from_str("Cores"));
    push_info(&mut v, "hdd-o", value_or(&c.rootfs, "-"), String::from_str("Root Filesystem"));
    assert(infos_view(v@) =~= lxc_resource_lines(*c));
    v
}

/// The network card of a container: one line per device, titled
/// "Network Device (net{n})".
pub open spec fn lxc_network_lines(c: LxcConfig) -> Seq<(Seq<char>, Seq<char>, Seq<char>)> {
    c.net@.map_values(|e: (u32, String)| ("exchange"@, e.1@, "Network Device"@ + " (net"@ + decimal(e.0 as nat) + ")"@))
}

/// The lines of a container's network card.
pub fn network_info(c: &LxcConfig) -> (r: Vec<InfoLine>)
    ensures
        infos_view(r@) == lxc_network_lines(*c),
{
    let mut v: Vec<InfoLine> = Vec::new();
    let mut i: usize = 0;
    while i < c.net.len()
        invariant
            i <= c.net@.len(),
            infos_view(v@) == lxc_network_lines(*c).subrange(0, i as int),
        decreases c.net@.len() - i,
    {
        let (n, cfg) = &c.net[i];
        let mut title = String::from_str("Network Device");
        title.append(" (net");
        let idx = u64_text(*n as u64);
        title.append(idx.as_str());
        title.append(")");
        push_info(&mut v, "exchange", cfg.clone(), title);
        i = i + 1;
        assert(infos_view(v@) =~= lxc_network_lines(*c).subrange(0, i as int));
    }
    assert(lxc_network_lines(*c).subrange(0, i as int) =~= lxc_network_lines(*c));
    v
}

/// The DNS card of a container: domain and name server, "Use host
/// settings" where unset.
pub open spec fn lxc_dns_lines(c: LxcConfig) -> Seq<(Seq<char>, Seq<char>, Seq<char>)> {
    seq![
        ("globe"@, or_default(c.searchdomain, "Use host settings"@), "DNS Domain"@),
        ("search"@, or_default(c.nameserver, "Use host settings"@), "Nameserver"@),
    ]
}

/// The lines of a container's DNS card.
pub fn dns_info(c: &LxcConfig) -> (r: Vec<InfoLine>)
    ensures
        infos_view(r@) == lxc_dns_lines(*c),
{
    let mut v: Vec<InfoLine> = Vec::new();
    assert(infos_view(v@) =~= Seq::empty());
    push_info(&mut v, "globe", value_or(&c.searchdomain, "Use host settings"), String::from_str("DNS Domain"));
    push_info(&mut v, "search", value_or(&c.nameserver, "Use host settings"), String::from_str("Nameserver"));
    assert(infos_view(v@) =~= lxc_dns_lines(*c));
    v
}

/// Events of the container resources panel.
pub enum ResourcesMsg {
    Load,
    LoadResult(Result<LxcConfig, String>),
}

/// State of the container resources panel.
pub struct PveLxcResourcesPanel {
    pub data: Option<Result<LxcConfig, String>>,
}

impl PveLxcResourcesPanel {
    /// Nothing loaded; the panel then loads.
    pub fn create() -> (p: Self)
        ensures
            p.data is None,
    {
        PveLxcResourcesPanel { data: None }
    }

    /// New properties drop the data and load again.
    pub fn changed(&mut self, props: &GuestConfigPanel) -> (a: ConfigAction)
        ensures
            final(self).data is None,
            a matches ConfigAction::Fetch(u) && u@ == lxc_path(props.node@, props.vmid as u64) + "/config"@,
    {
        self.data = None;
        ConfigAction::Fetch(lxc_config_url(props.node.as_str(), props.vmid as u64))
    }

    /// Loads `/nodes/{node}/lxc/{vmid}/config` and reloads after each answer.
    pub fn update(&mut self, props: &GuestConfigPanel, msg: ResourcesMsg) -> (a: ConfigAction)
        ensures
            match msg {
                ResourcesMsg::Load => a matches ConfigAction::Fetch(u) && u@ == lxc_path(props.node@, props.vmid as u64) + "/config"@
                    && final(self).data == old(self).data,
                ResourcesMsg::LoadResult(r) => a is ScheduleReload && final(self).data == Some(r),
            },
    {
        match msg {
            ResourcesMsg::Load => ConfigAction::Fetch(lxc_config_url(props.node.as_str(), props.vmid as u64)),
            ResourcesMsg::LoadResult(r) => {
                self.data = Some(r);
                ConfigAction::ScheduleReload
            },
        }
    }
}

} // verus!
