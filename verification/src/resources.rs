//! Cluster resources: the type filter and text search of the resource page,
//! their order, and the tiles the page lists.

use vstd::prelude::*;
use crate::sort::{SortKey, stable_sort, stable_sorted, sorted_by_key};
use crate::text::{
    contains, lowercase_text, opt_text, same_text, text_contains, text_le, text_le_exec,
    lemma_text_lt_total, lemma_text_le_transitive, to_lowercase, u64_text, decimal,
};

verus! {

/// The kinds of resources a cluster reports.
#[derive(Clone, Copy, Debug, PartialEq, Eq, Structural)]
pub enum ClusterResourceType {
    Lxc,
    Node,
    Openvz,
    Pool,
    Qemu,
    Sdn,
    Storage,
}

/// One entry of the cluster resource index, with the fields this crate reads.
#[derive(Clone, Debug)]
pub struct ClusterResource {
    pub id: String,
    pub ty: ClusterResourceType,
    pub name: Option<String>,
    pub node: Option<String>,
    pub storage: Option<String>,
    pub vmid: Option<u32>,
    pub status: Option<String>,
    pub level: Option<String>,
    pub disk: Option<u64>,
    pub maxdisk: Option<u64>,
}

/// What the resource page shows: resource types (none selected means all)
/// and a search text.
#[derive(Clone, Debug, PartialEq)]
pub struct ResourceFilter {
    pub name: String,
    pub storage: bool,
    pub qemu: bool,
    pub lxc: bool,
    pub nodes: bool,
}

impl Default for ResourceFilter {
    fn default() -> (f: Self)
        ensures
            f.name@.len() == 0,
            !f.storage && !f.qemu && !f.lxc && !f.nodes,
    {
        ResourceFilter { name: String::new(), storage: false, qemu: false, lxc: false, nodes: false }
    }
}

/// A filter on one type: the presets that the dashboard cards open.
pub open spec fn only_type(f: ResourceFilter, ty: ClusterResourceType) -> bool {
    &&& f.storage == (ty == ClusterResourceType::Storage)
    &&& f.qemu == (ty == ClusterResourceType::Qemu)
    &&& f.lxc == (ty == ClusterResourceType::Lxc)
    &&& f.nodes == (ty == ClusterResourceType::Node)
}

/// The filter lets resources of type `ty` through.
pub open spec fn type_selected(f: ResourceFilter, ty: ClusterResourceType) -> bool {
    ||| f.storage && ty == ClusterResourceType::Storage
    ||| f.nodes && ty == ClusterResourceType::Node
    ||| f.qemu && ty == ClusterResourceType::Qemu
    ||| f.lxc && ty == ClusterResourceType::Lxc
    ||| !(f.storage || f.nodes || f.lxc || f.qemu)
}

/// The search text `name` finds the resource: it is empty, or occurs in the
/// lowercased id (`id_lower`), or occurs as written in the resource's name.
pub open spec fn name_found(item: ClusterResource, name: Seq<char>, id_lower: Seq<char>) -> bool {
    ||| name.len() == 0
    ||| text_contains(id_lower, name)
    ||| (item.name matches Some(n) && text_contains(n@, name))
}

/// The resource passes the filter's types and the search text `name`.
pub open spec fn resource_matches(item: ClusterResource, f: ResourceFilter, name: Seq<char>) -> bool {
    type_selected(f, item.ty) && name_found(item, name, lowercase_text(item.id@))
}

/// The filter test, given the lowercased id of the item.
pub fn filter_match_lowered(item: &ClusterResource, filter: &ResourceFilter, id_lower: &str) -> (r:
    bool)
    ensures
        r == (type_selected(*filter, item.ty) && name_found(*item, filter.name@, id_lower@)),
{
    let mut selected = false;
    if filter.storage && item.ty == ClusterResourceType::Storage {
        selected = true;
    }
    if filter.nodes && item.ty == ClusterResourceType::Node {
        selected = true;
    }
    if filter.qemu && item.ty == ClusterResourceType::Qemu {
        selected = true;
    }
    if filter.lxc && item.ty == ClusterResourceType::Lxc {
        selected = true;
    }
    if !(filter.storage || filter.nodes || filter.lxc || filter.qemu) {
        selected = true;
    }
    if !selected {
        return false;
    }
    if filter.name.as_str().unicode_len() > 0 {
        if contains(id_lower, filter.name.as_str()) {
            return true;
        }
        match &item.name {
            Some(name) => {
                if contains(name.as_str(), filter.name.as_str()) {
                    return true;
                }
            },
            None => {},
        }
        false
    } else {
        true
    }
}

/// Whether `item` passes `filter`; the search text is compared with the
/// lowercased id and with the name as written.
pub fn filter_match(item: &ClusterResource, filter: &ResourceFilter) -> (r: bool)
    ensures
        r == resource_matches(*item, *filter, filter.name@),
{
    let id_lower = to_lowercase(item.id.as_str());
    filter_match_lowered(item, filter, id_lower.as_str())
}

/// An empty filter lets every resource through.
pub proof fn lemma_default_filter_matches_all(item: ClusterResource, f: ResourceFilter)
    requires
        f.name@.len() == 0,
        !f.storage && !f.qemu && !f.lxc && !f.nodes,
    ensures
        resource_matches(item, f, f.name@),
{
}

/// A filter on one type with no search text lets exactly the resources of
/// that type through.
pub proof fn lemma_type_preset_selects_type(
    item: ClusterResource,
    f: ResourceFilter,
    ty: ClusterResourceType,
)
    requires
        only_type(f, ty),
        f.name@.len() == 0,
        ty == ClusterResourceType::Storage || ty == ClusterResourceType::Qemu || ty
            == ClusterResourceType::Lxc || ty == ClusterResourceType::Node,
    ensures
        resource_matches(item, f, f.name@) <==> item.ty == ty,
{
}

/// A search text only narrows what the type selection lets through.
pub proof fn lemma_search_narrows(item: ClusterResource, f: ResourceFilter, name: Seq<char>)
    ensures
        resource_matches(item, f, name) ==> resource_matches(item, f, Seq::empty()),
{
}

/// The position of a type in the resource list.
pub open spec fn type_rank(ty: ClusterResourceType) -> nat {
    match ty {
        ClusterResourceType::Lxc => 1,
        ClusterResourceType::Openvz => 1,
        ClusterResourceType::Qemu => 2,
        ClusterResourceType::Storage => 3,
        ClusterResourceType::Node => 4,
        ClusterResourceType::Pool => 5,
        ClusterResourceType::Sdn => 6,
    }
}

/// Containers first, then virtual machines, storages, nodes, pools and SDN
/// zones.
pub fn type_ordering(ty: ClusterResourceType) -> (r: usize)
    ensures
        r == type_rank(ty),
{
    match ty {
        ClusterResourceType::Lxc => 1,
        ClusterResourceType::Openvz => 1,
        ClusterResourceType::Qemu => 2,
        ClusterResourceType::Storage => 3,
        ClusterResourceType::Node => 4,
        ClusterResourceType::Pool => 5,
        ClusterResourceType::Sdn => 6,
    }
}

/// Resources are listed by type rank, then by id.
pub open spec fn resource_le(a: ClusterResource, b: ClusterResource) -> bool {
    ||| type_rank(a.ty) < type_rank(b.ty)
    ||| (type_rank(a.ty) == type_rank(b.ty) && text_le(a.id@, b.id@))
}

impl SortKey for ClusterResource {
    open spec fn key_le(self, other: Self) -> bool {
        resource_le(self, other)
    }

    proof fn lemma_key_total(a: Self, b: Self) {
        lemma_text_lt_total(a.id@, b.id@);
    }

    proof fn lemma_key_transitive(a: Self, b: Self, c: Self) {
        if type_rank(a.ty) == type_rank(b.ty) && type_rank(b.ty) == type_rank(c.ty) {
            lemma_text_le_transitive(a.id@, b.id@, c.id@);
        }
    }

    fn precedes(&self, other: &Self) -> (r: bool) {
        let a = type_ordering(self.ty);
        let b = type_ordering(other.ty);
        if a != b {
            a < b
        } else {
            text_le_exec(self.id.as_str(), other.id.as_str())
        }
    }
}

/// Orders resources as the page lists them: by type rank, then id; the
/// sort is stable.
pub fn sort_resources(data: &mut Vec<ClusterResource>)
    ensures
        final(data)@ == stable_sorted(old(data)@),
        sorted_by_key(final(data)@),
        final(data)@.to_multiset() == old(data)@.to_multiset(),
{
    stable_sort(data);
}

/// Where a tile of the resource list leads.
#[derive(Clone, Debug)]
pub enum ResourceRoute {
    Node { nodename: String },
    Qemu { vmid: u32, nodename: String },
    Lxc { vmid: u32, nodename: String },
    Storage { name: String },
}

/// One entry of the resource list.
#[derive(Clone, Debug)]
pub struct ResourceTile {
    /// Font Awesome icon name.
    pub icon: String,
    /// The icon is drawn in the primary colour (the resource is up).
    pub highlighted: bool,
    pub title: String,
    pub subtitle: Option<String>,
    pub status: Option<String>,
    /// Used and total bytes, for a storage that reports both.
    pub usage: Option<(u64, u64)>,
    pub route: ResourceRoute,
}

/// The resource's status equals `s`.
pub open spec fn status_is(item: ClusterResource, s: Seq<char>) -> bool {
    item.status matches Some(st) && st@ == s
}

/// The types that the resource list shows a tile for.
pub open spec fn has_tile(ty: ClusterResourceType) -> bool {
    ty == ClusterResourceType::Qemu || ty == ClusterResourceType::Lxc || ty
        == ClusterResourceType::Storage || ty == ClusterResourceType::Node
}

/// The fields a tile of this resource needs are present.
pub open spec fn tile_fields_present(item: ClusterResource) -> bool {
    match item.ty {
        ClusterResourceType::Node => item.node is Some,
        ClusterResourceType::Qemu | ClusterResourceType::Lxc => item.node is Some
            && item.vmid is Some,
        ClusterResourceType::Storage => item.storage is Some,
        _ => true,
    }
}

/// The subscription line of a node: its level, or "no subscription" where
/// none (or an empty one) is reported.
pub open spec fn node_subtitle(item: ClusterResource) -> Seq<char> {
    match item.level {
        Some(l) => if l@.len() > 0 {
            l@
        } else {
            "no subscription"@
        },
        None => "no subscription"@,
    }
}

/// Title of a guest tile: "{vmid} {name}", the name empty where none.
pub open spec fn guest_title(item: ClusterResource) -> Seq<char> {
    decimal(item.vmid->0 as nat) + " "@ + match item.name {
        Some(n) => n@,
        None => Seq::empty(),
    }
}

/// `t` is the tile the list shows for `item`.
pub open spec fn tile_shows(t: ResourceTile, item: ClusterResource) -> bool {
    &&& opt_text(t.status) == opt_text(item.status)
    &&& match item.ty {
        ClusterResourceType::Node => {
            &&& t.icon@ == "server"@
            &&& t.highlighted == status_is(item, "online"@)
            &&& t.title@ == item.node->0@
            &&& opt_text(t.subtitle) == Some(node_subtitle(item))
            &&& t.usage is None
            &&& t.route matches ResourceRoute::Node { nodename } && nodename@ == item.node->0@
        },
        ClusterResourceType::Qemu => {
            &&& t.icon@ == "desktop"@
            &&& t.highlighted == status_is(item, "running"@)
            &&& t.title@ == guest_title(item)
            &&& opt_text(t.subtitle) == opt_text(item.node)
            &&& t.usage is None
            &&& t.route matches ResourceRoute::Qemu { vmid, nodename } && vmid == item.vmid->0
                && nodename@ == item.node->0@
        },
        ClusterResourceType::Lxc => {
            &&& t.icon@ == "cube"@
            &&& t.highlighted == status_is(item, "running"@)
            &&& t.title@ == guest_title(item)
            &&& opt_text(t.subtitle) == opt_text(item.node)
            &&& t.usage is None
            &&& t.route matches ResourceRoute::Lxc { vmid, nodename } && vmid == item.vmid->0
                && nodename@ == item.node->0@
        },
        _ => {
            &&& t.icon@ == "database"@
            &&& t.highlighted == status_is(item, "available"@)
            &&& t.title@ == item.storage->0@ + " "@ + item.storage->0@
            &&& opt_text(t.subtitle) == opt_text(item.node)
            &&& t.usage == (if item.disk is Some && item.maxdisk is Some {
                Some((item.disk->0, item.maxdisk->0))
            } else {
                None
            })
            &&& t.route matches ResourceRoute::Storage { name } && name@ == item.storage->0@
        },
    }
}

fn clone_text(s: &String) -> (r: String)
    ensures
        r@ == s@,
{
    s.clone()
}

fn clone_opt_text(o: &Option<String>) -> (r: Option<String>)
    ensures
        opt_text(r) == opt_text(*o),
{
    match o {
        Some(s) => Some(s.clone()),
        None => None,
    }
}

fn status_equals(item: &ClusterResource, s: &str) -> (r: bool)
    ensures
        r == status_is(*item, s@),
{
    match &item.status {
        Some(st) => same_text(st.as_str(), s),
        None => false,
    }
}

fn guest_tile_title(item: &ClusterResource) -> (r: String)
    requires
        item.vmid is Some,
    ensures
        r@ == guest_title(*item),
{
    let vmid = match item.vmid {
        Some(v) => v,
        None => 0,
    };
    let mut title = u64_text(vmid as u64);
    title.append(" ");
    match &item.name {
        Some(n) => title.append(n.as_str()),
        None => {},
    }
    proof {
        reveal_strlit(" ");
    }
    assert(title@ =~= guest_title(*item));
    title
}

/// The tile of a node, guest or storage resource.
pub fn resource_tile(item: &ClusterResource) -> (t: ResourceTile)
    requires
        has_tile(item.ty),
        tile_fields_present(*item),
    ensures
        tile_shows(t, *item),
{
    let status = clone_opt_text(&item.status);
    match item.ty {
        ClusterResourceType::Node => {
            let nodename = match &item.node {
                Some(n) => clone_text(n),
                None => String::new(),
            };
            let subtitle = match &item.level {
                Some(l) => if l.as_str().unicode_len() > 0 {
                    clone_text(l)
                } else {
                    String::from_str("no subscription")
                },
                None => String::from_str("no subscription"),
            };
            ResourceTile {
                icon: String::from_str("server"),
                highlighted: status_equals(item, "online"),
                title: clone_text(&nodename),
                subtitle: Some(subtitle),
                status,
                usage: None,
                route: ResourceRoute::Node { nodename },
            }
        },
        ClusterResourceType::Qemu | ClusterResourceType::Lxc => {
            let vmid = match item.vmid {
                Some(v) => v,
                None => 0,
            };
            let nodename = match &item.node {
                Some(n) => clone_text(n),
                None => String::new(),
            };
            let is_qemu = item.ty == ClusterResourceType::Qemu;
            ResourceTile {
                icon: if is_qemu {
                    String::from_str("desktop")
                } else {
                    String::from_str("cube")
                },
                highlighted: status_equals(item, "running"),
                title: guest_tile_title(item),
                subtitle: clone_opt_text(&item.node),
                status,
                usage: None,
                route: if is_qemu {
                    ResourceRoute::Qemu { vmid, nodename }
                } else {
                    ResourceRoute::Lxc { vmid, nodename }
                },
            }
        },
        _ => {
            let name = match &item.storage {
                Some(s) => clone_text(s),
                None => String::new(),
            };
            let mut title = clone_text(&name);
            title.append(" ");
            title.append(name.as_str());
            proof {
                reveal_strlit(" ");
            }
            let usage = match (item.disk, item.maxdisk) {
                (Some(d), Some(m)) => Some((d, m)),
                _ => None,
            };
            ResourceTile {
                icon: String::from_str("database"),
                highlighted: status_equals(item, "available"),
                title,
                subtitle: clone_opt_text(&item.node),
                status,
                usage,
                route: ResourceRoute::Storage { name },
            }
        },
    }
}

/// The resources of `data` that get a tile under filter `f` and the search
/// text `name`, in their order.
pub open spec fn listed_resources(data: Seq<ClusterResource>, f: ResourceFilter, name: Seq<char>) -> Seq<
    ClusterResource,
>
    decreases data.len(),
{
    if data.len() == 0 {
        Seq::empty()
    } else {
        let rest = listed_resources(data.drop_last(), f, name);
        let item = data.last();
        if resource_matches(item, f, name) && has_tile(item.ty) {
            rest.push(item)
        } else {
            rest
        }
    }
}

proof fn lemma_listed_from_data(data: Seq<ClusterResource>, f: ResourceFilter, name: Seq<char>, k: int)
    requires
        0 <= k < listed_resources(data, f, name).len(),
    ensures
        exists|j: int| 0 <= j < data.len() && data[j] == listed_resources(data, f, name)[k],
    decreases data.len(),
{
    let pre = data.drop_last();
    let rest = listed_resources(pre, f, name);
    if k < rest.len() {
        lemma_listed_from_data(pre, f, name, k);
        let j = choose|j: int| 0 <= j < pre.len() && pre[j] == rest[k];
        assert(data[j] == pre[j]);
    } else {
        assert(data[data.len() - 1] == listed_resources(data, f, name)[k]);
    }
}

/// The list keeps the order of sorted data: listed resources come by type
/// rank, then by id.
pub proof fn lemma_listed_in_order(data: Seq<ClusterResource>, f: ResourceFilter, name: Seq<char>)
    requires
        sorted_by_key(data),
    ensures
        sorted_by_key(listed_resources(data, f, name)),
    decreases data.len(),
{
    if data.len() > 0 {
        let pre = data.drop_last();
        assert forall|i: int, j: int| 0 <= i < j < pre.len() implies #[trigger] pre[i].key_le(
            #[trigger] pre[j],
        ) by {
            assert(data[i].key_le(data[j]));
        }
        lemma_listed_in_order(pre, f, name);
        let rest = listed_resources(pre, f, name);
        let l = listed_resources(data, f, name);
        assert forall|i: int, j: int| 0 <= i < j < l.len() implies #[trigger] l[i].key_le(
            #[trigger] l[j],
        ) by {
            if j >= rest.len() {
                lemma_listed_from_data(pre, f, name, i);
                let a = choose|a: int| 0 <= a < pre.len() && pre[a] == rest[i];
                assert(data[a].key_le(data[data.len() - 1]));
            } else {
                assert(rest[i].key_le(rest[j]));
            }
        }
    }
}

/// Every listed resource has what its tile needs.
pub open spec fn tiles_complete(data: Seq<ClusterResource>) -> bool {
    forall|i: int| 0 <= i < data.len() && has_tile(#[trigger] data[i].ty) ==> tile_fields_present(
        data[i],
    )
}

proof fn lemma_listed_prefix(data: Seq<ClusterResource>, f: ResourceFilter, name: Seq<char>, i: int)
    requires
        0 <= i < data.len(),
    ensures
        listed_resources(data.subrange(0, i + 1), f, name) == (if resource_matches(data[i], f, name)
            && has_tile(data[i].ty) {
            listed_resources(data.subrange(0, i), f, name).push(data[i])
        } else {
            listed_resources(data.subrange(0, i), f, name)
        }),
{
    assert(data.subrange(0, i + 1).drop_last() =~= data.subrange(0, i));
}

/// The tiles of the resource list: the matching nodes, guests and
/// storages, in order; the search text is lowercased first.
pub fn resource_tiles(data: &Vec<ClusterResource>, filter: &ResourceFilter) -> (tiles: Vec<
    ResourceTile,
>)
    requires
        tiles_complete(data@),
    ensures
        tiles@.len() == listed_resources(data@, *filter, lowercase_text(filter.name@)).len(),
        forall|k: int|
            0 <= k < tiles@.len() ==> tile_shows(
                #[trigger] tiles@[k],
                listed_resources(data@, *filter, lowercase_text(filter.name@))[k],
            ),
{
    let lowered = ResourceFilter {
        name: to_lowercase(filter.name.as_str()),
        storage: filter.storage,
        qemu: filter.qemu,
        lxc: filter.lxc,
        nodes: filter.nodes,
    };
    let ghost name = lowercase_text(filter.name@);
    let mut tiles: Vec<ResourceTile> = Vec::new();
    let mut i: usize = 0;
    while i < data.len()
        invariant
            i <= data@.len(),
            tiles_complete(data@),
            lowered.name@ == name,
            lowered.storage == filter.storage && lowered.qemu == filter.qemu && lowered.lxc
                == filter.lxc && lowered.nodes == filter.nodes,
            tiles@.len() == listed_resources(data@.subrange(0, i as int), *filter, name).len(),
            forall|k: int|
                0 <= k < tiles@.len() ==> tile_shows(
                    #[trigger] tiles@[k],
                    listed_resources(data@.subrange(0, i as int), *filter, name)[k],
                ),
        decreases data@.len() - i,
    {
        let item = &data[i];
        proof {
            lemma_listed_prefix(data@, *filter, name, i as int);
        }
        let keep = filter_match(item, &lowered);
        let shown = item.ty == ClusterResourceType::Qemu || item.ty == ClusterResourceType::Lxc
            || item.ty == ClusterResourceType::Storage || item.ty == ClusterResourceType::Node;
        assert(keep == resource_matches(*item, *filter, name));
        if keep && shown {
            let t = resource_tile(item);
            tiles.push(t);
        }
        i = i + 1;
    }
    assert(data@.subrange(0, data@.len() as int) =~= data@);
    tiles
}

/// Checks what `resource_tiles` needs of the data.
pub fn check_tile_fields(data: &Vec<ClusterResource>) -> (r: bool)
    ensures
        r == tiles_complete(data@),
{
    let mut i: usize = 0;
    while i < data.len()
        invariant
            i <= data@.len(),
            forall|j: int| 0 <= j < i && has_tile(#[trigger] data@[j].ty) ==> tile_fields_present(data@[j]),
        decreases data@.len() - i,
    {
        let item = &data[i];
        let ok = match item.ty {
            ClusterResourceType::Node => item.node.is_some(),
            ClusterResourceType::Qemu | ClusterResourceType::Lxc => item.node.is_some()
                && item.vmid.is_some(),
            ClusterResourceType::Storage => item.storage.is_some(),
            _ => true,
        };
        if !ok {
            return false;
        }
        i = i + 1;
    }
    true
}

/// Properties of the resource page: the filter it opens with.
pub struct PageResources {
    pub default_filter: ResourceFilter,
}

/// A copy of a filter.
pub fn clone_filter(f: &ResourceFilter) -> (r: ResourceFilter)
    ensures
        r.name@ == f.name@,
        r.storage == f.storage && r.qemu == f.qemu && r.lxc == f.lxc && r.nodes == f.nodes,
{
    ResourceFilter {
        name: clone_text(&f.name),
        storage: f.storage,
        qemu: f.qemu,
        lxc: f.lxc,
        nodes: f.nodes,
    }
}

/// Two filters select the same resources with the same search text.
pub open spec fn same_filter(a: ResourceFilter, b: ResourceFilter) -> bool {
    a.name@ == b.name@ && a.storage == b.storage && a.qemu == b.qemu && a.lxc == b.lxc && a.nodes
        == b.nodes
}

impl PageResources {
    /// The page with the empty filter.
    pub fn new() -> (p: Self)
        ensures
            p.default_filter.name@.len() == 0,
            !p.default_filter.storage && !p.default_filter.qemu && !p.default_filter.lxc
                && !p.default_filter.nodes,
    {
        PageResources { default_filter: ResourceFilter::default() }
    }

    /// The page opened with `filter`.
    pub fn new_with_filter(filter: ResourceFilter) -> (p: Self)
        ensures
            p.default_filter == filter,
    {
        PageResources { default_filter: filter }
    }
}

/// Milliseconds after a load result until the resources are loaded again.
pub const RELOAD_INTERVAL_MS: u32 = 3000;

/// Events of the resource page.
pub enum Msg {
    Load,
    LoadResult(Result<Vec<ClusterResource>, String>),
    SetTextFilter(String),
    ClearTextFilter,
    ShowFilterDialog,
    CloseFilterDialog,
    FilterLxc(bool),
    FilterQemu(bool),
    FilterStorage(bool),
    FilterNodes(bool),
}

/// What the page asks of its surroundings after an event.
#[derive(Clone, Copy, Debug, PartialEq, Eq, Structural)]
pub enum ResourcesAction {
    Idle,
    /// Request `/cluster/resources` and deliver the answer as `LoadResult`.
    Fetch,
    /// Send `Load` after `RELOAD_INTERVAL_MS`.
    ScheduleReload,
}

/// State of the resource page.
pub struct PvePageResources {
    pub data: Result<Vec<ClusterResource>, String>,
    pub filter: ResourceFilter,
    pub show_filter_dialog: bool,
}

/// What the page lists.
pub enum ResourcesContent {
    /// The last load failed with this message.
    Error(String),
    /// Nothing passes the filter ("List is empty.").
    Empty,
    Tiles(Vec<ResourceTile>),
}

/// The view of the loaded data.
pub open spec fn data_view(d: Result<Vec<ClusterResource>, String>) -> Result<Seq<ClusterResource>, Seq<char>> {
    match d {
        Ok(v) => Ok(v@),
        Err(e) => Err(e@),
    }
}

impl PvePageResources {
    /// The page as it opens: with the filter from the location state where
    /// there is one, else the default filter; nothing loaded yet. The page
    /// then loads.
    pub fn create(props: &PageResources, location_state: Option<ResourceFilter>) -> (r: (Self, ResourcesAction))
        ensures
            same_filter(r.0.filter, match location_state {
                Some(f) => f,
                None => props.default_filter,
            }),
            data_view(r.0.data) == Err::<Seq<ClusterResource>, Seq<char>>("no data loaded"@),
            !r.0.show_filter_dialog,
            r.1 == ResourcesAction::Fetch,
    {
        let filter = match location_state {
            Some(f) => f,
            None => clone_filter(&props.default_filter),
        };
        (
            PvePageResources {
                data: Err(String::from_str("no data loaded")),
                filter,
                show_filter_dialog: false,
            },
            ResourcesAction::Fetch,
        )
    }

    /// Handles one event. A load result is stored sorted (errors as their
    /// message) and schedules the next load; the filter events change the
    /// filter; `Load` asks for the data.
    pub fn update(&mut self, msg: Msg) -> (action: ResourcesAction)
        ensures
            match msg {
                Msg::Load => {
                    &&& action == ResourcesAction::Fetch
                    &&& data_view(final(self).data) == data_view(old(self).data)
                    &&& same_filter(final(self).filter, old(self).filter)
                    &&& final(self).show_filter_dialog == old(self).show_filter_dialog
                },
                Msg::LoadResult(res) => {
                    &&& action == ResourcesAction::ScheduleReload
                    &&& data_view(final(self).data) == match res {
                        Ok(v) => Ok(stable_sorted(v@)),
                        Err(e) => Err::<Seq<ClusterResource>, Seq<char>>(e@),
                    }
                    &&& same_filter(final(self).filter, old(self).filter)
                    &&& final(self).show_filter_dialog == old(self).show_filter_dialog
                },
                _ => {
                    &&& action == ResourcesAction::Idle
                    &&& data_view(final(self).data) == data_view(old(self).data)
                    &&& final(self).show_filter_dialog == match msg {
                        Msg::ShowFilterDialog => true,
                        Msg::CloseFilterDialog => false,
                        _ => old(self).show_filter_dialog,
                    }
                    &&& final(self).filter.name@ == match msg {
                        Msg::SetTextFilter(t) => t@,
                        Msg::ClearTextFilter => Seq::empty(),
                        _ => old(self).filter.name@,
                    }
                    &&& final(self).filter.lxc == match msg {
                        Msg::FilterLxc(b) => b,
                        _ => old(self).filter.lxc,
                    }
                    &&& final(self).filter.qemu == match msg {
                        Msg::FilterQemu(b) => b,
                        _ => old(self).filter.qemu,
                    }
                    &&& final(self).filter.storage == match msg {
                        Msg::FilterStorage(b) => b,
                        _ => old(self).filter.storage,
                    }
                    &&& final(self).filter.nodes == match msg {
                        Msg::FilterNodes(b) => b,
                        _ => old(self).filter.nodes,
                    }
                },
            },
    {
        match msg {
            Msg::Load => ResourcesAction::Fetch,
            Msg::LoadResult(res) => {
                match res {
                    Ok(mut v) => {
                        sort_resources(&mut v);
                        self.data = Ok(v);
                    },
                    Err(e) => {
                        self.data = Err(e);
                    },
                }
                ResourcesAction::ScheduleReload
            },
            Msg::SetTextFilter(text) => {
                self.filter.name = text;
                ResourcesAction::Idle
            },
            Msg::ClearTextFilter => {
                self.filter.name = String::new();
                ResourcesAction::Idle
            },
            Msg::ShowFilterDialog => {
                self.show_filter_dialog = true;
                ResourcesAction::Idle
            },
            Msg::CloseFilterDialog => {
                self.show_filter_dialog = false;
                ResourcesAction::Idle
            },
            Msg::FilterLxc(value) => {
                self.filter.lxc = value;
                ResourcesAction::Idle
            },
            Msg::FilterQemu(value) => {
                self.filter.qemu = value;
                ResourcesAction::Idle
            },
            Msg::FilterStorage(value) => {
                self.filter.storage = value;
                ResourcesAction::Idle
            },
            Msg::FilterNodes(value) => {
                self.filter.nodes = value;
                ResourcesAction::Idle
            },
        }
    }

    /// What the page lists: the error of the last load, "List is empty.",
    /// or the tiles of the resources that pass the filter.
    pub fn content(&self) -> (c: ResourcesContent)
        requires
            self.data matches Ok(v) ==> tiles_complete(v@),
        ensures
            match self.data {
                Err(e) => c matches ResourcesContent::Error(m) && m@ == e@,
                Ok(v) => {
                    let listed = listed_resources(v@, self.filter, lowercase_text(self.filter.name@));
                    if listed.len() == 0 {
                        c is Empty
                    } else {
                        c matches ResourcesContent::Tiles(t) && t@.len() == listed.len()
                            && forall|k: int| 0 <= k < t@.len() ==> tile_shows(#[trigger] t@[k], listed[k])
                    }
                },
            },
    {
        match &self.data {
            Err(e) => ResourcesContent::Error(clone_text(e)),
            Ok(v) => {
                let tiles = resource_tiles(v, &self.filter);
                if tiles.len() == 0 {
                    ResourcesContent::Empty
                } else {
                    ResourcesContent::Tiles(tiles)
                }
            },
        }
    }

    /// The clear button of the search field shows when there is text.
    pub fn shows_clear_button(&self) -> (r: bool)
        ensures
            r == (self.filter.name@.len() > 0),
    {
        self.filter.name.as_str().unicode_len() > 0
    }
}

} // verus!
