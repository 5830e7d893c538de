//! The dashboard: subscription check over the cluster's nodes, resource
//! counts and totals, the node list, and where its cards lead.

use vstd::prelude::*;
use crate::resources::{
    ClusterResource, ClusterResourceType, ResourceFilter, ResourceRoute, only_type,
    status_is,
};
use crate::text::{decimal, opt_text, same_text, u64_text};

verus! {

/// Status of a node in the node index.
#[derive(Clone, Copy, Debug, PartialEq, Eq, Structural)]
pub enum ClusterNodeIndexResponseStatus {
    Online,
    Offline,
    Unknown,
}

/// One entry of the node index, with the fields this crate reads.
#[derive(Clone, Debug)]
pub struct ClusterNodeIndexResponse {
    pub node: String,
    pub status: ClusterNodeIndexResponseStatus,
    pub level: Option<String>,
}

/// The subscription level a node reports; none counts as the empty level.
pub open spec fn node_level(n: ClusterNodeIndexResponse) -> Seq<char> {
    match n.level {
        Some(l) => l@,
        None => Seq::empty(),
    }
}

/// The node takes part in the subscription check (it is not offline).
pub open spec fn counts_for_subscription(n: ClusterNodeIndexResponse) -> bool {
    n.status != ClusterNodeIndexResponseStatus::Offline
}

/// Some node that is not offline has no subscription.
pub open spec fn some_node_unsubscribed(nodes: Seq<ClusterNodeIndexResponse>) -> bool {
    exists|i: int|
        0 <= i < nodes.len() && counts_for_subscription(#[trigger] nodes[i]) && node_level(
            nodes[i],
        ).len() == 0
}

/// Some node is not offline.
pub open spec fn some_node_counts(nodes: Seq<ClusterNodeIndexResponse>) -> bool {
    exists|i: int| 0 <= i < nodes.len() && counts_for_subscription(#[trigger] nodes[i])
}

/// Two nodes that are not offline report different levels.
pub open spec fn levels_differ(nodes: Seq<ClusterNodeIndexResponse>) -> bool {
    exists|i: int, j: int|
        0 <= i < nodes.len() && 0 <= j < nodes.len() && counts_for_subscription(#[trigger] nodes[i])
            && counts_for_subscription(#[trigger] nodes[j]) && node_level(nodes[i]) != node_level(
            nodes[j],
        )
}

/// The subscription problem of a cluster, `None` where there is none:
/// "notfound" (a single node) or "notall" where a node that is not offline
/// lacks a subscription or no node is online, else "notsame" where the
/// levels differ.
pub open spec fn subscription_status(nodes: Seq<ClusterNodeIndexResponse>) -> Option<Seq<char>> {
    if some_node_unsubscribed(nodes) || !some_node_counts(nodes) {
        if nodes.len() == 1 {
            Some("notfound"@)
        } else {
            Some("notall"@)
        }
    } else if levels_differ(nodes) {
        Some("notsame"@)
    } else {
        None
    }
}

fn level_text(n: &ClusterNodeIndexResponse) -> (r: &str)
    ensures
        r@ == node_level(*n),
{
    match &n.level {
        Some(l) => l.as_str(),
        None => {
            proof {
                reveal_strlit("");
            }
            ""
        },
    }
}

/// The subscription problem of the cluster, as the dashboard reports it.
pub fn subscription_error(nodes: &Vec<ClusterNodeIndexResponse>) -> (r: Option<String>)
    ensures
        opt_text(r) == subscription_status(nodes@),
{
    let mut first: Option<usize> = None;
    let mut mixed = false;
    let mut unsubscribed = false;
    let mut i: usize = 0;
    while i < nodes.len()
        invariant_except_break
            i <= nodes@.len(),
            !unsubscribed,
            forall|j: int|
                0 <= j < i && counts_for_subscription(#[trigger] nodes@[j]) ==> node_level(
                    nodes@[j],
                ).len() > 0,
            first is None <==> (forall|j: int|
                0 <= j < i ==> !counts_for_subscription(#[trigger] nodes@[j])),
            first is None ==> !mixed,
            first matches Some(f) ==> f < i && counts_for_subscription(nodes@[f as int]),
            first matches Some(f) ==> (mixed <==> exists|j: int|
                0 <= j < i && counts_for_subscription(#[trigger] nodes@[j]) && node_level(
                    nodes@[j],
                ) != node_level(nodes@[f as int])),
        ensures
            unsubscribed ==> some_node_unsubscribed(nodes@),
            !unsubscribed ==> {
                &&& forall|j: int|
                    0 <= j < nodes@.len() && counts_for_subscription(#[trigger] nodes@[j])
                        ==> node_level(nodes@[j]).len() > 0
                &&& first is None <==> (forall|j: int|
                    0 <= j < nodes@.len() ==> !counts_for_subscription(#[trigger] nodes@[j]))
                &&& first matches Some(f) ==> f < nodes@.len() && counts_for_subscription(
                    nodes@[f as int],
                )
                &&& first matches Some(f) ==> (mixed <==> exists|j: int|
                    0 <= j < nodes@.len() && counts_for_subscription(#[trigger] nodes@[j])
                        && node_level(nodes@[j]) != node_level(nodes@[f as int]))
            },
        decreases nodes@.len() - i,
    {
        let item = &nodes[i];
        if item.status != ClusterNodeIndexResponseStatus::Offline {
            let level = level_text(item);
            if level.unicode_len() == 0 {
                unsubscribed = true;
                assert(counts_for_subscription(nodes@[i as int]));
                break;
            }
            match first {
                None => {
                    first = Some(i);
                },
                Some(f) => {
                    if !same_text(level_text(&nodes[f]), level) {
                        mixed = true;
                        assert(node_level(nodes@[i as int]) != node_level(nodes@[f as int]));
                    }
                },
            }
        }
        i = i + 1;
    }
    let single_node = nodes.len() == 1;
    if unsubscribed || first.is_none() {
        if first.is_none() && !unsubscribed {
            assert(!some_node_counts(nodes@));
        }
        if single_node {
            Some(String::from_str("notfound"))
        } else {
            Some(String::from_str("notall"))
        }
    } else {
        let f = match first {
            Some(f) => f,
            None => 0,
        };
        assert(some_node_counts(nodes@));
        assert(!some_node_unsubscribed(nodes@));
        if mixed {
            assert(levels_differ(nodes@));
            Some(String::from_str("notsame"))
        } else {
            assert(!levels_differ(nodes@)) by {
                assert forall|a: int, b: int|
                    0 <= a < nodes@.len() && 0 <= b < nodes@.len() && counts_for_subscription(
                        #[trigger] nodes@[a],
                    ) && counts_for_subscription(#[trigger] nodes@[b]) implies node_level(nodes@[a])
                    == node_level(nodes@[b]) by {
                    assert(node_level(nodes@[a]) == node_level(nodes@[f as int]));
                    assert(node_level(nodes@[b]) == node_level(nodes@[f as int]));
                }
            }
            None
        }
    }
}

/// Nodes that are online and all report one non-empty level pass the
/// subscription check.
pub proof fn lemma_same_level_passes(nodes: Seq<ClusterNodeIndexResponse>, level: Seq<char>)
    requires
        level.len() > 0,
        forall|i: int| 0 <= i < nodes.len() ==> (#[trigger] nodes[i]).status
            == ClusterNodeIndexResponseStatus::Online,
        forall|i: int| 0 <= i < nodes.len() ==> node_level(#[trigger] nodes[i]) == level,
        nodes.len() > 0,
    ensures
        subscription_status(nodes) is None,
{
    assert(counts_for_subscription(nodes[0]));
}

/// Offline nodes do not change the outcome of the subscription check of a
/// cluster of several nodes.
pub proof fn lemma_offline_nodes_ignored(
    nodes: Seq<ClusterNodeIndexResponse>,
    extra: ClusterNodeIndexResponse,
)
    requires
        extra.status == ClusterNodeIndexResponseStatus::Offline,
        nodes.len() > 1,
    ensures
        subscription_status(nodes.push(extra)) == subscription_status(nodes),
{
    let more = nodes.push(extra);
    assert forall|i: int| 0 <= i < more.len() && counts_for_subscription(#[trigger] more[i]) implies i
        < nodes.len() && more[i] == nodes[i] by {}
    if some_node_unsubscribed(more) {
        let i = choose|i: int|
            0 <= i < more.len() && counts_for_subscription(#[trigger] more[i]) && node_level(
                more[i],
            ).len() == 0;
        assert(nodes[i] == more[i]);
    }
    if some_node_unsubscribed(nodes) {
        let i = choose|i: int|
            0 <= i < nodes.len() && counts_for_subscription(#[trigger] nodes[i]) && node_level(
                nodes[i],
            ).len() == 0;
        assert(more[i] == nodes[i]);
    }
    if some_node_counts(more) {
        let i = choose|i: int| 0 <= i < more.len() && counts_for_subscription(#[trigger] more[i]);
        assert(nodes[i] == more[i]);
    }
    if some_node_counts(nodes) {
        let i = choose|i: int| 0 <= i < nodes.len() && counts_for_subscription(#[trigger] nodes[i]);
        assert(more[i] == nodes[i]);
    }
    if levels_differ(more) {
        let (i, j) = choose|i: int, j: int|
            0 <= i < more.len() && 0 <= j < more.len() && counts_for_subscription(#[trigger] more[i])
                && counts_for_subscription(#[trigger] more[j]) && node_level(more[i]) != node_level(
                more[j],
            );
        assert(nodes[i] == more[i] && nodes[j] == more[j]);
    }
    if levels_differ(nodes) {
        let (i, j) = choose|i: int, j: int|
            0 <= i < nodes.len() && 0 <= j < nodes.len() && counts_for_subscription(
                #[trigger] nodes[i],
            ) && counts_for_subscription(#[trigger] nodes[j]) && node_level(nodes[i])
                != node_level(nodes[j]);
        assert(more[i] == nodes[i] && more[j] == nodes[j]);
    }
}

/// Resource counts of the dashboard's resources card.
#[derive(Clone, Copy, Debug, PartialEq, Eq, Structural)]
pub struct GuestCounts {
    pub vm_count: usize,
    pub vm_online_count: usize,
    pub ct_count: usize,
    pub ct_online_count: usize,
    pub storage_count: usize,
    pub storage_online_count: usize,
}

/// The number of resources in `s` of type `ty`, and among them those whose
/// status is `up` where `up` is given.
pub open spec fn count_of(s: Seq<ClusterResource>, ty: ClusterResourceType, up: Option<Seq<char>>) -> nat
    decreases s.len(),
{
    if s.len() == 0 {
        0
    } else {
        let rest = count_of(s.drop_last(), ty, up);
        let item = s.last();
        if item.ty == ty && (match up {
            Some(st) => status_is(item, st),
            None => true,
        }) {
            rest + 1
        } else {
            rest
        }
    }
}

proof fn lemma_count_of_bounded(s: Seq<ClusterResource>, ty: ClusterResourceType, up: Option<Seq<char>>)
    ensures
        count_of(s, ty, up) <= s.len(),
    decreases s.len(),
{
    if s.len() > 0 {
        lemma_count_of_bounded(s.drop_last(), ty, up);
    }
}

/// Among the resources of a type, those in a given status are no more
/// than all of them.
pub proof fn lemma_online_within_total(s: Seq<ClusterResource>, ty: ClusterResourceType, up: Seq<char>)
    ensures
        count_of(s, ty, Some(up)) <= count_of(s, ty, None),
    decreases s.len(),
{
    if s.len() > 0 {
        lemma_online_within_total(s.drop_last(), ty, up);
    }
}

/// The resources of type `ty`.
pub open spec fn of_type(s: Seq<ClusterResource>, ty: ClusterResourceType) -> Seq<ClusterResource> {
    s.filter(|r: ClusterResource| r.ty == ty)
}

/// The resources of type `ty` whose status is exactly `up`.
pub open spec fn of_type_in(s: Seq<ClusterResource>, ty: ClusterResourceType, up: Seq<char>) -> Seq<ClusterResource> {
    s.filter(|r: ClusterResource| r.ty == ty && r.status is Some && r.status->0@ == up)
}

/// A count of a type is the number of resources of that type; a count of
/// those in a status is the number of resources of that type whose status
/// is exactly that one: a resource of another type, or in another status
/// or none, adds nothing.
pub proof fn law_counts_are_sizes(s: Seq<ClusterResource>, ty: ClusterResourceType, up: Seq<char>)
    ensures
        count_of(s, ty, None) == of_type(s, ty).len(),
        count_of(s, ty, Some(up)) == of_type_in(s, ty, up).len(),
    decreases s.len(),
{
    reveal(Seq::filter);
    if s.len() > 0 {
        law_counts_are_sizes(s.drop_last(), ty, up);
        let f = |r: ClusterResource| r.ty == ty;
        assert(of_type(s, ty) == s.filter(f));
        assert(of_type(s.drop_last(), ty) == s.drop_last().filter(f));
        let last = s.last();
        assert(of_type_in(s, ty, up).len() == of_type_in(s.drop_last(), ty, up).len() + if last.ty
            == ty && last.status is Some && last.status->0@ == up {
            1int
        } else {
            0int
        });
    }
}

fn resource_status_is(item: &ClusterResource, st: &str) -> (r: bool)
    ensures
        r == status_is(*item, st@),
{
    match &item.status {
        Some(s) => same_text(s.as_str(), st),
        None => false,
    }
}

/// Counts virtual machines, containers (running ones apart) and storages
/// (available ones apart).
pub fn count_guests(list: &Vec<ClusterResource>) -> (c: GuestCounts)
    ensures
        c.vm_count == count_of(list@, ClusterResourceType::Qemu, None),
        c.vm_online_count == count_of(list@, ClusterResourceType::Qemu, Some("running"@)),
        c.ct_count == count_of(list@, ClusterResourceType::Lxc, None),
        c.ct_online_count == count_of(list@, ClusterResourceType::Lxc, Some("running"@)),
        c.storage_count == count_of(list@, ClusterResourceType::Storage, None),
        c.storage_online_count == count_of(list@, ClusterResourceType::Storage, Some("available"@)),
        c.vm_count == of_type(list@, ClusterResourceType::Qemu).len(),
        c.vm_online_count == of_type_in(list@, ClusterResourceType::Qemu, "running"@).len(),
        c.ct_count == of_type(list@, ClusterResourceType::Lxc).len(),
        c.ct_online_count == of_type_in(list@, ClusterResourceType::Lxc, "running"@).len(),
        c.storage_count == of_type(list@, ClusterResourceType::Storage).len(),
        c.storage_online_count == of_type_in(list@, ClusterResourceType::Storage, "available"@).len(),
{
    let mut c = GuestCounts {
        vm_count: 0,
        vm_online_count: 0,
        ct_count: 0,
        ct_online_count: 0,
        storage_count: 0,
        storage_online_count: 0,
    };
    let mut i: usize = 0;
    while i < list.len()
        invariant
            i <= list@.len(),
            c.vm_count == count_of(list@.subrange(0, i as int), ClusterResourceType::Qemu, None),
            c.vm_online_count == count_of(list@.subrange(0, i as int), ClusterResourceType::Qemu, Some("running"@)),
            c.ct_count == count_of(list@.subrange(0, i as int), ClusterResourceType::Lxc, None),
            c.ct_online_count == count_of(list@.subrange(0, i as int), ClusterResourceType::Lxc, Some("running"@)),
            c.storage_count == count_of(list@.subrange(0, i as int), ClusterResourceType::Storage, None),
            c.storage_online_count == count_of(list@.subrange(0, i as int), ClusterResourceType::Storage, Some("available"@)),
        decreases list@.len() - i,
    {
        let ghost pre = list@.subrange(0, i as int);
        let ghost next = list@.subrange(0, i + 1);
        assert(next.drop_last() =~= pre);
        proof {
            lemma_count_of_bounded(pre, ClusterResourceType::Qemu, None);
            lemma_count_of_bounded(pre, ClusterResourceType::Qemu, Some("running"@));
            lemma_count_of_bounded(pre, ClusterResourceType::Lxc, None);
            lemma_count_of_bounded(pre, ClusterResourceType::Lxc, Some("running"@));
            lemma_count_of_bounded(pre, ClusterResourceType::Storage, None);
            lemma_count_of_bounded(pre, ClusterResourceType::Storage, Some("available"@));
        }
        let item = &list[i];
        if item.ty == ClusterResourceType::Qemu {
            c.vm_count = c.vm_count + 1;
            if resource_status_is(item, "running") {
                c.vm_online_count = c.vm_online_count + 1;
            }
        }
        if item.ty == ClusterResourceType::Lxc {
            c.ct_count = c.ct_count + 1;
            if resource_status_is(item, "running") {
                c.ct_online_count = c.ct_online_count + 1;
            }
        }
        if item.ty == ClusterResourceType::Storage {
            c.storage_count = c.storage_count + 1;
            if resource_status_is(item, "available") {
                c.storage_online_count = c.storage_online_count + 1;
            }
        }
        i = i + 1;
    }
    assert(list@.subrange(0, list@.len() as int) =~= list@);
    proof {
        law_counts_are_sizes(list@, ClusterResourceType::Qemu, "running"@);
        law_counts_are_sizes(list@, ClusterResourceType::Lxc, "running"@);
        law_counts_are_sizes(list@, ClusterResourceType::Storage, "available"@);
    }
    c
}

/// Sum over the storages of `s` of `disk` (`used`) or of `maxdisk`, an
/// absent value counting as zero.
pub open spec fn storage_sum(s: Seq<ClusterResource>, used: bool) -> nat
    decreases s.len(),
{
    if s.len() == 0 {
        0
    } else {
        let item = s.last();
        let v: nat = if item.ty != ClusterResourceType::Storage {
            0
        } else if used {
            match item.disk {
                Some(d) => d as nat,
                None => 0,
            }
        } else {
            match item.maxdisk {
                Some(d) => d as nat,
                None => 0,
            }
        };
        storage_sum(s.drop_last(), used) + v
    }
}

proof fn lemma_storage_sum_monotone(s: Seq<ClusterResource>, used: bool, i: int)
    requires
        0 <= i <= s.len(),
    ensures
        storage_sum(s.subrange(0, i), used) <= storage_sum(s, used),
    decreases s.len() - i,
{
    if i < s.len() {
        lemma_storage_sum_monotone(s, used, i + 1);
        assert(s.subrange(0, i + 1).drop_last() =~= s.subrange(0, i));
    } else {
        assert(s.subrange(0, i) =~= s);
    }
}

/// Used and total bytes over all storages of the cluster.
pub fn storage_totals(list: &Vec<ClusterResource>) -> (r: (u64, u64))
    requires
        storage_sum(list@, true) <= u64::MAX,
        storage_sum(list@, false) <= u64::MAX,
    ensures
        r.0 == storage_sum(list@, true),
        r.1 == storage_sum(list@, false),
{
    let mut used: u64 = 0;
    let mut total: u64 = 0;
    let mut i: usize = 0;
    while i < list.len()
        invariant
            i <= list@.len(),
            storage_sum(list@, true) <= u64::MAX,
            storage_sum(list@, false) <= u64::MAX,
            used == storage_sum(list@.subrange(0, i as int), true),
            total == storage_sum(list@.subrange(0, i as int), false),
        decreases list@.len() - i,
    {
        let ghost next = list@.subrange(0, i + 1);
        assert(next.drop_last() =~= list@.subrange(0, i as int));
        proof {
            lemma_storage_sum_monotone(list@, true, i + 1);
            lemma_storage_sum_monotone(list@, false, i + 1);
        }
        let item = &list[i];
        if item.ty == ClusterResourceType::Storage {
            let d = match item.disk {
                Some(d) => d,
                None => 0,
            };
            let m = match item.maxdisk {
                Some(m) => m,
                None => 0,
            };
            used = used + d;
            total = total + m;
        }
        i = i + 1;
    }
    assert(list@.subrange(0, list@.len() as int) =~= list@);
    (used, total)
}

/// Text of a node status, as it is serialized.
pub fn node_status_text(status: ClusterNodeIndexResponseStatus) -> (r: String)
    ensures
        r@ == node_status_name(status),
{
    match status {
        ClusterNodeIndexResponseStatus::Online => String::from_str("online"),
        ClusterNodeIndexResponseStatus::Offline => String::from_str("offline"),
        ClusterNodeIndexResponseStatus::Unknown => String::from_str("unknown"),
    }
}

/// Serialized name of a node status.
pub open spec fn node_status_name(status: ClusterNodeIndexResponseStatus) -> Seq<char> {
    match status {
        ClusterNodeIndexResponseStatus::Online => "online"@,
        ClusterNodeIndexResponseStatus::Offline => "offline"@,
        ClusterNodeIndexResponseStatus::Unknown => "unknown"@,
    }
}

/// A line of the dashboard's node list.
pub struct NodeTile {
    pub highlighted: bool,
    pub title: String,
    pub subtitle: String,
    pub status: String,
    pub route: ResourceRoute,
}

/// The subscription line of a node: its level, or "no subscription".
pub open spec fn node_level_line(n: ClusterNodeIndexResponse) -> Seq<char> {
    if node_level(n).len() > 0 {
        node_level(n)
    } else {
        "no subscription"@
    }
}

/// `t` shows node `n`.
pub open spec fn node_tile_shows(t: NodeTile, n: ClusterNodeIndexResponse) -> bool {
    &&& t.highlighted == (n.status == ClusterNodeIndexResponseStatus::Online)
    &&& t.title@ == n.node@
    &&& t.subtitle@ == node_level_line(n)
    &&& t.status@ == node_status_name(n.status)
    &&& t.route matches ResourceRoute::Node { nodename } && nodename@ == n.node@
}

/// The node list of the dashboard, one tile per node in order.
pub fn node_tiles(nodes: &Vec<ClusterNodeIndexResponse>) -> (tiles: Vec<NodeTile>)
    ensures
        tiles@.len() == nodes@.len(),
        forall|k: int| 0 <= k < nodes@.len() ==> node_tile_shows(#[trigger] tiles@[k], nodes@[k]),
{
    let mut tiles: Vec<NodeTile> = Vec::new();
    let mut i: usize = 0;
    while i < nodes.len()
        invariant
            i <= nodes@.len(),
            tiles@.len() == i,
            forall|k: int| 0 <= k < i ==> node_tile_shows(#[trigger] tiles@[k], nodes@[k]),
        decreases nodes@.len() - i,
    {
        let n = &nodes[i];
        let level = level_text(n);
        let subtitle = if level.unicode_len() > 0 {
            String::from_str(level)
        } else {
            String::from_str("no subscription")
        };
        tiles.push(
            NodeTile {
                highlighted: n.status == ClusterNodeIndexResponseStatus::Online,
                title: n.node.clone(),
                subtitle,
                status: node_status_text(n.status),
                route: ResourceRoute::Node { nodename: n.node.clone() },
            },
        );
        i = i + 1;
    }
    tiles
}

/// The places of the dashboard that open the resource page.
#[derive(Clone, Copy, Debug, PartialEq, Eq, Structural)]
pub enum DashboardLink {
    NodesCard,
    VirtualMachines,
    Containers,
    Storages,
    ResourcesCard,
}

/// The filter the resource page opens with from a dashboard link: the
/// resources card shows guests of both kinds, the others one type.
pub fn dashboard_link_filter(link: DashboardLink) -> (f: ResourceFilter)
    ensures
        f.name@.len() == 0,
        match link {
            DashboardLink::NodesCard => only_type(f, ClusterResourceType::Node),
            DashboardLink::VirtualMachines => only_type(f, ClusterResourceType::Qemu),
            DashboardLink::Containers => only_type(f, ClusterResourceType::Lxc),
            DashboardLink::Storages => only_type(f, ClusterResourceType::Storage),
            DashboardLink::ResourcesCard => f.lxc && f.qemu && !f.storage && !f.nodes,
        },
{
    let mut f = ResourceFilter::default();
    match link {
        DashboardLink::NodesCard => f.nodes = true,
        DashboardLink::VirtualMachines => f.qemu = true,
        DashboardLink::Containers => f.lxc = true,
        DashboardLink::Storages => f.storage = true,
        DashboardLink::ResourcesCard => {
            f.lxc = true;
            f.qemu = true;
        },
    }
    f
}

/// What the dashboard keeps between visits: the last answers and the
/// subscription state.
pub struct DashboardCache {
    pub nodes: Option<Result<Vec<ClusterNodeIndexResponse>, String>>,
    pub resources: Option<Result<Vec<ClusterResource>, String>>,
    pub subscription_confirmed: bool,
    /// `None` where the subscription is in order.
    pub subscription_error: Option<String>,
}

impl DashboardCache {
    /// Nothing loaded, nothing confirmed.
    pub fn new() -> (c: Self)
        ensures
            c.nodes is None,
            c.resources is None,
            !c.subscription_confirmed,
            c.subscription_error is None,
    {
        DashboardCache {
            nodes: None,
            resources: None,
            subscription_confirmed: false,
            subscription_error: None,
        }
    }
}

/// Events of the dashboard.
pub enum Msg {
    NodeLoadResult(Result<Vec<ClusterNodeIndexResponse>, String>),
    ResourcesLoadResult(Result<Vec<ClusterResource>, String>),
    ConfirmSubscription,
    ShowSubscriptionAlert,
}

/// State of the dashboard page.
pub struct PvePageDashboard {
    pub show_subscription_alert: bool,
}

/// The view of an optional node answer.
pub open spec fn nodes_view(n: Option<Result<Vec<ClusterNodeIndexResponse>, String>>) -> Option<Result<Seq<ClusterNodeIndexResponse>, Seq<char>>> {
    match n {
        Some(Ok(v)) => Some(Ok(v@)),
        Some(Err(e)) => Some(Err(e@)),
        None => None,
    }
}

/// The view of an optional resource answer.
pub open spec fn resources_view(r: Option<Result<Vec<ClusterResource>, String>>) -> Option<Result<Seq<ClusterResource>, Seq<char>>> {
    match r {
        Some(Ok(v)) => Some(Ok(v@)),
        Some(Err(e)) => Some(Err(e@)),
        None => None,
    }
}

/// The subscription alert is shown (with the error) where there is an
/// error and it was asked for or never confirmed.
pub open spec fn alert_shown(page: PvePageDashboard, cache: DashboardCache) -> bool {
    cache.subscription_error is Some && (page.show_subscription_alert || !cache.subscription_confirmed)
}

impl PvePageDashboard {
    /// The page as it opens; it then requests `/nodes` and
    /// `/cluster/resources`.
    pub fn create() -> (p: Self)
        ensures
            !p.show_subscription_alert,
    {
        PvePageDashboard { show_subscription_alert: false }
    }

    /// Handles one event. A node answer is stored; where it is a list, the
    /// subscription error is computed from it and a clean check confirms
    /// the subscription. Confirming hides the alert; asking for it shows it
    /// where there is an error.
    pub fn update(&mut self, cache: &mut DashboardCache, msg: Msg)
        ensures
            old(cache).subscription_confirmed ==> final(cache).subscription_confirmed,
            match msg {
                Msg::ResourcesLoadResult(r) => {
                    &&& resources_view(final(cache).resources) == resources_view(Some(r))
                    &&& nodes_view(final(cache).nodes) == nodes_view(old(cache).nodes)
                    &&& opt_text(final(cache).subscription_error) == opt_text(old(cache).subscription_error)
                    &&& final(cache).subscription_confirmed == old(cache).subscription_confirmed
                    &&& final(self).show_subscription_alert == old(self).show_subscription_alert
                },
                Msg::NodeLoadResult(r) => {
                    &&& nodes_view(final(cache).nodes) == nodes_view(Some(r))
                    &&& resources_view(final(cache).resources) == resources_view(old(cache).resources)
                    &&& final(self).show_subscription_alert == old(self).show_subscription_alert
                    &&& match r {
                        Ok(v) => {
                            &&& opt_text(final(cache).subscription_error) == subscription_status(v@)
                            &&& final(cache).subscription_confirmed == (old(cache).subscription_confirmed
                                || subscription_status(v@) is None)
                        },
                        Err(_) => {
                            &&& opt_text(final(cache).subscription_error) == opt_text(old(cache).subscription_error)
                            &&& final(cache).subscription_confirmed == old(cache).subscription_confirmed
                        },
                    }
                },
                Msg::ConfirmSubscription => {
                    &&& !alert_shown(*final(self), *final(cache))
                    &&& !final(self).show_subscription_alert
                    &&& final(cache).subscription_confirmed
                    &&& nodes_view(final(cache).nodes) == nodes_view(old(cache).nodes)
                    &&& resources_view(final(cache).resources) == resources_view(old(cache).resources)
                    &&& opt_text(final(cache).subscription_error) == opt_text(old(cache).subscription_error)
                },
                Msg::ShowSubscriptionAlert => {
                    &&& final(self).show_subscription_alert == (old(self).show_subscription_alert
                        || old(cache).subscription_error is Some)
                    &&& nodes_view(final(cache).nodes) == nodes_view(old(cache).nodes)
                    &&& resources_view(final(cache).resources) == resources_view(old(cache).resources)
                    &&& opt_text(final(cache).subscription_error) == opt_text(old(cache).subscription_error)
                    &&& final(cache).subscription_confirmed == old(cache).subscription_confirmed
                },
            },
    {
        match msg {
            Msg::ResourcesLoadResult(result) => {
                cache.resources = Some(result);
            },
            Msg::NodeLoadResult(result) => {
                match result {
                    Ok(nodes) => {
                        let err = subscription_error(&nodes);
                        let clean = err.is_none();
                        cache.nodes = Some(Ok(nodes));
                        cache.subscription_error = err;
                        if !cache.subscription_confirmed {
                            cache.subscription_confirmed = clean;
                        }
                    },
                    Err(e) => {
                        cache.nodes = Some(Err(e));
                    },
                }
            },
            Msg::ConfirmSubscription => {
                self.show_subscription_alert = false;
                cache.subscription_confirmed = true;
            },
            Msg::ShowSubscriptionAlert => {
                if cache.subscription_error.is_some() {
                    self.show_subscription_alert = true;
                }
            },
        }
    }

    /// The requests the page makes as it opens: the node index and the
    /// cluster resources.
    pub fn requests() -> (r: (&'static str, &'static str))
        ensures
            r.0@ == "/nodes"@,
            r.1@ == "/cluster/resources"@,
    {
        ("/nodes", "/cluster/resources")
    }

    /// The subscription status the alert shows, where it is shown.
    pub fn subscription_alert(&self, cache: &DashboardCache) -> (r: Option<String>)
        ensures
            r is Some <==> alert_shown(*self, *cache),
            r matches Some(s) ==> opt_text(cache.subscription_error) == Some(s@),
    {
        match &cache.subscription_error {
            Some(status) => {
                if self.show_subscription_alert || !cache.subscription_confirmed {
                    Some(status.clone())
                } else {
                    None
                }
            },
            None => None,
        }
    }

    /// The subscription card shows where there is a subscription error.
    pub fn shows_subscription_card(cache: &DashboardCache) -> (r: bool)
        ensures
            r == cache.subscription_error is Some,
    {
        cache.subscription_error.is_some()
    }

    /// The number of nodes the analytics card names: the length of the
    /// node list, or 1 while there is none.
    pub fn node_count(cache: &DashboardCache) -> (r: usize)
        ensures
            r == match cache.nodes {
                Some(Ok(v)) => v@.len(),
                _ => 1,
            },
    {
        match &cache.nodes {
            Some(Ok(list)) => list.len(),
            _ => 1,
        }
    }
}

/// The subtitle of a count card: "{count} ({online} online)".
pub fn count_subtitle(count: usize, online: usize) -> (r: String)
    ensures
        r@ == decimal(count as nat) + " ("@ + decimal(online as nat) + " online)"@,
{
    let mut r = u64_text(count as u64);
    r.append(" (");
    let o = u64_text(online as u64);
    r.append(o.as_str());
    r.append(" online)");
    r
}

/// The subtitle of the analytics card: "Usage across all ({n}) online
/// nodes.".
pub fn analytics_subtitle(node_count: usize) -> (r: String)
    ensures
        r@ == "Usage across all ("@ + decimal(node_count as nat) + ") online nodes."@,
{
    let mut r = String::from_str("Usage across all (");
    let n = u64_text(node_count as u64);
    r.append(n.as_str());
    r.append(") online nodes.");
    r
}

} // verus!
