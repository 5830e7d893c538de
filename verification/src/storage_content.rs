//! The content of a storage: icons by content type, the search over volume
//! ids, and the panel's states.

use vstd::prelude::*;
use crate::text::opt_text;
use crate::text::{contains, same_text, text_contains};
use crate::urls::{encoded, node_path, storage_url};

verus! {

/// One volume on a storage, with the fields this crate reads.
#[derive(Clone, Debug)]
pub struct StorageEntry {
    pub volid: String,
    pub content: String,
    pub size: u64,
}

/// The icon of a content type: ISO images a CD, container templates and
/// root directories a cube, disk images a disk, backups a floppy, anything
/// else a file.
pub open spec fn content_icon(content: Seq<char>) -> Seq<char> {
    if content == "iso"@ {
        "cdrom"@
    } else if content == "vztmpl"@ || content == "rootdir"@ {
        "cube"@
    } else if content == "images"@ {
        "hdd-o"@
    } else if content == "backup"@ {
        "floppy-o"@
    } else {
        "file-o"@
    }
}

/// The icon of a content type.
pub fn get_content_icon(content: &str) -> (r: &'static str)
    ensures
        r@ == content_icon(content@),
{
    if same_text(content, "iso") {
        "cdrom"
    } else if same_text(content, "vztmpl") || same_text(content, "rootdir") {
        "cube"
    } else if same_text(content, "images") {
        "hdd-o"
    } else if same_text(content, "backup") {
        "floppy-o"
    } else {
        "file-o"
    }
}

/// The search keeps a volume whose id contains the search text (every
/// volume while it is empty).
pub open spec fn volume_kept(e: StorageEntry, filter: Seq<char>) -> bool {
    filter.len() == 0 || text_contains(e.volid@, filter)
}

/// The indices of the volumes the search keeps, in order.
pub open spec fn kept_volumes(data: Seq<StorageEntry>, filter: Seq<char>) -> Seq<usize>
    decreases data.len(),
{
    if data.len() == 0 {
        Seq::empty()
    } else {
        let rest = kept_volumes(data.drop_last(), filter);
        if volume_kept(data.last(), filter) {
            rest.push((data.len() - 1) as usize)
        } else {
            rest
        }
    }
}

/// The volumes the search shows, by index.
pub fn filter_volumes(data: &Vec<StorageEntry>, filter: &str) -> (r: Vec<usize>)
    ensures
        r@ == kept_volumes(data@, filter@),
{
    let empty = filter.unicode_len() == 0;
    let mut r: Vec<usize> = Vec::new();
    let mut i: usize = 0;
    while i < data.len()
        invariant
            i <= data@.len(),
            empty == (filter@.len() == 0),
            r@ == kept_volumes(data@.subrange(0, i as int), filter@),
        decreases data@.len() - i,
    {
        let ghost pre = data@.subrange(0, i + 1);
        assert(pre.drop_last() =~= data@.subrange(0, i as int));
        if empty || contains(data[i].volid.as_str(), filter) {
            r.push(i);
        }
        i = i + 1;
    }
    assert(data@.subrange(0, data@.len() as int) =~= data@);
    r
}

/// Properties of the panel: the storage, its node, and the content type
/// and guest the listing is narrowed to.
pub struct StorageContentPanel {
    pub storage: String,
    pub node: String,
    pub content_filter: Option<String>,
    pub vmid_filter: Option<u32>,
}

impl StorageContentPanel {
    /// The content of `storage` on `node`, not narrowed.
    pub fn new(node: String, storage: String) -> (p: Self)
        ensures
            p.node@ == node@,
            p.storage@ == storage@,
            p.content_filter is None,
            p.vmid_filter is None,
    {
        StorageContentPanel { storage, node, content_filter: None, vmid_filter: None }
    }

    /// Narrows the listing to a content type.
    pub fn set_content_filter(&mut self, filter: Option<String>)
        ensures
            final(self).content_filter == filter,
            final(self).storage == old(self).storage,
            final(self).node == old(self).node,
            final(self).vmid_filter == old(self).vmid_filter,
    {
        self.content_filter = filter;
    }

    /// The panel narrowed to a content type.
    pub fn content_filter(self, filter: Option<String>) -> (p: Self)
        ensures
            p.content_filter == filter,
            p.storage == self.storage,
            p.node == self.node,
            p.vmid_filter == self.vmid_filter,
    {
        let mut p = self;
        p.set_content_filter(filter);
        p
    }

    /// Narrows the listing to one guest.
    pub fn set_vmid_filter(&mut self, vmid: Option<u32>)
        ensures
            final(self).vmid_filter == vmid,
            final(self).storage == old(self).storage,
            final(self).node == old(self).node,
            final(self).content_filter == old(self).content_filter,
    {
        self.vmid_filter = vmid;
    }

    /// The panel narrowed to one guest.
    pub fn vmid_filter(self, vmid: Option<u32>) -> (p: Self)
        ensures
            p.vmid_filter == vmid,
            p.storage == self.storage,
            p.node == self.node,
            p.content_filter == self.content_filter,
    {
        let mut p = self;
        p.set_vmid_filter(vmid);
        p
    }
}

/// Events of the panel.
pub enum Msg {
    Load,
    LoadResult(Result<Vec<StorageEntry>, String>),
    SetFilter(String),
}

/// The content request: `/nodes/{node}/storage/{storage}/content` with the
/// content type and guest parameters where set.
pub struct ContentRequest {
    pub url: String,
    pub content: Option<String>,
    pub vmid: Option<u32>,
}

/// What the panel asks for after an event.
pub enum ContentAction {
    Idle,
    Fetch(ContentRequest),
}

/// State of the panel.
pub struct PveStorageContentPanel {
    pub filter: String,
    pub data: Option<Result<Vec<StorageEntry>, String>>,
}

/// What the panel shows.
#[derive(Clone, Copy, Debug, PartialEq, Eq, Structural)]
pub enum ContentView {
    Loading,
    Error,
    /// "List is empty."
    Empty,
    /// The search field and the volumes it keeps.
    List,
}

/// The request matches the panel's properties.
pub open spec fn request_for(r: ContentRequest, props: StorageContentPanel) -> bool {
    &&& r.url@ == node_path(props.node@) + "/storage/"@ + encoded(props.storage@) + "/content"@
    &&& opt_text(r.content) == opt_text(props.content_filter)
    &&& r.vmid == props.vmid_filter
}

impl PveStorageContentPanel {
    /// Nothing loaded, no search; the panel then loads.
    pub fn create() -> (p: Self)
        ensures
            p.data is None,
            p.filter@.len() == 0,
    {
        PveStorageContentPanel { filter: String::new(), data: None }
    }

    fn request(props: &StorageContentPanel) -> (r: ContentRequest)
        ensures
            request_for(r, *props),
    {
        ContentRequest {
            url: storage_url(props.node.as_str(), props.storage.as_str(), "/content"),
            content: match &props.content_filter {
                Some(c) => Some(c.clone()),
                None => None,
            },
            vmid: props.vmid_filter,
        }
    }

    /// New properties drop the data and load again.
    pub fn changed(&mut self, props: &StorageContentPanel) -> (a: ContentAction)
        ensures
            final(self).data is None,
            final(self).filter == old(self).filter,
            a matches ContentAction::Fetch(r) && request_for(r, *props),
    {
        self.data = None;
        ContentAction::Fetch(Self::request(props))
    }

    /// Handles one event.
    pub fn update(&mut self, props: &StorageContentPanel, msg: Msg) -> (a: ContentAction)
        ensures
            match msg {
                Msg::SetFilter(f) => a is Idle && final(self).filter == f && final(self).data == old(self).data,
                Msg::Load => a matches ContentAction::Fetch(r) && request_for(r, *props)
                    && final(self).filter == old(self).filter && final(self).data == old(self).data,
                Msg::LoadResult(r) => a is Idle && final(self).data == Some(r) && final(self).filter == old(self).filter,
            },
    {
        match msg {
            Msg::SetFilter(f) => {
                self.filter = f;
                ContentAction::Idle
            },
            Msg::Load => ContentAction::Fetch(Self::request(props)),
            Msg::LoadResult(r) => {
                self.data = Some(r);
                ContentAction::Idle
            },
        }
    }

    /// What the panel shows.
    pub fn view_kind(&self) -> (v: ContentView)
        ensures
            v == match self.data {
                None => ContentView::Loading,
                Some(Err(_)) => ContentView::Error,
                Some(Ok(d)) => if d@.len() == 0 { ContentView::Empty } else { ContentView::List },
            },
    {
        match &self.data {
            None => ContentView::Loading,
            Some(Err(_)) => ContentView::Error,
            Some(Ok(d)) => if d.len() == 0 {
                ContentView::Empty
            } else {
                ContentView::List
            },
        }
    }

    /// The search field offers to clear a non-empty search.
    pub fn shows_clear_button(&self) -> (r: bool)
        ensures
            r == (self.filter@.len() > 0),
    {
        self.filter.as_str().unicode_len() > 0
    }
}

} // verus!
