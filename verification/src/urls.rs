//! Paths of the API requests the pages make; path components are
//! percent-encoded.

use vstd::prelude::*;
use vstd::string::StringSliceAdditionalSpecFns;
use crate::text::{decimal, push_char, u64_text};

verus! {

/// An ASCII letter or digit: the bytes a path component keeps as they are.
pub open spec fn is_alnum_byte(b: u8) -> bool {
    (48 <= b <= 57) || (65 <= b <= 90) || (97 <= b <= 122)
}

/// Upper-case hexadecimal digit of `d < 16`.
pub open spec fn hex_digit(d: nat) -> char {
    if d < 10 {
        (48 + d) as char
    } else {
        (55 + d) as char
    }
}

/// One byte of a component: kept where it is a letter or digit, else
/// written `%XX`.
pub open spec fn encode_byte(b: u8) -> Seq<char> {
    if is_alnum_byte(b) {
        seq![b as char]
    } else {
        seq!['%', hex_digit((b / 16) as nat), hex_digit((b % 16) as nat)]
    }
}

/// Percent-encoding of a byte string, every byte but ASCII letters and
/// digits encoded.
pub open spec fn percent_encoded(bytes: Seq<u8>) -> Seq<char>
    decreases bytes.len(),
{
    if bytes.len() == 0 {
        Seq::empty()
    } else {
        percent_encoded(bytes.drop_last()) + encode_byte(bytes.last())
    }
}

/// Percent-encoding of the UTF-8 form of a text.
pub open spec fn encoded(s: Seq<char>) -> Seq<char> {
    percent_encoded(vstd::utf8::encode_utf8(s))
}

/// A component of ASCII letters and digits is kept as it is.
pub proof fn lemma_alnum_kept(bytes: Seq<u8>)
    requires
        forall|i: int| 0 <= i < bytes.len() ==> is_alnum_byte(#[trigger] bytes[i]),
    ensures
        percent_encoded(bytes) == bytes.map_values(|b: u8| b as char),
    decreases bytes.len(),
{
    if bytes.len() > 0 {
        let pre = bytes.drop_last();
        assert forall|i: int| 0 <= i < pre.len() implies is_alnum_byte(#[trigger] pre[i]) by {
            assert(pre[i] == bytes[i]);
        }
        lemma_alnum_kept(pre);
        assert(is_alnum_byte(bytes[bytes.len() - 1]));
        assert(percent_encoded(bytes) =~= bytes.map_values(|b: u8| b as char));
    } else {
        assert(percent_encoded(bytes) =~= bytes.map_values(|b: u8| b as char));
    }
}

/// Encoding never yields a '/', so an encoded component stays one path
/// segment.
pub proof fn lemma_encoded_has_no_slash(bytes: Seq<u8>)
    ensures
        !percent_encoded(bytes).contains('/'),
    decreases bytes.len(),
{
    if bytes.len() > 0 {
        lemma_encoded_has_no_slash(bytes.drop_last());
        let b = bytes.last();
        let e = encode_byte(b);
        let p = percent_encoded(bytes.drop_last());
        assert forall|i: int| 0 <= i < e.len() implies e[i] != '/' by {
            if is_alnum_byte(b) {
                assert(e[i] == b as char);
            } else if i == 1 {
                assert(e[1] == hex_digit((b / 16) as nat));
            } else if i == 2 {
                assert(e[2] == hex_digit((b % 16) as nat));
            }
        }
        assert forall|i: int| 0 <= i < (p + e).len() implies (p + e)[i] != '/' by {
            if i < p.len() {
                assert((p + e)[i] == p[i]);
            } else {
                assert((p + e)[i] == e[i - p.len()]);
            }
        }
    }
}

fn hex_char(d: u8) -> (c: char)
    requires
        d < 16,
    ensures
        c == hex_digit(d as nat),
{
    if d < 10 {
        (48 + d) as char
    } else {
        (55 + d) as char
    }
}

/// Percent-encodes a path component: the UTF-8 bytes of `comp`, each one
/// that is not an ASCII letter or digit written as `%XX`.
pub fn percent_encode_component(comp: &str) -> (r: String)
    ensures
        r@ == encoded(comp@),
{
    let bytes = comp.as_bytes();
    let mut out = String::new();
    let mut i: usize = 0;
    while i < bytes.len()
        invariant
            bytes@ == comp.spec_bytes(),
            comp.spec_bytes() == vstd::utf8::encode_utf8(comp@),
            i <= bytes@.len(),
            out@ == percent_encoded(bytes@.subrange(0, i as int)),
        decreases bytes@.len() - i,
    {
        let b = bytes[i];
        let ghost pre = out@;
        if (48 <= b && b <= 57) || (65 <= b && b <= 90) || (97 <= b && b <= 122) {
            push_char(&mut out, b as char);
        } else {
            push_char(&mut out, '%');
            push_char(&mut out, hex_char(b / 16));
            push_char(&mut out, hex_char(b % 16));
        }
        assert(bytes@.subrange(0, i + 1).drop_last() =~= bytes@.subrange(0, i as int));
        assert(out@ =~= pre + encode_byte(b));
        i = i + 1;
    }
    assert(bytes@.subrange(0, bytes@.len() as int) =~= bytes@);
    out
}

/// `"/nodes/{node}"`, the node percent-encoded.
pub open spec fn node_path(node: Seq<char>) -> Seq<char> {
    "/nodes/"@ + encoded(node)
}

/// `"/nodes/{node}/qemu/{vmid}"`.
pub open spec fn qemu_path(node: Seq<char>, vmid: u64) -> Seq<char> {
    node_path(node) + "/qemu/"@ + decimal(vmid as nat)
}

/// `"/nodes/{node}/lxc/{vmid}"`.
pub open spec fn lxc_path(node: Seq<char>, vmid: u64) -> Seq<char> {
    node_path(node) + "/lxc/"@ + decimal(vmid as nat)
}

fn node_prefix(node: &str) -> (r: String)
    ensures
        r@ == node_path(node@),
{
    let mut s = String::from_str("/nodes/");
    let enc = percent_encode_component(node);
    s.append(enc.as_str());
    s
}

fn guest_prefix(node: &str, kind: &str, vmid: u64) -> (r: String)
    ensures
        r@ == node_path(node@) + kind@ + decimal(vmid as nat),
{
    let mut s = node_prefix(node);
    s.append(kind);
    let id = u64_text(vmid);
    s.append(id.as_str());
    s
}

/// The path of a node below `/nodes`, followed by `leaf`.
pub fn node_url(node: &str, leaf: &str) -> (r: String)
    ensures
        r@ == node_path(node@) + leaf@,
{
    let mut s = node_prefix(node);
    s.append(leaf);
    s
}

/// The path of a virtual machine, followed by `leaf`.
pub fn qemu_url(node: &str, vmid: u64, leaf: &str) -> (r: String)
    ensures
        r@ == qemu_path(node@, vmid) + leaf@,
{
    let mut s = guest_prefix(node, "/qemu/", vmid);
    s.append(leaf);
    s
}

/// The path of a container, followed by `leaf`.
pub fn lxc_url(node: &str, vmid: u64, leaf: &str) -> (r: String)
    ensures
        r@ == lxc_path(node@, vmid) + leaf@,
{
    let mut s = guest_prefix(node, "/lxc/", vmid);
    s.append(leaf);
    s
}

/// `/nodes/{node}/qemu/{vmid}/config`: the configuration of a VM.
pub fn qemu_config_url(node: &str, vmid: u64) -> (r: String)
    ensures
        r@ == qemu_path(node@, vmid) + "/config"@,
{
    qemu_url(node, vmid, "/config")
}

/// `/nodes/{node}/qemu/{vmid}/pending`: its pending changes.
pub fn qemu_pending_url(node: &str, vmid: u64) -> (r: String)
    ensures
        r@ == qemu_path(node@, vmid) + "/pending"@,
{
    qemu_url(node, vmid, "/pending")
}

/// `/nodes/{node}/qemu/{vmid}/resize`: disk resize.
pub fn qemu_resize_url(node: &str, vmid: u64) -> (r: String)
    ensures
        r@ == qemu_path(node@, vmid) + "/resize"@,
{
    qemu_url(node, vmid, "/resize")
}

/// `/nodes/{node}/qemu/{vmid}/move_disk`: disk move and reassignment.
pub fn qemu_move_disk_url(node: &str, vmid: u64) -> (r: String)
    ensures
        r@ == qemu_path(node@, vmid) + "/move_disk"@,
{
    qemu_url(node, vmid, "/move_disk")
}

/// `/nodes/{node}/qemu/{vmid}/status/{cmd}`: a VM power command.
pub fn qemu_status_url(node: &str, vmid: u64, cmd: &str) -> (r: String)
    ensures
        r@ == qemu_path(node@, vmid) + "/status/"@ + cmd@,
{
    let mut s = qemu_url(node, vmid, "/status/");
    s.append(cmd);
    s
}

/// `/nodes/{node}/lxc/{vmid}/config`: the configuration of a container.
pub fn lxc_config_url(node: &str, vmid: u64) -> (r: String)
    ensures
        r@ == lxc_path(node@, vmid) + "/config"@,
{
    lxc_url(node, vmid, "/config")
}

/// `/nodes/{node}/lxc/{vmid}/status/{cmd}`: a container power command.
pub fn lxc_status_url(node: &str, vmid: u64, cmd: &str) -> (r: String)
    ensures
        r@ == lxc_path(node@, vmid) + "/status/"@ + cmd@,
{
    let mut s = lxc_url(node, vmid, "/status/");
    s.append(cmd);
    s
}

/// `/nodes/{node}/tasks?vmid={vmid}`: the tasks of one guest.
pub fn guest_tasks_url(node: &str, vmid: u64) -> (r: String)
    ensures
        r@ == node_path(node@) + "/tasks?vmid="@ + decimal(vmid as nat),
{
    guest_prefix(node, "/tasks?vmid=", vmid)
}

/// `/nodes/{node}/storage/{storage}` followed by `leaf`.
pub fn storage_url(node: &str, storage: &str, leaf: &str) -> (r: String)
    ensures
        r@ == node_path(node@) + "/storage/"@ + encoded(storage@) + leaf@,
{
    let mut s = node_url(node, "/storage/");
    let enc = percent_encode_component(storage);
    s.append(enc.as_str());
    s.append(leaf);
    s
}

/// `/nodes/{node}/tasks/{upid}/status`: the status of one task.
pub fn task_status_url(node: &str, upid: &str) -> (r: String)
    ensures
        r@ == node_path(node@) + "/tasks/"@ + encoded(upid@) + "/status"@,
{
    let mut s = node_url(node, "/tasks/");
    let enc = percent_encode_component(upid);
    s.append(enc.as_str());
    s.append("/status");
    s
}

/// `{base}/{task_id}` followed by `leaf`, the task id percent-encoded.
pub fn task_url(base_url: &str, task_id: &str, leaf: &str) -> (r: String)
    ensures
        r@ == base_url@ + "/"@ + encoded(task_id@) + leaf@,
{
    let mut s = String::from_str(base_url);
    s.append("/");
    let enc = percent_encode_component(task_id);
    s.append(enc.as_str());
    s.append(leaf);
    s
}

/// `/resources/node/{node}` followed by `leaf`: pages of a node.
pub fn node_page_path(node: &str, leaf: &str) -> (r: String)
    ensures
        r@ == "/resources/node/"@ + encoded(node@) + leaf@,
{
    let mut s = String::from_str("/resources/node/");
    let enc = percent_encode_component(node);
    s.append(enc.as_str());
    s.append(leaf);
    s
}

/// Session key under which a page keeps its selected tab:
/// `{prefix}-{id}-status-tab-bar-state`.
pub fn tab_state_key(prefix: &str, id: &str) -> (r: String)
    ensures
        r@ == prefix@ + "-"@ + id@ + "-status-tab-bar-state"@,
{
    let mut s = String::from_str(prefix);
    s.append("-");
    s.append(id);
    s.append("-status-tab-bar-state");
    s
}

/// The tab key of a guest page: `vm-{vmid}-...` or `ct-{vmid}-...`.
pub fn guest_tab_state_key(container: bool, vmid: u64) -> (r: String)
    ensures
        r@ == (if container { "ct"@ } else { "vm"@ }) + "-"@ + decimal(vmid as nat)
            + "-status-tab-bar-state"@,
{
    let id = u64_text(vmid);
    if container {
        tab_state_key("ct", id.as_str())
    } else {
        tab_state_key("vm", id.as_str())
    }
}

} // verus!
