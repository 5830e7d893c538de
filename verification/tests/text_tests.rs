use pve_yew_mobile::text::{contains, same_text, text_le_exec, u64_text};
use pve_yew_mobile::urls::{
    guest_tab_state_key, guest_tasks_url, lxc_config_url, lxc_status_url, node_page_path,
    node_url, percent_encode_component, qemu_config_url, qemu_move_disk_url, qemu_pending_url,
    qemu_resize_url, qemu_status_url, storage_url, tab_state_key, task_status_url, task_url,
};

#[test]
fn decimal_text() {
    assert_eq!(u64_text(0), "0");
    assert_eq!(u64_text(7), "7");
    assert_eq!(u64_text(100), "100");
    assert_eq!(u64_text(u64::MAX), u64::MAX.to_string());
}

#[test]
fn substring_and_order() {
    assert!(contains("qemu/100", "mu/1"));
    assert!(contains("abc", ""));
    assert!(!contains("abc", "abcd"));
    assert!(!contains("abc", "ac"));
    assert!(text_le_exec("a", "b"));
    assert!(text_le_exec("a", "a"));
    assert!(text_le_exec("ab", "abc"));
    assert!(!text_le_exec("b", "abc"));
    assert!(same_text("x", "x"));
    assert!(!same_text("x", "xy"));
}

#[test]
fn percent_encoding_keeps_only_letters_and_digits() {
    assert_eq!(percent_encode_component("pve1"), "pve1");
    assert_eq!(percent_encode_component("a b/c"), "a%20b%2Fc");
    assert_eq!(percent_encode_component("node-1.x"), "node%2D1%2Ex");
    assert_eq!(percent_encode_component("ä"), "%C3%A4");
    assert_eq!(percent_encode_component("UPID:pve:1"), "UPID%3Apve%3A1");
}

#[test]
fn api_paths() {
    assert_eq!(qemu_config_url("pve 1", 100), "/nodes/pve%201/qemu/100/config");
    assert_eq!(qemu_pending_url("pve1", 100), "/nodes/pve1/qemu/100/pending");
    assert_eq!(qemu_resize_url("pve1", 100), "/nodes/pve1/qemu/100/resize");
    assert_eq!(qemu_move_disk_url("pve1", 100), "/nodes/pve1/qemu/100/move_disk");
    assert_eq!(qemu_status_url("pve1", 100, "start"), "/nodes/pve1/qemu/100/status/start");
    assert_eq!(lxc_config_url("pve1", 101), "/nodes/pve1/lxc/101/config");
    assert_eq!(lxc_status_url("pve1", 101, "stop"), "/nodes/pve1/lxc/101/status/stop");
    assert_eq!(node_url("pve1", "/status"), "/nodes/pve1/status");
    assert_eq!(guest_tasks_url("pve1", 101), "/nodes/pve1/tasks?vmid=101");
    assert_eq!(storage_url("pve1", "local", "/content"), "/nodes/pve1/storage/local/content");
    assert_eq!(
        task_status_url("pve1", "UPID:pve1:x"),
        "/nodes/pve1/tasks/UPID%3Apve1%3Ax/status"
    );
    assert_eq!(task_url("/nodes/pve1/tasks", "U:1", "/log"), "/nodes/pve1/tasks/U%3A1/log");
    assert_eq!(node_page_path("pve1", "/tasks"), "/resources/node/pve1/tasks");
    assert_eq!(tab_state_key("node", "pve1"), "node-pve1-status-tab-bar-state");
    assert_eq!(guest_tab_state_key(true, 5), "ct-5-status-tab-bar-state");
    assert_eq!(guest_tab_state_key(false, 5), "vm-5-status-tab-bar-state");
}
