//! Decision logic of a mobile Proxmox VE client: resource filtering and
//! ordering, dashboard summaries, task and guest state handling, pending
//! configuration bookkeeping and the API paths the pages request.

pub mod backup;
pub mod dashboard;
pub mod disk_dialogs;
pub mod edit_dialog;
pub mod guest;
pub mod guest_config;
pub mod hardware;
pub mod lxc_dashboard;
pub mod navigation;
pub mod node_dashboard;
pub mod node_services;
pub mod node_updates;
pub mod properties;
pub mod property_list;
pub mod qemu_dashboard;
pub mod resources;
pub mod sort;
pub mod status_pages;
pub mod storage_content;
pub mod task_list_button;
pub mod task_pages;
pub mod task_status;
pub mod tasks_panel;
pub mod text;
pub mod upid;
pub mod urls;
pub mod vm_status_page;
pub mod volume_action_dialog;
