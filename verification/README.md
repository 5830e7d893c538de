# pve-yew-mobile

The decision logic of a mobile Proxmox VE client, verified with Verus: what
each page requests, how it reacts to answers and user events, and what it
shows. Drawing the pages is left to the front end; `app/` holds a small
command-line front end that prints what the pages would show for API answers
saved as JSON.

Layout of `src/`:

- `text`, `sort`, `urls`: decimal text, substring search and text order; a
  stable sort with its laws; percent-encoded API paths.
- `resources`, `dashboard`: the resource list (filter, order, tiles) and the
  dashboard (subscription check, counts, totals, links).
- `upid`, `tasks_panel`, `task_status`, `task_list_button`, `task_pages`:
  the task id format, task lists, the task status page and the button that
  follows a running task.
- `guest`, `qemu_dashboard`, `lxc_dashboard`, `vm_status_page`,
  `guest_config`, `hardware`, `disk_dialogs`, `backup`: guest pages.
- `node_dashboard`, `node_services`, `node_updates`, `status_pages`: node
  pages and the tabbed status pages.
- `properties`, `property_list`, `edit_dialog`: configuration values, the
  property lists (including pending changes) and the edit dialog.
- `storage_content`, `volume_action_dialog`, `navigation`: storage content,
  the dialog of a selected volume, and the page frame.

Each page is a state machine: `update` takes an event and returns the
request or timer the front end has to run; its contract states the new state
and the request exactly.
