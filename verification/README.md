# clash_tiny

Clash Tiny is a macOS menu bar front end for the mihomo proxy core: it keeps the
core running, switches between the system proxy, the transparent (TUN) proxy and
no proxy, manages subscription profiles, and installs a small privileged helper
that starts the core as root for the transparent proxy.

The library in `src/` holds the application's logic, verified with Verus:

- `yaml`, `mapping`, `merge`, `merge_laws`, `merge_stable`: the configuration
  document model and the four-level merge of a profile with the override file,
  with its laws (among them that merging again with a well-formed override, one
  whose mappings repeat no key as in every parsed document, changes nothing).
  The document model keeps a mapping as a list of entries; well-formedness
  (`mapping::yaml_wf`) is the invariant that no key occurs twice.
- `text`, `escape`, `numfmt`: string operations, escaping for AppleScript and
  XML, file-safe profile names.
- `paths`, `profiles`, `locate`: where files live, the sorted profile list, where
  bundled resources are searched for.
- `helper`: the helper's request/response protocol and its command handling.
- `watchdog`, `modes`, `core_process`, `menu`, `state`: the health watchdog, proxy
  mode switching, core process decisions, menu routing and contents, and saved state.
- `netproxy`, `subscription`, `dialogs`: the `networksetup` commands, the
  add-subscription flow's checks, and the scripts shown to the user.

`app/` is the executable around it: the tray, file and network I/O, processes,
the helper daemon (the same binary, run with `--helper-daemon` or installed
under the helper's name), and serde conversions.
