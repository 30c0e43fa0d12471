# nativephp_tauri

The Rust side of NativePHP's Tauri driver: it starts the PHP server as a
sidecar, serves the native API that the PHP application calls, and turns
menu and window requests into native ones.

- `src/` is the library, verified with Verus: the sidecar's launch and
  process lifecycle (`php`), ports and addresses (`ports`), the API routes
  and child-process answers (`api`), window plans and reports (`window`),
  the menu translation (`menu`), the boot announcement with its retries
  (`boot`), string routines (`text`) and the properties that tie them
  together (`laws`).
- `app/` is the Tauri program around it: it reads the environment, spawns
  the sidecar, runs the HTTP server and talks to the windowing system.
- `tests/` exercises the library on concrete values.
