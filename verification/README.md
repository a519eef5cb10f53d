# qcker

A daemonless, rootless container engine: containers run either as native
processes in their own namespaces or inside a micro-VM reached over vsock,
driven from a command line and a terminal dashboard.

## Layout

- `src/` is the engine's logic, written in Verus and checked against its
  contracts. The few functions whose answer is the file system's (whether a
  cached kernel or rootfs, or `/dev/kvm`, exists) state no result; the paths
  they ask about are fixed by functions with exact contracts. It holds the host/guest message
  framing, the run plan (namespaces, capabilities, read-only root, user,
  environment, mounts, ports), archive entry checks, identifiers and
  digests, the micro-VM boot and reply handling, the native back end's
  state changes, the port-forward table, the QEMU arguments, the command
  handlers' decisions and output lines, and the dashboard's state machine
  (keys, mouse, tabs, selection, prompts). Properties that span several
  calls are stated and proved as `law_*` proof functions.
- `tests/` runs the library on concrete values.
- `app/` is the program around it: argument parsing, files, processes,
  sockets, the terminal, JSON, and the figures kept in floating point.
