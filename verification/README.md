# ttsync

TT-Sync is a remote synchronization server for TauriTavern data: a single
program that serves a workspace folder over TLS with SPKI pinning, pairs
devices by a `tauritavern://tt-sync/pair?...` link or QR code, and lets each
paired device pull or push the data set under per-device permissions.

## Layout

- `src/` is the library, written in Verus and verified. It holds the data
  model of the sync contract (paths, device ids, permissions, manifests,
  plans, sessions, the canonical request that devices sign, pair links), the
  bundle framing and the transfer scheduling of the client engine, the
  command-line rules (argument checks, durations, config and state paths,
  user service plans for systemd, LaunchAgent and Task Scheduler), the
  reports the commands print, and the terminal interface as state machines
  and text views.
- `app/` is the program around it: argument parsing, files, the network
  server and client, process spawning for the service managers, and drawing
  the views in the terminal.
- `tests/` runs the library on concrete values.

## Verifying

The library is checked with Verus; the public proof functions (`lemma_*`)
state the laws that hold across calls, such as that a canonical request or a
pair link reads back as written, that a bundle frame header decodes to what
was encoded, and that the transfer scheduler completes every planned file.
