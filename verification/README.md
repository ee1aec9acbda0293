# bpfx

Typed process, file, memory and network events of a Linux kernel, as a library
that is verified with Verus.

A probe in the kernel makes a record of what it sees. The record crosses to user
space as bytes, becomes an event there, and goes to the subscriber whose filter
asked for it. The library holds every decision on that way, and proves among
other things that

- an event says what its record says, and reading bytes gives back the record
  that was written;
- the probes that are attached for a filter let through the tasks, operations and
  file types that it asks for, and no others reach the subscriber by them;
- the event of a record is handed, once, to the channel of the subscription of its
  kind, and one record goes to one subscriber at most;
- a rename is one event, with the names of its start and the result of its end.

## Layout

- `src/raw.rs`, `src/wire.rs`: kernel records and their bytes
- `src/probe.rs`: what the kernel probes record and what they leave out
- `src/attach.rs`: which maps to write and which probes to attach for a filter
- `src/convert.rs`, `src/rename.rs`: from bytes to events
- `src/handoff.rs`, `src/runtime.rs`: subscriptions and the turns of the event loop
- `src/process.rs`, `src/file.rs`, `src/memory.rs`, `src/network.rs`,
  `src/common.rs`, `src/ip.rs`, `src/text.rs`, `src/mask.rs`: events, filters and
  their text forms
- `src/error.rs`: errors
- `src/laws.rs`: what holds from the probe to the subscriber
- `app/`: loading and attaching with `aya`, streams, and the kernel programs

Events are printed with `to_string`. Masks and filters are made by functions such
as `FileMask::open()` and `ProcessFilter::all()`, and combined with `|`.

```rust
let filter = ProcessFilter { filter: FilterKey::Pid(1234), ..ProcessFilter::all() };
```
