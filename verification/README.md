# Shifting Ghost

The decision logic of a packet-signal capture pipeline, written in Rust and
proved with Verus.

Kernel probes look at every packet. The signal probe turns admitted packets
into 64-byte frames; the tracing probes report packets, flagged flows and
`execve` calls as 48-byte events. In user space a capture engine drains the
signal ring, validates each frame and hands it on, and a loader brings the
tracing probes up and writes their maps.

## Layout

| Directory | Contents |
|---|---|
| `src/bytes.rs` | little- and big-endian integers in byte sequences |
| `src/common/` | records, shared sizes, traits between the stages |
| `src/arena/` | bump arena, packet ring, object pool |
| `src/probe/` | what the probes decide: hash, filter, verdicts, events |
| `src/loader/` | privileges, boot steps, event draining, map commands |
| `src/capture/` | frame validation, dispatch, counters, attach and detach steps |
| `tests/` | tests against the compiled library |
| `app/` | the `sg-capture` program, the loader, the probe entry points and the process-wide arena offset |

Everything under `src/` is verified. Clocks, kernel maps, rings and threads are
the caller's: `app/` performs the attempt that a step machine asks for, or the
lookup that a probe needs, and hands the answer back.

## Outside crates

`src/` calls three: `crossbeam-channel` for the dispatch channel, `arrayvec`
for a worker's batch and `caps` for the privilege query. What is taken on trust
of each call stands in the doc comment of the function that makes it.

Records are little-endian, as the probes' BPF target is; packet headers are in
network order. The records' cache-line alignment relies on `x86_64`.
