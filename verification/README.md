# spdmlib

A verified library for parts of the Security Protocol and Data Model (SPDM): the
key update of a secure session on both sides, the capability exchange and the
choice of a mutual authentication mode on the side of the requester, and a trace of
what both sides do.

## Layout

- `src/` is the library. Every function carries its contract, and Verus proves it.
  - `protocol`, `message`, `codec`: versions, capabilities, messages and their bytes.
  - `session`, `common`: sessions with their secrets, and what a connection keeps.
  - `requester`, `responder`: the two sides.
  - `spdm_trace`, `trace_run`: the shadow state of both sides and the events, and what
    holds over any run of them.
  - `json`, `trace_harness`: the records of a trace, built with `serde_json`.
- `tests/` runs the library on concrete values.
- `app/` is ordinary Rust around it: sending and receiving, the one trace runtime of
  a process, and the file that a trace is written to.

## Outside the library

- The key schedule: functions that need new secrets take what was derived, or
  `None` where the derivation failed.
- The message buffers other than the transcript of the negotiation: a context queues
  the resets that their owner has to make.
- Error messages: the requester says which request and which answer one stands in
  for, and its caller handles it.
- Callbacks: events are queued, and the caller hands them over as soon as a step is
  done. Each event goes to the callback that is registered when its turn comes: the
  second event of a step follows what the callback of the first one did.

The only trusted items are in `src/json.rs`. Each names the function of `serde_json`
that it speaks of.
