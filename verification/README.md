# wascc_provider

A Krustlet provider that runs waSCC / wasmCloud actors, the wasmCloud logging
capability provider, and three demo actors, with their decisions verified by
Verus.

- `src/` is the verified library:
  - `registry` — the table of values by textual key that the provider keeps
    its pods, containers, modules, loggers and string settings in;
  - `provider` — which pods the provider accepts, how pods are keyed, found
    for their logs and removed, and which capabilities an actor gets;
  - `startup` — the order in which a pod's containers are started;
  - `logging` — how the logging provider answers each call from the host or
    an actor, with the message-pack codec calls behind trusted wrappers;
  - `actors` — the request handling of the `greet`, `uppercase` and
    `fileserver` actors;
  - `text` — comparing strings.
- `app/` is the runtime around it: the kubelet `Provider`, the waSCC host
  calls, the logging provider's file output and the actors' host bindings.
- `tests/` runs the library on concrete inputs.

`app/` is written against the waSCC host crate (`wascc-host`), whose `host`
functions load, configure and remove actors. That crate is not among the
dependencies: no version of it could be resolved and built together with the
others, so `app/wascc.rs` does not build until it is added. The `rmp` line in
`Cargo.toml` holds that crate at 0.8.10, the last release that
`rmp-serde` 0.15 (used by the wasmCloud interface crates) compiles against.
The three demo actors share the `app` crate; each is a wasm module of its
own, whose entry point calls the actor's `init`.
