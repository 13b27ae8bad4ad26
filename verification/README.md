# luminarys-sdk

SDK for building Luminarys WASM skills, with its behaviour stated as Verus
contracts and proved.

## Layout

- `src/` — the verified library.
  - `types`, `value`, `http`, `fs`, `archive`, `cluster`, `system`, `llm`,
    `shell`, `tcp`, `ws`: the protocol types and the host calls. Each call
    builds the request the host expects, hands it to a transport function
    (its last argument), and turns the reply into the call's result; the
    contracts say which request goes out and what each reply gives.
  - `commands`: builders for the commands a handler returns.
  - `context`: request metadata and response annotations for handlers.
  - `entrypoint`: method descriptors, the handler registry and dispatch.
  - `abi`: the calling convention (packed results, allocation headers,
    which buffer a free releases, how a reply's error text is read).
  - `state`: versioned state envelopes.
- `tests/` — tests of the library on concrete values.
- `app/` — the WASM embedding: MessagePack copies of the wire types,
  the raw host imports, the thread-local registry behind the `skill_*`
  exports, and the host calls with their usual signatures.
