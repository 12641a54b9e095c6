# herald

The decisions of a herald instance, verified with Verus.

- `src/logging.rs`: the rotating log file.
- `src/hooks/file_logging.rs`: the hook that logs what an agent's runtime does.
- `src/federation/discovery.rs`: announcing an instance and finding others.
- `src/federation/api.rs`: the HTTP API for peers.
- `src/federation/manager.rs`: starting, stopping and restarting federation.
- `src/federation/tool.rs`: delegating a task to an agent of another instance.
- `src/text.rs`: text, over sequences of characters.
- `src/outside.rs`: what is believed of other crates.

`app/` holds the files, sockets, clocks and tasks around these decisions. The peer
registry, the client of the peers' API and the federation service come to it through the
traits of `app/federation.rs`.
