# bevy_octopus

A low-level, ECS-driven network plugin for Bevy (UDP, TCP and websocket
nodes, channels, and message transformers), whose decisions are verified
with Verus.

## Layout

- `src/` — the verified library:
  - `network_node.rs`: raw packets, node events, the running state that the
    events drive, and the node's send queue;
  - `channels.rs`: channel ids, and the choice of the nodes that a channel
    packet goes to: exactly the nodes of its channel, each once, in order.
    The packet is then handed to each chosen node's send queue; what the
    queue does with it is up to the channel library and is not stated;
  - `client.rs`: the reconnect policy of client nodes;
  - `transformer.rs`: the registry of (message type, transformer) pairs and
    their channels, and what becomes of encoding and decoding results;
  - `transports.rs`: what the transports decide between reads and writes
    (retry policy of UDP sends, packets from TCP reads and UDP datagrams,
    websocket frames, the address part of an address text);
  - `network.rs`: URL endpoints (`ListenTo`, `ConnectTo`);
  - `addr_text.rs`: the text of socket addresses (IPv4, IPv6, scope, port),
    used by the debug text of raw packets;
  - `error.rs`, `shared.rs`, `event.rs`, `payload.rs`: errors, connection ids,
    frame stages and byte buffers.
- `app/` — the Bevy plugin around the library: components, systems,
  observers and the async socket tasks, which perform the I/O and hand plain
  values to the library.
- `tests/` — tests of the library on concrete values.
