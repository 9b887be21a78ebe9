# yahps

A verified core for a game relay/proxy server speaking the game's packet
protocol.

- `src/` is the library, checked by Verus:
  - `packet_type`: the packet kinds and their numeric codes;
  - `wire`: big-endian numbers and length-prefixed strings as byte sequences;
  - `packet`: packets, the network and game framings, a stream reader of
    network frames, and the builder and reader of packet bodies;
  - `addr`, `server`: socket addresses, connection targets, the server's
    configuration and what its connection tasks do on each event;
  - `relay`: the relay service's connections, rooms and players, and its
    handling of a connection's first packets;
  - `proxy`, `reverse_proxy`: the decisions of the two proxy services;
  - `error`: the error types;
  - `outside`: the trusted declarations of the `bytes`, `byteorder`,
    `dashmap`, `num_cpus` and std items that the library calls.
- `app/` is the program: the async server on tokio, packet I/O on streams, and
  the two proxy services wired into it.
- `tests/` runs the library on concrete values.
