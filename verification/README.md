# vsock

A virtio-vsock device for virtual machines, and the backends that connect guest sockets to Unix
domain sockets on the host. The library in `src/` is verified with Verus. It never touches a file
descriptor or guest memory: it says what is to be done, and is told of the outcome.

- `packet`, `desc`: packets, and the descriptor chains that they come from
- `queue`: the queues that the driver makes such chains available on
- `unix`: the Unix domain sockets backend, with flow control
  - `connection`, `txbuf`: one connection, and its buffer of data that the host has yet to take;
    the model is in `conn_model`, and what connections promise is in `conn_laws`
  - `muxer`: the connection multiplexer; the model is in `model`, what every operation keeps is in
    `inv`, and what the guest and the host are promised is in `laws`
  - `muxer_rxq`, `muxer_killq`: queues that synchronize with the pool of connections
- `channel`: what a device asks of its backend
- `virtio`, `device`, `epoll_handler`: the device, and the handler of its events
- `copying`: a simpler device, that copies packets in and out of guest memory

`app/` holds the host I/O around the library: sockets, epoll and event descriptors. Of the outside
crates, the library calls `epoll` for sets of events, and `byteorder` for the configuration space;
the trusted wrappers of those calls are in `events` and `virtio`.
