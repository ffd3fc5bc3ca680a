# srt_transport

SRT (Secure Reliable Transport) on top of libsrt, with the rules of the transport
verified by Verus.

- `src/` is the verified library. It holds the protocol's data types
  (configuration, statistics, errors, Stream IDs, packet filters, addresses), the
  socket options that a configuration asks for, the rules of the I/O thread that
  makes all calls into libsrt (`epoll_bridge`), and the flows that set up sockets,
  listeners and groups. It performs no I/O: its functions say which calls and
  effects are due, and go on from what came of them.
- `app/` runs the library: libsrt's C API on the I/O thread, tokio channels
  between the thread and asynchronous callers.
- `tests/` run the library on concrete values.

Laws that span several functions are public proof functions whose names begin with
`law_`. Those of the I/O thread stand in `src/epoll_bridge/laws.rs`.
