# gadu

An event-driven TCP / unix-socket / TLS server toolkit.

- `src/` is the verified library: settings and their defaults, the endpoint
  that a URL names, connection state (buffers, flags, tags) and how it takes
  in the outcome of reads, writes and TLS handshake steps, TLS peer
  validation and acceptor set-up steps, the event-loop bookkeeping
  (registration interest, taking up and ending events, message routing) and
  round-robin distribution of connections over threads.
- `app/` runs it: sockets and polling (`mio`, `mio-uds`), TLS (`openssl`),
  threads (`crossbeam`, `parking_lot`), logging and JSON settings files.
- `tests/` exercises the library.
