# neo4r_server

The server of a sharded graph database: command line and configuration, the native protocol with
its sessions, cursors and transactions, commits over several servers, replication and gossip, and
the web console.

- `src/` is the library: every decision that the server makes, as functions on plain values with
  contracts that Verus proves. Where a decision needs to know something of the storage, of another
  server, of the clock or of a file, the function takes it as an argument; where something has to
  be done outside, the function returns what.
- `app/` is the program around it: sockets, threads, files and TLS. The storage engine, the codec
  of the native protocol and the stores of the console stand behind the traits in
  `app/engine.rs`.
- `tests/` runs the library on concrete values.

The library calls `rustls-pemfile` and `rustls` for keys, certificates and names of servers
(`src/pem.rs`).
