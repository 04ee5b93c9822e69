# toshi

The decision-making core of the Toshi search server, verified with Verus.

- `src/router.rs`: query-string flags and the choice of handler for a request.
- `src/handlers/bulk.rs`: splitting a chunked bulk body into document lines,
  with the laws that the split is unique and does not depend on chunking.
- `src/handlers/root.rs`: the server's name and version.
- `src/cluster/`: cluster errors and their messages, the node id written at
  start-up (through the `uuid` crate), and remote-index identity, client
  choice (through `rand`) and deletion counts.
- `app/`: the I/O around the library: node-id files, HTTP answers, reading
  bulk bodies into channels, calls to other nodes, and the serde/failure
  copies of library types.
