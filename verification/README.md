# mocknet

The verified core of a network emulation controller, written in Verus.

- `src/algo`: topology graphs (an undirected graph of nodes and edges, an
  in-memory graph keyed by client ids with its edges kept sorted), the
  traits a partitioner works with, and the assignment of clusters to bins.
- `src/command`: the command lines that set up network namespaces, veth
  pairs, bridges, VXLAN ports and containers.
- `src/database`, `src/database_new`: the bookkeeping of the connection to
  the graph database, the requests it serves (users, emulation networks,
  topology records), and the wire form of its queries, written and read.
- `src/mock_server.rs`: a stand-in server that hands out pods.
- `src/cli.rs`, `src/config_directive.rs`, `src/decimal.rs`: command-line
  arguments, configuration lines, and decimal numbers.

`app/` holds what Verus does not check: the argument parser, processes,
asynchronous tasks and JSON records. `tests/` runs the library on concrete
values.
