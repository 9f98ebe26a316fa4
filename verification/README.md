# cudarc_graph

Capture, replay and in-place update of CUDA graphs, with the decisions verified
in Verus.

Every operation on a graph is a state machine in `src/`: it names the next CUDA
driver call it needs (`driver::DriverCall`), is handed the driver's status and
out-parameters (`driver::DriverReply`), and decides what comes next until it
holds its result. `protocol` defines running an operation over a sequence of
replies; the laws of each operation are proved over such runs.

- `graph`: `CudaStream`, `CudaGraph`, `UpdateOutcome`, and the methods that start
  each operation.
- `capture`: ending a capture and instantiating the captured graph.
- `recapture`: re-capturing into an existing graph, updating its executable
  graph in place or re-instantiating it.
- `call`: operations that bind the context and make one call (begin capture,
  capture status, launch, upload, node count, node enumeration, reading and
  setting kernel node parameters).
- `node_types`: the type of each node, in order.
- `teardown`: releasing a graph's handles when it is dropped.

`app/` makes the driver calls: it declares the CUDA driver entry points, runs
each operation to its end, and offers the graph and stream types with the usual
methods.
