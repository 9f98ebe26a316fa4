//! A replay-able CUDA graph and the stream it was captured on.
//!
//! A [`CudaGraph`] owns two driver handles: the captured `CUgraph` and the
//! `CUgraphExec` instantiated from it. It is not thread safe: graph objects are
//! not internally synchronized, and calls on one graph must be serialized.
use vstd::prelude::*;
use crate::call::BoundCall;
use crate::capture::EndCapture;
use crate::driver::DriverCall;
use crate::node_types::{NodeTypes, NodeTypesState};
use crate::recapture::Recapture;
use crate::teardown::Teardown;

verus! {

/// A CUDA stream, known by its `CUstream` handle.
#[derive(Clone, Copy, Debug, PartialEq, Eq, Structural)]
pub struct CudaStream {
    pub(crate) cu_stream: u64,
}

impl View for CudaStream {
    type V = u64;

    open(crate) spec fn view(&self) -> u64 {
        self.cu_stream
    }
}

impl CudaStream {
    /// The stream with the given `CUstream` handle.
    pub fn new(cu_stream: u64) -> (s: CudaStream)
        ensures
            s@ == cu_stream,
    {
        CudaStream { cu_stream }
    }

    /// The underlying `CUstream` handle.
    pub fn cu_stream(&self) -> (h: u64)
        ensures
            h == self@,
    {
        self.cu_stream
    }

    /// Begins capturing the work issued on this stream, in capture `mode`
    /// (a `CUstreamCaptureMode`): binds the context, then `cuStreamBeginCapture`.
    /// Its result is read with `call::completion`.
    pub fn begin_capture(&self, mode: u32) -> (r: BoundCall)
        ensures
            r == BoundCall::start(DriverCall::BeginCapture { stream: self@, mode }),
    {
        BoundCall::new(DriverCall::BeginCapture { stream: self.cu_stream, mode })
    }

    /// Ends the capture on this stream and instantiates the captured graph with
    /// `flags` (`CUgraphInstantiate_flags`): `None` when capture ended without a
    /// graph, otherwise the new [`CudaGraph`], which replays on this stream.
    pub fn end_capture(&self, flags: u64) -> (r: EndCapture)
        ensures
            r == EndCapture::start(*self, flags),
    {
        EndCapture::new(*self, flags)
    }

    /// Asks whether this stream is capturing: binds the context, then
    /// `cuStreamIsCapturing`. Its result is read with `call::capture_status_of`.
    pub fn capture_status(&self) -> (r: BoundCall)
        ensures
            r == BoundCall::start(DriverCall::CaptureStatus { stream: self@ }),
    {
        BoundCall::new(DriverCall::CaptureStatus { stream: self.cu_stream })
    }
}

/// A replay-able CUDA graph: the captured `CUgraph`, the `CUgraphExec`
/// instantiated from it, and the stream it replays on. Created by
/// `CudaStream::end_capture`; replayed with `CudaGraph::launch`.
#[derive(Debug)]
pub struct CudaGraph {
    pub(crate) cu_graph: u64,
    pub(crate) cu_graph_exec: u64,
    pub(crate) stream: CudaStream,
}

/// The handles a [`CudaGraph`] holds: its `CUgraph`, its `CUgraphExec` and its
/// stream's `CUstream`.
#[derive(Clone, Copy, Debug, PartialEq, Eq, Structural)]
pub struct GraphHandles {
    pub graph: u64,
    pub graph_exec: u64,
    pub stream: u64,
}

impl View for CudaGraph {
    type V = GraphHandles;

    open(crate) spec fn view(&self) -> GraphHandles {
        GraphHandles { graph: self.cu_graph, graph_exec: self.cu_graph_exec, stream: self.stream.cu_stream }
    }
}

impl CudaGraph {
    /// The graph that holds the given handles.
    pub open(crate) spec fn holding(cu_graph: u64, cu_graph_exec: u64, stream: CudaStream) -> CudaGraph {
        CudaGraph { cu_graph, cu_graph_exec, stream }
    }

    /// The underlying `CUgraph`. The graph still owns it: it must not be destroyed.
    pub fn cu_graph(&self) -> (h: u64)
        ensures
            h == self@.graph,
    {
        self.cu_graph
    }

    /// The underlying `CUgraphExec`. The graph still owns it: it must not be destroyed.
    pub fn cu_graph_exec(&self) -> (h: u64)
        ensures
            h == self@.graph_exec,
    {
        self.cu_graph_exec
    }

    /// Replays the graph on its stream: binds the context, then `cuGraphLaunch`.
    /// Its result is read with `call::completion`.
    pub fn launch(&self) -> (r: BoundCall)
        ensures
            r == BoundCall::start(DriverCall::Launch { graph_exec: self@.graph_exec, stream: self@.stream }),
    {
        BoundCall::new(DriverCall::Launch { graph_exec: self.cu_graph_exec, stream: self.stream.cu_stream })
    }

    /// Pre-uploads the graph's resources to the device, so that the first launch
    /// does not pay the setup: binds the context, then `cuGraphUpload`. Its result
    /// is read with `call::completion`.
    pub fn upload(&self) -> (r: BoundCall)
        ensures
            r == BoundCall::start(DriverCall::Upload { graph_exec: self@.graph_exec, stream: self@.stream }),
    {
        BoundCall::new(DriverCall::Upload { graph_exec: self.cu_graph_exec, stream: self.stream.cu_stream })
    }

    /// The number of nodes in the captured graph: binds the context, then
    /// `cuGraphGetNodes` with a null array. Its result is read with
    /// `call::node_count_of`.
    pub fn num_nodes(&self) -> (r: BoundCall)
        ensures
            r == BoundCall::start(DriverCall::CountNodes { graph: self@.graph }),
    {
        BoundCall::new(DriverCall::CountNodes { graph: self.cu_graph })
    }

    /// Enumerates the graph's nodes, up to `cap` node handles: binds the context,
    /// then `cuGraphGetNodes` into an array of `cap` null handles. Pass `cap` from
    /// `num_nodes` to get all of them. Its result is read with `call::nodes_of`.
    pub fn nodes(&self, cap: usize) -> (r: BoundCall)
        ensures
            r == BoundCall::start(DriverCall::GetNodes { graph: self@.graph, cap }),
    {
        BoundCall::new(DriverCall::GetNodes { graph: self.cu_graph, cap })
    }

    /// The node type of each of `nodes` (as enumerated by `nodes`), in that order,
    /// so that the caller can pick out the kernel nodes to patch.
    pub fn node_types(&self, nodes: &[u64]) -> (r: NodeTypes)
        ensures
            r@ == NodeTypesState::start(nodes@),
    {
        let mut copy: Vec<u64> = Vec::new();
        let mut i: usize = 0;
        while i < nodes.len()
            invariant
                i <= nodes.len(),
                copy@ == nodes@.take(i as int),
            decreases nodes.len() - i,
        {
            copy.push(nodes[i]);
            i = i + 1;
            assert(copy@ =~= nodes@.take(i as int));
        }
        assert(copy@ =~= nodes@);
        NodeTypes::new(copy)
    }

    /// Reads the current parameters of kernel node `node` (function handle,
    /// grid and block, argument buffer) into the `CUDA_KERNEL_NODE_PARAMS` at
    /// address `params`: binds the context, then `cuGraphKernelNodeGetParams`.
    /// The runner must be handed a writable `CUDA_KERNEL_NODE_PARAMS`; the
    /// argument pointers written are owned by the captured graph. Its result is
    /// read with `call::completion`.
    pub fn kernel_node_get_params(&self, node: u64, params: u64) -> (r: BoundCall)
        ensures
            r == BoundCall::start(DriverCall::KernelNodeGetParams { node, params }),
    {
        BoundCall::new(DriverCall::KernelNodeGetParams { node, params })
    }

    /// Updates the parameters of kernel node `node` in this graph's executable
    /// graph in place (no re-instantiation, no re-capture) from the
    /// `CUDA_KERNEL_NODE_PARAMS` at address `params`: binds the context, then
    /// `cuGraphExecKernelNodeSetParams`. `node` must be a kernel node from
    /// `nodes`, and the parameters must describe the same kernel (same function
    /// handle, grid and block); only the argument values may change. The graph's
    /// handles stay as they are. Its result is read with `call::completion`.
    pub fn exec_kernel_node_set_params(&self, node: u64, params: u64) -> (r: BoundCall)
        ensures
            r == BoundCall::start(
                DriverCall::ExecKernelNodeSetParams { graph_exec: self@.graph_exec, node, params },
            ),
    {
        BoundCall::new(DriverCall::ExecKernelNodeSetParams { graph_exec: self.cu_graph_exec, node, params })
    }

    /// Releases the graph's handles: what `Drop` does. See [`Teardown`].
    pub fn teardown(self) -> (r: Teardown)
        ensures
            r == Teardown::of(self),
    {
        Teardown::new(self)
    }

    /// Re-captures the stream into a fresh `CUgraph` and patches this graph's
    /// executable in place with `cuGraphExecUpdate`, falling back to a fresh
    /// instantiation when the structural difference prevents the update. The
    /// capture must have been begun on the graph's stream. Reported through
    /// `recapture::updated_in_place`: `Ok(true)` for the in-place update,
    /// `Ok(false)` when the graph had to be re-instantiated.
    pub fn end_capture_and_update(self) -> (r: Recapture)
        ensures
            r == Recapture::start(self),
    {
        Recapture::new(self)
    }

    /// Like `end_capture_and_update`, reporting the outcome as an
    /// [`UpdateOutcome`]: `Updated` for the cheap in-place update (the previous
    /// instantiation lives on), `Reinstantiated` when the stale executable graph
    /// was destroyed and a fresh one instantiated from the new captured graph.
    pub fn end_capture_or_reinstantiate(self) -> (r: Recapture)
        ensures
            r == Recapture::start(self),
    {
        Recapture::new(self)
    }

    /// The stream the graph replays on.
    pub fn stream(&self) -> (s: CudaStream)
        ensures
            s@ == self@.stream,
    {
        self.stream
    }
}

/// How a re-capture replaced the executable graph: by the cheap in-place update
/// (the previous instantiation lives on), or by a full re-instantiation.
#[derive(Clone, Copy, Debug, PartialEq, Eq, Structural)]
pub enum UpdateOutcome {
    Updated,
    Reinstantiated,
}

} // verus!
