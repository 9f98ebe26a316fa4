//! The vocabulary shared by every operation on a graph: the driver calls an
//! operation asks for, the replies the driver gives back, and the error type.
//!
//! Every CUDA driver entry point returns a `CUresult` status and writes its
//! results through out-parameters. A [`DriverReply`] carries exactly that: the
//! status, the scalar out-parameter, and the node array that node enumeration
//! fills.
use vstd::prelude::*;

verus! {

/// `CUDA_SUCCESS`: the status of a driver call that succeeded.
pub const CUDA_SUCCESS: u32 = 0;

/// `CUDA_ERROR_INVALID_VALUE`: the status reported when capture ended without a graph.
pub const CUDA_ERROR_INVALID_VALUE: u32 = 1;

/// `CU_GRAPH_EXEC_UPDATE_SUCCESS`: the update result of an in-place update that succeeded.
pub const CU_GRAPH_EXEC_UPDATE_SUCCESS: u64 = 0;

/// The null handle (a null `CUgraph`, `CUgraphExec` or `CUgraphNode`).
pub const NULL_HANDLE: u64 = 0;

/// The instantiate flags used when a graph is re-instantiated: none.
pub const DEFAULT_INSTANTIATE_FLAGS: u64 = 0;

/// A failed driver call, holding the `CUresult` status it returned.
#[derive(Clone, Copy, Debug, PartialEq, Eq, Structural)]
pub struct DriverError(pub u32);

/// What a status means: success, or the error that carries it.
pub open spec fn status_result(status: u32) -> Result<(), DriverError> {
    if status == CUDA_SUCCESS {
        Ok(())
    } else {
        Err(DriverError(status))
    }
}

/// Turns a `CUresult` status into a `Result`.
pub fn check(status: u32) -> (r: Result<(), DriverError>)
    ensures
        r == status_result(status),
{
    if status == CUDA_SUCCESS {
        Ok(())
    } else {
        Err(DriverError(status))
    }
}

/// A status means success exactly when it is `CUDA_SUCCESS`; any other status is
/// an error that carries that status unchanged.
pub proof fn law_status_result(status: u32)
    ensures
        (status_result(status) is Ok) <==> status == CUDA_SUCCESS,
        status != CUDA_SUCCESS ==> status_result(status) == Err::<(), DriverError>(DriverError(status)),
{
}

/// One call into the CUDA driver that an operation asks its runner to make.
/// Handles are carried as integers; `NULL_HANDLE` is the null pointer.
#[derive(Clone, Copy, Debug, PartialEq, Eq, Structural)]
pub enum DriverCall {
    /// Make the stream's context current on the calling thread.
    BindContext,
    /// `cuStreamBeginCapture` on `stream` with the capture `mode`.
    BeginCapture { stream: u64, mode: u32 },
    /// `cuStreamIsCapturing` on `stream`; the out-parameter is the capture status.
    CaptureStatus { stream: u64 },
    /// `cuStreamEndCapture` on `stream`; the out-parameter is the captured graph.
    EndCapture { stream: u64 },
    /// `cuGraphInstantiateWithFlags`; the out-parameter is the executable graph.
    Instantiate { graph: u64, flags: u64 },
    /// `cuGraphLaunch` of `graph_exec` on `stream`.
    Launch { graph_exec: u64, stream: u64 },
    /// `cuGraphUpload` of `graph_exec` on `stream`.
    Upload { graph_exec: u64, stream: u64 },
    /// `cuGraphGetNodes` with a null array; the out-parameter is the node count.
    CountNodes { graph: u64 },
    /// `cuGraphGetNodes` into an array of `cap` null handles; the out-parameter is
    /// the count the driver reports, the array comes back in the reply's `nodes`.
    GetNodes { graph: u64, cap: usize },
    /// `cuGraphNodeGetType`; the out-parameter is the node type.
    NodeType { node: u64 },
    /// `cuGraphKernelNodeGetParams` of `node`, written to the
    /// `CUDA_KERNEL_NODE_PARAMS` at address `params`.
    KernelNodeGetParams { node: u64, params: u64 },
    /// `cuGraphExecKernelNodeSetParams` of `node` in `graph_exec`, from the
    /// `CUDA_KERNEL_NODE_PARAMS` at address `params`.
    ExecKernelNodeSetParams { graph_exec: u64, node: u64, params: u64 },
    /// `cuGraphExecUpdate` of `graph_exec` from `graph`; the out-parameter is the update result.
    ExecUpdate { graph_exec: u64, graph: u64 },
    /// `cuGraphDestroy`.
    DestroyGraph { graph: u64 },
    /// `cuGraphExecDestroy`.
    DestroyExec { graph_exec: u64 },
}

/// The driver's answer to a [`DriverCall`]: its `CUresult` status, its scalar
/// out-parameter (a handle, a count or an enum value; 0 where there is none),
/// and the node array a `GetNodes` call filled (empty for every other call).
#[derive(Debug)]
pub struct DriverReply {
    pub status: u32,
    pub out: u64,
    pub nodes: Vec<u64>,
}

/// Whether the driver reports that the call succeeded.
pub open spec fn succeeded(reply: DriverReply) -> bool {
    reply.status == CUDA_SUCCESS
}

impl DriverReply {
    /// A reply with a status and a scalar out-parameter.
    pub fn new(status: u32, out: u64) -> (r: DriverReply)
        ensures
            r.status == status,
            r.out == out,
            r.nodes@ == Seq::<u64>::empty(),
    {
        DriverReply { status, out, nodes: Vec::new() }
    }

    /// The reply to a `GetNodes` call: its status, the count it reported and the array.
    pub fn with_nodes(status: u32, count: u64, nodes: Vec<u64>) -> (r: DriverReply)
        ensures
            r.status == status,
            r.out == count,
            r.nodes == nodes,
    {
        DriverReply { status, out: count, nodes }
    }
}

} // verus!
