//! Re-capture into an existing [`CudaGraph`]: end the capture on the graph's
//! stream, then patch the executable graph in place with `cuGraphExecUpdate`,
//! or, where the structure changed too much for that, replace it with a fresh
//! instantiation of the newly captured graph.
use vstd::prelude::*;
use crate::driver::{
    DriverCall, DriverError, DriverReply, check, CUDA_SUCCESS, CUDA_ERROR_INVALID_VALUE,
    CU_GRAPH_EXEC_UPDATE_SUCCESS, NULL_HANDLE, DEFAULT_INSTANTIATE_FLAGS,
};
use crate::driver::succeeded;
use crate::capture::{EndCapture, EndCapturePhase, law_end_capture_instantiates};
use crate::graph::{CudaGraph, CudaStream, GraphHandles, UpdateOutcome};
use crate::protocol::{DriverProtocol, run, calls, lemma_finished_stays, lemma_unfold, lemma_stops};

verus! {

/// Where a re-capture stands: the driver call it waits on, with what it has
/// learnt so far.
#[derive(Debug)]
pub enum RecapturePhase {
    /// Waiting for the stream's context to be bound.
    Binding,
    /// Waiting for `cuStreamEndCapture`.
    Capturing,
    /// Waiting for the in-place update of the executable graph from `new_graph`.
    Updating { new_graph: u64 },
    /// The update succeeded; waiting for the old captured graph to be destroyed.
    ReleasingOldGraph { new_graph: u64 },
    /// The update failed; waiting for `new_graph` to be instantiated.
    Instantiating { new_graph: u64 },
    /// Instantiation failed with `error`; waiting for `new_graph` to be destroyed.
    DiscardingNewGraph { new_graph: u64, error: DriverError },
    /// Instantiation gave `new_exec`; waiting for the stale executable graph to be destroyed.
    ReleasingOldExec { new_graph: u64, new_exec: u64 },
    /// The new executable graph is in place; waiting for the old captured graph to be destroyed.
    ReleasingStaleGraph { new_graph: u64 },
    /// Done, with this result.
    Finished(Result<UpdateOutcome, DriverError>),
}

/// A re-capture in progress, holding the graph it updates.
#[derive(Debug)]
pub struct Recapture {
    pub(crate) graph: CudaGraph,
    pub(crate) phase: RecapturePhase,
}

impl Recapture {
    /// A re-capture of `graph` that has not made any call yet.
    pub open(crate) spec fn start(graph: CudaGraph) -> Recapture {
        Recapture { graph, phase: RecapturePhase::Binding }
    }

    /// The graph as the re-capture holds it now.
    pub open(crate) spec fn held(self) -> CudaGraph {
        self.graph
    }

    /// Where the re-capture stands.
    pub open(crate) spec fn stage(self) -> RecapturePhase {
        self.phase
    }

    /// Begins a re-capture of `graph`.
    pub fn new(graph: CudaGraph) -> (r: Recapture)
        ensures
            r == Recapture::start(graph),
    {
        Recapture { graph, phase: RecapturePhase::Binding }
    }

    /// The driver call the re-capture waits on; `None` once it has finished.
    pub fn pending(&self) -> (call: Option<DriverCall>)
        ensures
            call == self.due(),
    {
        match &self.phase {
            RecapturePhase::Binding => Some(DriverCall::BindContext),
            RecapturePhase::Capturing => Some(DriverCall::EndCapture { stream: self.graph.stream.cu_stream() }),
            RecapturePhase::Updating { new_graph } => Some(
                DriverCall::ExecUpdate { graph_exec: self.graph.cu_graph_exec, graph: *new_graph },
            ),
            RecapturePhase::ReleasingOldGraph { .. } => Some(
                DriverCall::DestroyGraph { graph: self.graph.cu_graph },
            ),
            RecapturePhase::Instantiating { new_graph } => Some(
                DriverCall::Instantiate { graph: *new_graph, flags: DEFAULT_INSTANTIATE_FLAGS },
            ),
            RecapturePhase::DiscardingNewGraph { new_graph, .. } => Some(
                DriverCall::DestroyGraph { graph: *new_graph },
            ),
            RecapturePhase::ReleasingOldExec { .. } => Some(
                DriverCall::DestroyExec { graph_exec: self.graph.cu_graph_exec },
            ),
            RecapturePhase::ReleasingStaleGraph { .. } => Some(
                DriverCall::DestroyGraph { graph: self.graph.cu_graph },
            ),
            RecapturePhase::Finished(_) => None,
        }
    }

    /// Hands the re-capture the driver's reply to the call it waited on.
    /// A finished re-capture ignores it.
    pub fn step(self, reply: DriverReply) -> (r: Recapture)
        ensures
            r == self.after(reply),
    {
        let status = reply.status;
        let out = reply.out;
        let graph = self.graph;
        match self.phase {
            RecapturePhase::Binding => match check(status) {
                Ok(()) => Recapture { graph, phase: RecapturePhase::Capturing },
                Err(e) => Recapture { graph, phase: RecapturePhase::Finished(Err(e)) },
            },
            RecapturePhase::Capturing => if status != CUDA_SUCCESS {
                Recapture { graph, phase: RecapturePhase::Finished(Err(DriverError(status))) }
            } else if out == NULL_HANDLE {
                Recapture {
                    graph,
                    phase: RecapturePhase::Finished(Err(DriverError(CUDA_ERROR_INVALID_VALUE))),
                }
            } else {
                Recapture { graph, phase: RecapturePhase::Updating { new_graph: out } }
            },
            RecapturePhase::Updating { new_graph } => if status == CUDA_SUCCESS && out
                == CU_GRAPH_EXEC_UPDATE_SUCCESS {
                Recapture { graph, phase: RecapturePhase::ReleasingOldGraph { new_graph } }
            } else {
                Recapture { graph, phase: RecapturePhase::Instantiating { new_graph } }
            },
            RecapturePhase::ReleasingOldGraph { new_graph } => match check(status) {
                Ok(()) => Recapture {
                    graph: CudaGraph { cu_graph: new_graph, ..graph },
                    phase: RecapturePhase::Finished(Ok(UpdateOutcome::Updated)),
                },
                Err(e) => Recapture { graph, phase: RecapturePhase::Finished(Err(e)) },
            },
            RecapturePhase::Instantiating { new_graph } => match check(status) {
                Ok(()) => Recapture {
                    graph,
                    phase: RecapturePhase::ReleasingOldExec { new_graph, new_exec: out },
                },
                Err(e) => Recapture {
                    graph,
                    phase: RecapturePhase::DiscardingNewGraph { new_graph, error: e },
                },
            },
            RecapturePhase::DiscardingNewGraph { error, .. } => Recapture {
                graph,
                phase: RecapturePhase::Finished(Err(error)),
            },
            RecapturePhase::ReleasingOldExec { new_graph, new_exec } => Recapture {
                graph: CudaGraph { cu_graph_exec: new_exec, ..graph },
                phase: RecapturePhase::ReleasingStaleGraph { new_graph },
            },
            RecapturePhase::ReleasingStaleGraph { new_graph } => Recapture {
                graph: CudaGraph { cu_graph: new_graph, ..graph },
                phase: RecapturePhase::Finished(Ok(UpdateOutcome::Reinstantiated)),
            },
            RecapturePhase::Finished(result) => Recapture {
                graph,
                phase: RecapturePhase::Finished(result),
            },
        }
    }

    /// Hands the graph back, with the re-capture's result once it has finished.
    pub fn into_parts(self) -> (r: (CudaGraph, Option<Result<UpdateOutcome, DriverError>>))
        ensures
            r.0 == self.held(),
            r.1 == (match self.stage() {
                RecapturePhase::Finished(result) => Some(result),
                _ => None,
            }),
    {
        match self.phase {
            RecapturePhase::Finished(result) => (self.graph, Some(result)),
            _ => (self.graph, None),
        }
    }
}

impl DriverProtocol for Recapture {
    /// The driver call the re-capture waits on, if it is not finished.
    open(crate) spec fn due(self) -> Option<DriverCall> {
        match self.phase {
            RecapturePhase::Binding => Some(DriverCall::BindContext),
            RecapturePhase::Capturing => Some(DriverCall::EndCapture { stream: self.graph.stream@ }),
            RecapturePhase::Updating { new_graph } => Some(
                DriverCall::ExecUpdate { graph_exec: self.graph.cu_graph_exec, graph: new_graph },
            ),
            RecapturePhase::ReleasingOldGraph { .. } => Some(
                DriverCall::DestroyGraph { graph: self.graph.cu_graph },
            ),
            RecapturePhase::Instantiating { new_graph } => Some(
                DriverCall::Instantiate { graph: new_graph, flags: DEFAULT_INSTANTIATE_FLAGS },
            ),
            RecapturePhase::DiscardingNewGraph { new_graph, .. } => Some(
                DriverCall::DestroyGraph { graph: new_graph },
            ),
            RecapturePhase::ReleasingOldExec { .. } => Some(
                DriverCall::DestroyExec { graph_exec: self.graph.cu_graph_exec },
            ),
            RecapturePhase::ReleasingStaleGraph { .. } => Some(
                DriverCall::DestroyGraph { graph: self.graph.cu_graph },
            ),
            RecapturePhase::Finished(_) => None,
        }
    }

    /// The re-capture after the driver answered the call it waited on.
    open(crate) spec fn after(self, reply: DriverReply) -> Recapture {
        let status = reply.status;
        let out = reply.out;
        match self.phase {
            RecapturePhase::Binding => if status == CUDA_SUCCESS {
                Recapture { phase: RecapturePhase::Capturing, ..self }
            } else {
                Recapture { phase: RecapturePhase::Finished(Err(DriverError(status))), ..self }
            },
            RecapturePhase::Capturing => if status != CUDA_SUCCESS {
                Recapture { phase: RecapturePhase::Finished(Err(DriverError(status))), ..self }
            } else if out == NULL_HANDLE {
                Recapture {
                    phase: RecapturePhase::Finished(Err(DriverError(CUDA_ERROR_INVALID_VALUE))),
                    ..self
                }
            } else {
                Recapture { phase: RecapturePhase::Updating { new_graph: out }, ..self }
            },
            RecapturePhase::Updating { new_graph } => if status == CUDA_SUCCESS && out
                == CU_GRAPH_EXEC_UPDATE_SUCCESS {
                Recapture { phase: RecapturePhase::ReleasingOldGraph { new_graph }, ..self }
            } else {
                Recapture { phase: RecapturePhase::Instantiating { new_graph }, ..self }
            },
            RecapturePhase::ReleasingOldGraph { new_graph } => if status == CUDA_SUCCESS {
                Recapture {
                    graph: CudaGraph { cu_graph: new_graph, ..self.graph },
                    phase: RecapturePhase::Finished(Ok(UpdateOutcome::Updated)),
                }
            } else {
                Recapture { phase: RecapturePhase::Finished(Err(DriverError(status))), ..self }
            },
            RecapturePhase::Instantiating { new_graph } => if status == CUDA_SUCCESS {
                Recapture {
                    phase: RecapturePhase::ReleasingOldExec { new_graph, new_exec: out },
                    ..self
                }
            } else {
                Recapture {
                    phase: RecapturePhase::DiscardingNewGraph {
                        new_graph,
                        error: DriverError(status),
                    },
                    ..self
                }
            },
            RecapturePhase::DiscardingNewGraph { error, .. } => Recapture {
                phase: RecapturePhase::Finished(Err(error)),
                ..self
            },
            RecapturePhase::ReleasingOldExec { new_graph, new_exec } => Recapture {
                graph: CudaGraph { cu_graph_exec: new_exec, ..self.graph },
                phase: RecapturePhase::ReleasingStaleGraph { new_graph },
            },
            RecapturePhase::ReleasingStaleGraph { new_graph } => Recapture {
                graph: CudaGraph { cu_graph: new_graph, ..self.graph },
                phase: RecapturePhase::Finished(Ok(UpdateOutcome::Reinstantiated)),
            },
            RecapturePhase::Finished(_) => self,
        }
    }

    proof fn lemma_idle(self, reply: DriverReply) {
    }
}

/// Whether a reply to `cuGraphExecUpdate` reports an update that succeeded:
/// the call succeeded and its update result is `CU_GRAPH_EXEC_UPDATE_SUCCESS`.
pub open spec fn update_succeeded(reply: DriverReply) -> bool {
    reply.status == CUDA_SUCCESS && reply.out == CU_GRAPH_EXEC_UPDATE_SUCCESS
}

/// The result of a re-capture as the in-place flag: `true` for an in-place
/// update, `false` for a re-instantiation.
pub open spec fn in_place_flag(result: Result<UpdateOutcome, DriverError>) -> Result<bool, DriverError> {
    match result {
        Ok(outcome) => Ok(outcome == UpdateOutcome::Updated),
        Err(e) => Err(e),
    }
}

/// The result of a re-capture, reported as the in-place flag: `true` when the
/// executable graph was updated in place, `false` when it was re-instantiated.
pub fn updated_in_place(result: Result<UpdateOutcome, DriverError>) -> (r: Result<bool, DriverError>)
    ensures
        r == in_place_flag(result),
{
    match result {
        Ok(UpdateOutcome::Updated) => Ok(true),
        Ok(UpdateOutcome::Reinstantiated) => Ok(false),
        Err(e) => Err(e),
    }
}

/// Every fact the laws below state about a re-capture of `g` fed `replies`,
/// proved by following the re-capture reply by reply.
proof fn lemma_recapture_trace(g: CudaGraph, replies: Seq<DriverReply>)
    ensures
        ({
            let m = run(Recapture::start(g), replies);
            let calls = calls(Recapture::start(g), replies);
            let r = replies;
            &&& r.len() >= 6 ==> m.phase is Finished
            &&& (m.phase == RecapturePhase::Finished(Ok(UpdateOutcome::Updated))) <==> (r.len()
                >= 4 && succeeded(r[0]) && succeeded(r[1]) && r[1].out != NULL_HANDLE
                && update_succeeded(r[2]) && succeeded(r[3]))
            &&& (m.phase == RecapturePhase::Finished(Ok(UpdateOutcome::Reinstantiated))) <==> (
            r.len() >= 6 && succeeded(r[0]) && succeeded(r[1]) && r[1].out != NULL_HANDLE
                && !update_succeeded(r[2]) && succeeded(r[3]))
            &&& m.phase == RecapturePhase::Finished(Ok(UpdateOutcome::Updated)) ==> {
                &&& m.graph == CudaGraph { cu_graph: r[1].out, ..g }
                &&& calls == seq![
                    DriverCall::BindContext,
                    DriverCall::EndCapture { stream: g.stream@ },
                    DriverCall::ExecUpdate { graph_exec: g.cu_graph_exec, graph: r[1].out },
                    DriverCall::DestroyGraph { graph: g.cu_graph },
                ]
            }
            &&& m.phase == RecapturePhase::Finished(Ok(UpdateOutcome::Reinstantiated)) ==> {
                &&& m.graph == CudaGraph { cu_graph: r[1].out, cu_graph_exec: r[3].out, ..g }
                &&& calls == seq![
                    DriverCall::BindContext,
                    DriverCall::EndCapture { stream: g.stream@ },
                    DriverCall::ExecUpdate { graph_exec: g.cu_graph_exec, graph: r[1].out },
                    DriverCall::Instantiate { graph: r[1].out, flags: DEFAULT_INSTANTIATE_FLAGS },
                    DriverCall::DestroyExec { graph_exec: g.cu_graph_exec },
                    DriverCall::DestroyGraph { graph: g.cu_graph },
                ]
            }
            &&& m.phase matches RecapturePhase::Finished(Err(e)) ==> {
                &&& m.graph == g
                &&& e == (if !succeeded(r[0]) {
                    DriverError(r[0].status)
                } else if !succeeded(r[1]) {
                    DriverError(r[1].status)
                } else if r[1].out == NULL_HANDLE {
                    DriverError(CUDA_ERROR_INVALID_VALUE)
                } else {
                    DriverError(r[3].status)
                })
                &&& calls == (if !succeeded(r[0]) {
                    seq![DriverCall::BindContext]
                } else if !succeeded(r[1]) || r[1].out == NULL_HANDLE {
                    seq![DriverCall::BindContext, DriverCall::EndCapture { stream: g.stream@ }]
                } else if update_succeeded(r[2]) {
                    seq![
                        DriverCall::BindContext,
                        DriverCall::EndCapture { stream: g.stream@ },
                        DriverCall::ExecUpdate { graph_exec: g.cu_graph_exec, graph: r[1].out },
                        DriverCall::DestroyGraph { graph: g.cu_graph },
                    ]
                } else {
                    seq![
                        DriverCall::BindContext,
                        DriverCall::EndCapture { stream: g.stream@ },
                        DriverCall::ExecUpdate { graph_exec: g.cu_graph_exec, graph: r[1].out },
                        DriverCall::Instantiate { graph: r[1].out, flags: DEFAULT_INSTANTIATE_FLAGS },
                        DriverCall::DestroyGraph { graph: r[1].out },
                    ]
                })
            }
        }),
{
    let r = replies;
    let m0 = Recapture::start(g);
    assert(r.skip(0) =~= r);
    if r.len() == 0 {
        lemma_stops(m0, r, 0);
        return;
    }
    lemma_unfold(m0, r, 0);
    let m1 = m0.after(r[0]);
    if !succeeded(r[0]) {
        lemma_finished_stays(m1, r.skip(1));
        return;
    }
    if r.len() == 1 {
        lemma_stops(m1, r, 1);
        return;
    }
    lemma_unfold(m1, r, 1);
    let m2 = m1.after(r[1]);
    if !succeeded(r[1]) || r[1].out == NULL_HANDLE {
        lemma_finished_stays(m2, r.skip(2));
        return;
    }
    if r.len() == 2 {
        lemma_stops(m2, r, 2);
        return;
    }
    lemma_unfold(m2, r, 2);
    let m3 = m2.after(r[2]);
    if r.len() == 3 {
        lemma_stops(m3, r, 3);
        return;
    }
    lemma_unfold(m3, r, 3);
    let m4 = m3.after(r[3]);
    if update_succeeded(r[2]) {
        lemma_finished_stays(m4, r.skip(4));
        return;
    }
    if r.len() == 4 {
        lemma_stops(m4, r, 4);
        return;
    }
    lemma_unfold(m4, r, 4);
    let m5 = m4.after(r[4]);
    if !succeeded(r[3]) {
        lemma_finished_stays(m5, r.skip(5));
        return;
    }
    if r.len() == 5 {
        lemma_stops(m5, r, 5);
        return;
    }
    lemma_unfold(m5, r, 5);
    let m6 = m5.after(r[5]);
    lemma_finished_stays(m6, r.skip(6));
}

/// A re-capture finishes within six driver calls.
pub proof fn law_recapture_finishes(graph: CudaGraph, replies: Seq<DriverReply>)
    requires
        replies.len() >= 6,
    ensures
        run(Recapture::start(graph), replies).stage() is Finished,
{
    lemma_recapture_trace(graph, replies);
}

/// The executable graph is updated in place exactly when the context was bound,
/// capture ended with a graph, `cuGraphExecUpdate` succeeded, and the old captured
/// graph was destroyed. The graph then holds the newly captured graph and keeps
/// its executable graph and stream, and the calls made were: bind, end capture,
/// update the executable graph from the new graph, destroy the old graph.
pub proof fn law_recapture_updates_in_place(graph: CudaGraph, replies: Seq<DriverReply>)
    ensures
        ({
            let m = run(Recapture::start(graph), replies);
            let r = replies;
            &&& (m.stage() == RecapturePhase::Finished(Ok(UpdateOutcome::Updated))) <==> (r.len()
                >= 4 && succeeded(r[0]) && succeeded(r[1]) && r[1].out != NULL_HANDLE
                && update_succeeded(r[2]) && succeeded(r[3]))
            &&& m.stage() == RecapturePhase::Finished(Ok(UpdateOutcome::Updated)) ==> {
                &&& m.held()@ == GraphHandles { graph: r[1].out, ..graph@ }
                &&& calls(Recapture::start(graph), r) == seq![
                    DriverCall::BindContext,
                    DriverCall::EndCapture { stream: graph@.stream },
                    DriverCall::ExecUpdate { graph_exec: graph@.graph_exec, graph: r[1].out },
                    DriverCall::DestroyGraph { graph: graph@.graph },
                ]
            }
        }),
{
    lemma_recapture_trace(graph, replies);
}

/// The graph is re-instantiated exactly when the context was bound, capture ended
/// with a graph, the in-place update did not succeed, and instantiating the new
/// graph with the default flags succeeded. The graph then holds the new captured
/// graph and the new executable graph on the same stream, and the calls made were:
/// bind, end capture, update, instantiate the new graph, destroy the stale
/// executable graph, destroy the old captured graph.
pub proof fn law_recapture_reinstantiates(graph: CudaGraph, replies: Seq<DriverReply>)
    ensures
        ({
            let m = run(Recapture::start(graph), replies);
            let r = replies;
            &&& (m.stage() == RecapturePhase::Finished(Ok(UpdateOutcome::Reinstantiated))) <==> (
            r.len() >= 6 && succeeded(r[0]) && succeeded(r[1]) && r[1].out != NULL_HANDLE
                && !update_succeeded(r[2]) && succeeded(r[3]))
            &&& m.stage() == RecapturePhase::Finished(Ok(UpdateOutcome::Reinstantiated)) ==> {
                &&& m.held()@ == GraphHandles { graph: r[1].out, graph_exec: r[3].out, ..graph@ }
                &&& calls(Recapture::start(graph), r) == seq![
                    DriverCall::BindContext,
                    DriverCall::EndCapture { stream: graph@.stream },
                    DriverCall::ExecUpdate { graph_exec: graph@.graph_exec, graph: r[1].out },
                    DriverCall::Instantiate { graph: r[1].out, flags: DEFAULT_INSTANTIATE_FLAGS },
                    DriverCall::DestroyExec { graph_exec: graph@.graph_exec },
                    DriverCall::DestroyGraph { graph: graph@.graph },
                ]
            }
        }),
{
    lemma_recapture_trace(graph, replies);
}

/// A re-capture that fails leaves the graph exactly as it was, and fails with the
/// status of the first call that failed: binding, ending capture (with
/// `CUDA_ERROR_INVALID_VALUE` when capture ended without a graph), destroying the
/// old graph after an in-place update, or instantiating the new graph. The calls
/// made stop at the one that failed, except that when instantiation fails the
/// newly captured graph is destroyed before the re-capture gives up.
pub proof fn law_failed_recapture_keeps_graph(graph: CudaGraph, replies: Seq<DriverReply>)
    ensures
        ({
            let m = run(Recapture::start(graph), replies);
            let r = replies;
            m.stage() matches RecapturePhase::Finished(Err(e)) ==> {
                &&& m.held()@ == graph@
                &&& e == (if !succeeded(r[0]) {
                    DriverError(r[0].status)
                } else if !succeeded(r[1]) {
                    DriverError(r[1].status)
                } else if r[1].out == NULL_HANDLE {
                    DriverError(CUDA_ERROR_INVALID_VALUE)
                } else {
                    DriverError(r[3].status)
                })
                &&& calls(Recapture::start(graph), r) == (if !succeeded(r[0]) {
                    seq![DriverCall::BindContext]
                } else if !succeeded(r[1]) || r[1].out == NULL_HANDLE {
                    seq![DriverCall::BindContext, DriverCall::EndCapture { stream: graph@.stream }]
                } else if update_succeeded(r[2]) {
                    seq![
                        DriverCall::BindContext,
                        DriverCall::EndCapture { stream: graph@.stream },
                        DriverCall::ExecUpdate { graph_exec: graph@.graph_exec, graph: r[1].out },
                        DriverCall::DestroyGraph { graph: graph@.graph },
                    ]
                } else {
                    seq![
                        DriverCall::BindContext,
                        DriverCall::EndCapture { stream: graph@.stream },
                        DriverCall::ExecUpdate { graph_exec: graph@.graph_exec, graph: r[1].out },
                        DriverCall::Instantiate { graph: r[1].out, flags: DEFAULT_INSTANTIATE_FLAGS },
                        DriverCall::DestroyGraph { graph: r[1].out },
                    ]
                })
            }
        }),
{
    lemma_recapture_trace(graph, replies);
}

/// The executable graph a graph holds is the one instantiated when its capture
/// ended; a re-capture that updates it in place or that fails keeps it, and a
/// re-capture that re-instantiates replaces it with the executable graph
/// instantiated from the new capture.
pub proof fn law_exec_handle_lifecycle(
    stream: CudaStream,
    flags: u64,
    first: Seq<DriverReply>,
    second: Seq<DriverReply>,
)
    ensures
        run(EndCapture::start(stream, flags), first).stage() matches EndCapturePhase::Finished(
            Ok(Some(g)),
        ) ==> {
            &&& g@.graph_exec == first[2].out
            &&& run(Recapture::start(g), second).stage() == RecapturePhase::Finished(
                Ok(UpdateOutcome::Updated),
            ) ==> run(Recapture::start(g), second).held()@.graph_exec == first[2].out
            &&& run(Recapture::start(g), second).stage() matches RecapturePhase::Finished(Err(_))
                ==> run(Recapture::start(g), second).held()@.graph_exec == first[2].out
            &&& run(Recapture::start(g), second).stage() == RecapturePhase::Finished(
                Ok(UpdateOutcome::Reinstantiated),
            ) ==> run(Recapture::start(g), second).held()@.graph_exec == second[3].out
        },
{
    law_end_capture_instantiates(stream, flags, first);
    match run(EndCapture::start(stream, flags), first).stage() {
        EndCapturePhase::Finished(Ok(Some(g))) => {
            lemma_recapture_trace(g, second);
        },
        _ => {},
    }
}

/// `end_capture_and_update` and `end_capture_or_reinstantiate` run the same
/// re-capture; the first reports `Ok(true)` exactly where the second reports
/// `Updated`, `Ok(false)` exactly where it reports `Reinstantiated`, and the same
/// error otherwise. Where the in-place update succeeds the two are identical.
pub proof fn law_update_flag_matches_outcome(graph: CudaGraph, replies: Seq<DriverReply>)
    ensures
        run(Recapture::start(graph), replies).stage() matches RecapturePhase::Finished(result) ==> {
            &&& (in_place_flag(result) == Ok::<bool, DriverError>(true)) <==> (result == Ok::<
                UpdateOutcome,
                DriverError,
            >(UpdateOutcome::Updated))
            &&& (in_place_flag(result) == Ok::<bool, DriverError>(false)) <==> (result == Ok::<
                UpdateOutcome,
                DriverError,
            >(UpdateOutcome::Reinstantiated))
            &&& forall|e: DriverError|
                (in_place_flag(result) == Err::<bool, DriverError>(e)) <==> (result == Err::<
                    UpdateOutcome,
                    DriverError,
                >(e))
        },
{
}

} // verus!
