//! Ending a stream capture: the captured graph, if there is one, is
//! instantiated into a new [`CudaGraph`].
use vstd::prelude::*;
use crate::driver::{DriverCall, DriverError, DriverReply, check, succeeded, NULL_HANDLE};
use crate::graph::{CudaGraph, CudaStream, GraphHandles};
use crate::protocol::{DriverProtocol, run, calls, lemma_finished_stays, lemma_unfold, lemma_stops};

verus! {

/// Where ending a capture stands.
#[derive(Debug)]
pub enum EndCapturePhase {
    /// Waiting for the stream's context to be bound.
    Binding,
    /// Waiting for `cuStreamEndCapture`.
    Capturing,
    /// Capture ended with `graph`; waiting for it to be instantiated.
    Instantiating { graph: u64 },
    /// Done: the new graph, `None` when capture ended without a graph, or the error.
    Finished(Result<Option<CudaGraph>, DriverError>),
}

/// Ending the capture on a stream, in progress.
#[derive(Debug)]
pub struct EndCapture {
    pub(crate) stream: CudaStream,
    pub(crate) flags: u64,
    pub(crate) phase: EndCapturePhase,
}

impl EndCapture {
    /// Ending the capture on `stream`, instantiating with `flags`, before any call.
    pub open(crate) spec fn start(stream: CudaStream, flags: u64) -> EndCapture {
        EndCapture { stream, flags, phase: EndCapturePhase::Binding }
    }

    /// Where it stands.
    pub open(crate) spec fn stage(self) -> EndCapturePhase {
        self.phase
    }

    /// Begins ending the capture on `stream`.
    pub fn new(stream: CudaStream, flags: u64) -> (r: EndCapture)
        ensures
            r == EndCapture::start(stream, flags),
    {
        EndCapture { stream, flags, phase: EndCapturePhase::Binding }
    }

    /// The driver call it waits on; `None` once it has finished.
    pub fn pending(&self) -> (call: Option<DriverCall>)
        ensures
            call == self.due(),
    {
        match &self.phase {
            EndCapturePhase::Binding => Some(DriverCall::BindContext),
            EndCapturePhase::Capturing => Some(DriverCall::EndCapture { stream: self.stream.cu_stream() }),
            EndCapturePhase::Instantiating { graph } => Some(
                DriverCall::Instantiate { graph: *graph, flags: self.flags },
            ),
            EndCapturePhase::Finished(_) => None,
        }
    }

    /// Hands it the driver's reply to the call it waited on. Once finished it
    /// ignores replies.
    pub fn step(self, reply: DriverReply) -> (r: EndCapture)
        ensures
            r == self.after(reply),
    {
        let stream = self.stream;
        let flags = self.flags;
        match self.phase {
            EndCapturePhase::Binding => match check(reply.status) {
                Ok(()) => EndCapture { stream, flags, phase: EndCapturePhase::Capturing },
                Err(e) => EndCapture { stream, flags, phase: EndCapturePhase::Finished(Err(e)) },
            },
            EndCapturePhase::Capturing => match check(reply.status) {
                Err(e) => EndCapture { stream, flags, phase: EndCapturePhase::Finished(Err(e)) },
                Ok(()) => if reply.out == NULL_HANDLE {
                    EndCapture { stream, flags, phase: EndCapturePhase::Finished(Ok(None)) }
                } else {
                    EndCapture {
                        stream,
                        flags,
                        phase: EndCapturePhase::Instantiating { graph: reply.out },
                    }
                },
            },
            EndCapturePhase::Instantiating { graph } => match check(reply.status) {
                Err(e) => EndCapture { stream, flags, phase: EndCapturePhase::Finished(Err(e)) },
                Ok(()) => EndCapture {
                    stream,
                    flags,
                    phase: EndCapturePhase::Finished(
                        Ok(Some(CudaGraph { cu_graph: graph, cu_graph_exec: reply.out, stream })),
                    ),
                },
            },
            EndCapturePhase::Finished(result) => EndCapture {
                stream,
                flags,
                phase: EndCapturePhase::Finished(result),
            },
        }
    }

    /// Its result, once it has finished.
    pub fn into_result(self) -> (r: Option<Result<Option<CudaGraph>, DriverError>>)
        ensures
            r == (match self.stage() {
                EndCapturePhase::Finished(result) => Some(result),
                _ => None,
            }),
    {
        match self.phase {
            EndCapturePhase::Finished(result) => Some(result),
            _ => None,
        }
    }
}

impl DriverProtocol for EndCapture {
    open(crate) spec fn due(self) -> Option<DriverCall> {
        match self.phase {
            EndCapturePhase::Binding => Some(DriverCall::BindContext),
            EndCapturePhase::Capturing => Some(DriverCall::EndCapture { stream: self.stream@ }),
            EndCapturePhase::Instantiating { graph } => Some(
                DriverCall::Instantiate { graph, flags: self.flags },
            ),
            EndCapturePhase::Finished(_) => None,
        }
    }

    open(crate) spec fn after(self, reply: DriverReply) -> EndCapture {
        match self.phase {
            EndCapturePhase::Binding => if succeeded(reply) {
                EndCapture { phase: EndCapturePhase::Capturing, ..self }
            } else {
                EndCapture { phase: EndCapturePhase::Finished(Err(DriverError(reply.status))), ..self }
            },
            EndCapturePhase::Capturing => if !succeeded(reply) {
                EndCapture { phase: EndCapturePhase::Finished(Err(DriverError(reply.status))), ..self }
            } else if reply.out == NULL_HANDLE {
                EndCapture { phase: EndCapturePhase::Finished(Ok(None)), ..self }
            } else {
                EndCapture { phase: EndCapturePhase::Instantiating { graph: reply.out }, ..self }
            },
            EndCapturePhase::Instantiating { graph } => if !succeeded(reply) {
                EndCapture { phase: EndCapturePhase::Finished(Err(DriverError(reply.status))), ..self }
            } else {
                EndCapture {
                    phase: EndCapturePhase::Finished(
                        Ok(Some(CudaGraph::holding(graph, reply.out, self.stream))),
                    ),
                    ..self
                }
            },
            EndCapturePhase::Finished(_) => self,
        }
    }

    proof fn lemma_idle(self, reply: DriverReply) {
    }
}

/// The calls a failed end of capture made: up to and including the one that
/// failed. When instantiation failed, the captured graph is not destroyed.
pub open spec fn failed_end_capture_calls(stream: CudaStream, flags: u64, r: Seq<DriverReply>) -> Seq<DriverCall> {
    if !succeeded(r[0]) {
        seq![DriverCall::BindContext]
    } else if !succeeded(r[1]) {
        seq![DriverCall::BindContext, DriverCall::EndCapture { stream: stream@ }]
    } else {
        seq![
            DriverCall::BindContext,
            DriverCall::EndCapture { stream: stream@ },
            DriverCall::Instantiate { graph: r[1].out, flags },
        ]
    }
}

/// Ending a capture, followed reply by reply.
proof fn lemma_end_capture_trace(stream: CudaStream, flags: u64, replies: Seq<DriverReply>)
    ensures
        ({
            let m = run(EndCapture::start(stream, flags), replies);
            let made = calls(EndCapture::start(stream, flags), replies);
            let r = replies;
            &&& r.len() >= 3 ==> m.phase is Finished
            &&& (m.phase matches EndCapturePhase::Finished(Ok(Some(g)))) <==> (r.len() >= 3
                && succeeded(r[0]) && succeeded(r[1]) && r[1].out != NULL_HANDLE && succeeded(r[2]))
            &&& m.phase matches EndCapturePhase::Finished(Ok(Some(g))) ==> {
                &&& g@ == GraphHandles { graph: r[1].out, graph_exec: r[2].out, stream: stream@ }
                &&& made == seq![
                    DriverCall::BindContext,
                    DriverCall::EndCapture { stream: stream@ },
                    DriverCall::Instantiate { graph: r[1].out, flags },
                ]
            }
            &&& (m.phase == EndCapturePhase::Finished(Ok(None))) <==> (r.len() >= 2 && succeeded(r[0])
                && succeeded(r[1]) && r[1].out == NULL_HANDLE)
            &&& m.phase == EndCapturePhase::Finished(Ok(None)) ==> made == seq![
                DriverCall::BindContext,
                DriverCall::EndCapture { stream: stream@ },
            ]
            &&& m.phase matches EndCapturePhase::Finished(Err(e)) ==> {
                &&& e == (if !succeeded(r[0]) {
                    DriverError(r[0].status)
                } else if !succeeded(r[1]) {
                    DriverError(r[1].status)
                } else {
                    DriverError(r[2].status)
                })
                &&& made == failed_end_capture_calls(stream, flags, r)
            }
        }),
{
    let r = replies;
    let m0 = EndCapture::start(stream, flags);
    assert(r.skip(0) =~= r);
    if r.len() == 0 {
        lemma_stops(m0, r, 0);
        return;
    }
    lemma_unfold(m0, r, 0);
    let m1 = m0.after(r[0]);
    if !succeeded(r[0]) {
        lemma_finished_stays(m1, r.skip(1));
        return;
    }
    if r.len() == 1 {
        lemma_stops(m1, r, 1);
        return;
    }
    lemma_unfold(m1, r, 1);
    let m2 = m1.after(r[1]);
    if !succeeded(r[1]) || r[1].out == NULL_HANDLE {
        lemma_finished_stays(m2, r.skip(2));
        return;
    }
    if r.len() == 2 {
        lemma_stops(m2, r, 2);
        return;
    }
    lemma_unfold(m2, r, 2);
    let m3 = m2.after(r[2]);
    lemma_finished_stays(m3, r.skip(3));
}

/// Ending a capture finishes within three driver calls.
pub proof fn law_end_capture_finishes(stream: CudaStream, flags: u64, replies: Seq<DriverReply>)
    requires
        replies.len() >= 3,
    ensures
        run(EndCapture::start(stream, flags), replies).stage() is Finished,
{
    lemma_end_capture_trace(stream, flags, replies);
}

/// Ending a capture gives a new graph exactly when the context was bound, capture
/// ended with a non-null graph, and instantiating it with the given flags
/// succeeded. The new graph holds the captured graph, the executable graph
/// instantiated from it, and the stream; the calls made were: bind, end capture,
/// instantiate.
pub proof fn law_end_capture_instantiates(stream: CudaStream, flags: u64, replies: Seq<DriverReply>)
    ensures
        ({
            let m = run(EndCapture::start(stream, flags), replies);
            let r = replies;
            &&& (m.stage() matches EndCapturePhase::Finished(Ok(Some(g)))) <==> (r.len() >= 3
                && succeeded(r[0]) && succeeded(r[1]) && r[1].out != NULL_HANDLE && succeeded(r[2]))
            &&& m.stage() matches EndCapturePhase::Finished(Ok(Some(g))) ==> {
                &&& g@ == GraphHandles { graph: r[1].out, graph_exec: r[2].out, stream: stream@ }
                &&& calls(EndCapture::start(stream, flags), r) == seq![
                    DriverCall::BindContext,
                    DriverCall::EndCapture { stream: stream@ },
                    DriverCall::Instantiate { graph: r[1].out, flags },
                ]
            }
        }),
{
    lemma_end_capture_trace(stream, flags, replies);
}

/// When capture ends without a graph, ending the capture gives `Ok(None)` and
/// instantiates nothing.
pub proof fn law_end_capture_without_graph(stream: CudaStream, flags: u64, replies: Seq<DriverReply>)
    ensures
        ({
            let m = run(EndCapture::start(stream, flags), replies);
            let r = replies;
            &&& (m.stage() == EndCapturePhase::Finished(Ok(None))) <==> (r.len() >= 2 && succeeded(r[0])
                && succeeded(r[1]) && r[1].out == NULL_HANDLE)
            &&& m.stage() == EndCapturePhase::Finished(Ok(None)) ==> calls(EndCapture::start(stream, flags), r)
                == seq![DriverCall::BindContext, DriverCall::EndCapture { stream: stream@ }]
        }),
{
    lemma_end_capture_trace(stream, flags, replies);
}

/// Ending a capture fails with the status of the first call that failed:
/// binding, ending capture, or instantiating; the calls made stop at that one.
pub proof fn law_end_capture_fails_with_first_error(stream: CudaStream, flags: u64, replies: Seq<DriverReply>)
    ensures
        ({
            let r = replies;
            run(EndCapture::start(stream, flags), r).stage() matches EndCapturePhase::Finished(Err(e))
                ==> {
                &&& e == (if !succeeded(r[0]) {
                    DriverError(r[0].status)
                } else if !succeeded(r[1]) {
                    DriverError(r[1].status)
                } else {
                    DriverError(r[2].status)
                })
                &&& calls(EndCapture::start(stream, flags), r) == failed_end_capture_calls(stream, flags, r)
            }
        }),
{
    lemma_end_capture_trace(stream, flags, replies);
}

} // verus!
