//! Operations that bind the stream's context and then make a single driver call:
//! beginning a capture, asking for the capture status, launching or uploading
//! the executable graph, counting and enumerating the graph's nodes.
use vstd::prelude::*;
use crate::driver::{DriverCall, DriverError, DriverReply, check, succeeded};
use crate::protocol::{DriverProtocol, run, calls, lemma_finished_stays, lemma_unfold, lemma_stops};

verus! {

/// Where a bound call stands.
#[derive(Debug)]
pub enum BoundCallPhase {
    /// Waiting for the stream's context to be bound.
    Binding,
    /// Waiting for the call itself.
    Calling,
    /// Done: the driver's reply to the call, which succeeded, or the error.
    Finished(Result<DriverReply, DriverError>),
}

/// A single driver call made with the stream's context bound, in progress.
#[derive(Debug)]
pub struct BoundCall {
    pub(crate) call: DriverCall,
    pub(crate) phase: BoundCallPhase,
}

impl BoundCall {
    /// `call`, before the context is bound.
    pub open(crate) spec fn start(call: DriverCall) -> BoundCall {
        BoundCall { call, phase: BoundCallPhase::Binding }
    }

    /// Where it stands.
    pub open(crate) spec fn stage(self) -> BoundCallPhase {
        self.phase
    }

    /// Begins `call`: the context is bound first.
    pub fn new(call: DriverCall) -> (r: BoundCall)
        ensures
            r == BoundCall::start(call),
    {
        BoundCall { call, phase: BoundCallPhase::Binding }
    }

    /// The driver call it waits on; `None` once it has finished.
    pub fn pending(&self) -> (c: Option<DriverCall>)
        ensures
            c == self.due(),
    {
        match &self.phase {
            BoundCallPhase::Binding => Some(DriverCall::BindContext),
            BoundCallPhase::Calling => Some(self.call),
            BoundCallPhase::Finished(_) => None,
        }
    }

    /// Hands it the driver's reply to the call it waited on. Once finished it
    /// ignores replies.
    pub fn step(self, reply: DriverReply) -> (r: BoundCall)
        ensures
            r == self.after(reply),
    {
        let call = self.call;
        match self.phase {
            BoundCallPhase::Binding => match check(reply.status) {
                Ok(()) => BoundCall { call, phase: BoundCallPhase::Calling },
                Err(e) => BoundCall { call, phase: BoundCallPhase::Finished(Err(e)) },
            },
            BoundCallPhase::Calling => match check(reply.status) {
                Ok(()) => BoundCall { call, phase: BoundCallPhase::Finished(Ok(reply)) },
                Err(e) => BoundCall { call, phase: BoundCallPhase::Finished(Err(e)) },
            },
            BoundCallPhase::Finished(result) => BoundCall {
                call,
                phase: BoundCallPhase::Finished(result),
            },
        }
    }

    /// Its result, once it has finished.
    pub fn into_result(self) -> (r: Option<Result<DriverReply, DriverError>>)
        ensures
            r == (match self.stage() {
                BoundCallPhase::Finished(result) => Some(result),
                _ => None,
            }),
    {
        match self.phase {
            BoundCallPhase::Finished(result) => Some(result),
            _ => None,
        }
    }
}

impl DriverProtocol for BoundCall {
    open(crate) spec fn due(self) -> Option<DriverCall> {
        match self.phase {
            BoundCallPhase::Binding => Some(DriverCall::BindContext),
            BoundCallPhase::Calling => Some(self.call),
            BoundCallPhase::Finished(_) => None,
        }
    }

    open(crate) spec fn after(self, reply: DriverReply) -> BoundCall {
        match self.phase {
            BoundCallPhase::Binding => if succeeded(reply) {
                BoundCall { phase: BoundCallPhase::Calling, ..self }
            } else {
                BoundCall { phase: BoundCallPhase::Finished(Err(DriverError(reply.status))), ..self }
            },
            BoundCallPhase::Calling => if succeeded(reply) {
                BoundCall { phase: BoundCallPhase::Finished(Ok(reply)), ..self }
            } else {
                BoundCall { phase: BoundCallPhase::Finished(Err(DriverError(reply.status))), ..self }
            },
            BoundCallPhase::Finished(_) => self,
        }
    }

    proof fn lemma_idle(self, reply: DriverReply) {
    }
}

/// A bound call finishes within two driver calls. It binds the context first and
/// makes the call only when binding succeeded; it succeeds, with the driver's
/// reply to the call, exactly when both succeeded, and otherwise fails with the
/// status of the first that failed.
pub proof fn law_bound_call(call: DriverCall, replies: Seq<DriverReply>)
    ensures
        ({
            let m = run(BoundCall::start(call), replies);
            let made = calls(BoundCall::start(call), replies);
            let r = replies;
            &&& r.len() >= 2 ==> m.stage() is Finished
            &&& (m.stage() matches BoundCallPhase::Finished(Ok(reply))) <==> (r.len() >= 2 && succeeded(
                r[0],
            ) && succeeded(r[1]))
            &&& m.stage() matches BoundCallPhase::Finished(Ok(reply)) ==> {
                &&& reply == r[1]
                &&& made == seq![DriverCall::BindContext, call]
            }
            &&& m.stage() matches BoundCallPhase::Finished(Err(e)) ==> {
                &&& e == (if !succeeded(r[0]) {
                    DriverError(r[0].status)
                } else {
                    DriverError(r[1].status)
                })
                &&& made == (if !succeeded(r[0]) {
                    seq![DriverCall::BindContext]
                } else {
                    seq![DriverCall::BindContext, call]
                })
            }
        }),
{
    let r = replies;
    let m0 = BoundCall::start(call);
    assert(r.skip(0) =~= r);
    if r.len() == 0 {
        lemma_stops(m0, r, 0);
        return;
    }
    lemma_unfold(m0, r, 0);
    let m1 = m0.after(r[0]);
    if !succeeded(r[0]) {
        lemma_finished_stays(m1, r.skip(1));
        return;
    }
    if r.len() == 1 {
        lemma_stops(m1, r, 1);
        return;
    }
    lemma_unfold(m1, r, 1);
    let m2 = m1.after(r[1]);
    lemma_finished_stays(m2, r.skip(2));
}

/// A bound call's result for a call with no out-parameter.
pub open spec fn completion_spec(result: Result<DriverReply, DriverError>) -> Result<(), DriverError> {
    match result {
        Ok(_) => Ok(()),
        Err(e) => Err(e),
    }
}

/// The result of beginning a capture, launching, or uploading.
pub fn completion(result: Result<DriverReply, DriverError>) -> (r: Result<(), DriverError>)
    ensures
        r == completion_spec(result),
{
    match result {
        Ok(_) => Ok(()),
        Err(e) => Err(e),
    }
}

/// The capture status a `CaptureStatus` call reports (a `CUstreamCaptureStatus`).
pub open spec fn capture_status_spec(result: Result<DriverReply, DriverError>) -> Result<u32, DriverError> {
    match result {
        Ok(reply) => Ok(reply.out as u32),
        Err(e) => Err(e),
    }
}

/// The result of asking for a stream's capture status.
pub fn capture_status_of(result: Result<DriverReply, DriverError>) -> (r: Result<u32, DriverError>)
    ensures
        r == capture_status_spec(result),
{
    match result {
        Ok(reply) => Ok(reply.out as u32),
        Err(e) => Err(e),
    }
}

/// The node count a `CountNodes` call reports.
pub open spec fn node_count_spec(result: Result<DriverReply, DriverError>) -> Result<usize, DriverError> {
    match result {
        Ok(reply) => Ok(reply.out as usize),
        Err(e) => Err(e),
    }
}

/// The result of counting a graph's nodes.
pub fn node_count_of(result: Result<DriverReply, DriverError>) -> (r: Result<usize, DriverError>)
    ensures
        r == node_count_spec(result),
{
    match result {
        Ok(reply) => Ok(reply.out as usize),
        Err(e) => Err(e),
    }
}

/// The nodes a `GetNodes` call for at most `cap` handles returns: the array the
/// driver filled, cut to `cap` handles and to the count the driver reported.
pub open spec fn nodes_spec(result: Result<DriverReply, DriverError>, cap: usize) -> Result<Seq<u64>, DriverError> {
    match result {
        Ok(reply) => {
            let room: int = if cap < reply.nodes.len() {
                cap as int
            } else {
                reply.nodes.len() as int
            };
            Ok(
                if (reply.out as int) < room {
                    reply.nodes@.take(reply.out as int)
                } else {
                    reply.nodes@.take(room)
                },
            )
        },
        Err(e) => Err(e),
    }
}

/// The result of enumerating a graph's nodes with `nodes(cap)`: up to `cap` node
/// handles.
pub fn nodes_of(result: Result<DriverReply, DriverError>, cap: usize) -> (r: Result<Vec<u64>, DriverError>)
    ensures
        match r {
            Ok(v) => nodes_spec(result, cap) == Ok::<Seq<u64>, DriverError>(v@),
            Err(e) => nodes_spec(result, cap) == Err::<Seq<u64>, DriverError>(e),
        },
{
    match result {
        Ok(reply) => {
            let count = reply.out;
            let ghost filled = reply.nodes@;
            let mut nodes = reply.nodes;
            if cap < nodes.len() {
                nodes.truncate(cap);
            }
            assert(nodes@ =~= filled.take(nodes@.len() as int));
            if count < nodes.len() as u64 {
                nodes.truncate(count as usize);
                assert(nodes@ =~= filled.take(count as int));
            } else {
                assert(nodes@ =~= filled.take(nodes@.len() as int));
            }
            Ok(nodes)
        },
        Err(e) => Err(e),
    }
}

/// Enumerating the nodes with `nodes(cap)` never gives more than `cap` handles;
/// they are a prefix of the array the driver filled. When there was room for
/// every node the driver counted, as with `cap` taken from `num_nodes`, it gives
/// all of them; otherwise as many as `cap` and the array allow.
pub proof fn law_nodes_up_to_cap(result: Result<DriverReply, DriverError>, cap: usize)
    ensures
        nodes_spec(result, cap) matches Ok(s) ==> s.len() <= cap,
        result matches Ok(reply) ==> {
            &&& nodes_spec(result, cap) matches Ok(s) && s.len() <= reply.nodes.len() && s
                =~= reply.nodes@.take(s.len() as int)
            &&& (reply.out <= cap && reply.out <= reply.nodes.len()) ==> (nodes_spec(result, cap) matches Ok(
                s,
            ) && s.len() == reply.out)
            &&& nodes_spec(result, cap) matches Ok(s) && s.len() == (if reply.out <= cap
                && reply.out <= reply.nodes.len() {
                reply.out as int
            } else if cap <= reply.nodes.len() {
                cap as int
            } else {
                reply.nodes.len() as int
            })
        },
{
}

/// The first error of a bound call fed `r`, if binding or the call failed.
proof fn lemma_bound_call_result(call: DriverCall, r: Seq<DriverReply>)
    requires
        r.len() >= 2,
    ensures
        run(BoundCall::start(call), r).stage() == BoundCallPhase::Finished(
            if !succeeded(r[0]) {
                Err::<DriverReply, DriverError>(DriverError(r[0].status))
            } else if !succeeded(r[1]) {
                Err::<DriverReply, DriverError>(DriverError(r[1].status))
            } else {
                Ok::<DriverReply, DriverError>(r[1])
            },
        ),
{
    law_bound_call(call, r);
    match run(BoundCall::start(call), r).stage() {
        BoundCallPhase::Finished(Ok(reply)) => {},
        BoundCallPhase::Finished(Err(e)) => {},
        _ => {},
    }
}

/// A call with no out-parameter (beginning a capture, launching, uploading,
/// reading or setting kernel node parameters) succeeds exactly when binding and
/// the call both succeeded, and otherwise fails with the status of the first of
/// them that failed; no error is turned into success, and no success into an error.
pub proof fn law_completion_reports_driver_result(
    call: DriverCall,
    replies: Seq<DriverReply>,
    reply: DriverReply,
    e: DriverError,
)
    ensures
        completion_spec(Ok(reply)) == Ok::<(), DriverError>(()),
        completion_spec(Err(e)) == Err::<(), DriverError>(e),
        replies.len() >= 2 ==> (run(BoundCall::start(call), replies).stage() matches BoundCallPhase::Finished(
            result,
        ) && completion_spec(result) == (if !succeeded(replies[0]) {
            Err::<(), DriverError>(DriverError(replies[0].status))
        } else if !succeeded(replies[1]) {
            Err::<(), DriverError>(DriverError(replies[1].status))
        } else {
            Ok::<(), DriverError>(())
        })),
{
    if replies.len() >= 2 {
        lemma_bound_call_result(call, replies);
    }
}

/// The capture status reported is the one the driver wrote when asked
/// (`CU_STREAM_CAPTURE_STATUS_NONE`, 0, for a stream that is not capturing), and
/// a failure of binding or of the call is reported with its own status.
pub proof fn law_capture_status_is_driver_status(
    stream: u64,
    replies: Seq<DriverReply>,
    reply: DriverReply,
    e: DriverError,
)
    ensures
        capture_status_spec(Ok(reply)) == Ok::<u32, DriverError>(reply.out as u32),
        capture_status_spec(Err(e)) == Err::<u32, DriverError>(e),
        replies.len() >= 2 ==> (run(BoundCall::start(DriverCall::CaptureStatus { stream }), replies).stage() matches BoundCallPhase::Finished(
            result,
        ) && capture_status_spec(result) == (if !succeeded(replies[0]) {
            Err::<u32, DriverError>(DriverError(replies[0].status))
        } else if !succeeded(replies[1]) {
            Err::<u32, DriverError>(DriverError(replies[1].status))
        } else {
            Ok::<u32, DriverError>(replies[1].out as u32)
        })),
{
    if replies.len() >= 2 {
        lemma_bound_call_result(DriverCall::CaptureStatus { stream }, replies);
    }
}

/// The node count reported is exactly the count the driver wrote, for every
/// count; a failure of binding or of the call is reported with its own status.
pub proof fn law_node_count_is_driver_count(
    graph: u64,
    replies: Seq<DriverReply>,
    reply: DriverReply,
    e: DriverError,
)
    ensures
        node_count_spec(Ok(reply)) == Ok::<usize, DriverError>(reply.out as usize),
        reply.out <= usize::MAX ==> node_count_spec(Ok(reply)) == Ok::<usize, DriverError>(
            reply.out as usize,
        ) && reply.out as usize == reply.out,
        node_count_spec(Err(e)) == Err::<usize, DriverError>(e),
        replies.len() >= 2 ==> (run(BoundCall::start(DriverCall::CountNodes { graph }), replies).stage() matches BoundCallPhase::Finished(
            result,
        ) && node_count_spec(result) == (if !succeeded(replies[0]) {
            Err::<usize, DriverError>(DriverError(replies[0].status))
        } else if !succeeded(replies[1]) {
            Err::<usize, DriverError>(DriverError(replies[1].status))
        } else {
            Ok::<usize, DriverError>(replies[1].out as usize)
        })),
{
    if replies.len() >= 2 {
        lemma_bound_call_result(DriverCall::CountNodes { graph }, replies);
    }
}

/// Enumerating nodes succeeds only when binding and the call succeeded: a failure
/// is reported with its own status, never as an empty or partial list; on
/// success the handles are the driver's, in the driver's order.
pub proof fn law_nodes_report_driver_result(
    graph: u64,
    cap: usize,
    replies: Seq<DriverReply>,
    e: DriverError,
)
    ensures
        nodes_spec(Err(e), cap) == Err::<Seq<u64>, DriverError>(e),
        replies.len() >= 2 ==> (run(BoundCall::start(DriverCall::GetNodes { graph, cap }), replies).stage() matches BoundCallPhase::Finished(
            result,
        ) && (if !succeeded(replies[0]) {
            nodes_spec(result, cap) == Err::<Seq<u64>, DriverError>(DriverError(replies[0].status))
        } else if !succeeded(replies[1]) {
            nodes_spec(result, cap) == Err::<Seq<u64>, DriverError>(DriverError(replies[1].status))
        } else {
            nodes_spec(result, cap) matches Ok(s) && s.len() <= cap && forall|i: int|
                0 <= i < s.len() ==> s[i] == #[trigger] replies[1].nodes@[i]
        })),
{
    if replies.len() >= 2 {
        lemma_bound_call_result(DriverCall::GetNodes { graph, cap }, replies);
    }
}

} // verus!
