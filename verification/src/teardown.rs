//! Releasing a graph's driver handles when it is dropped: the executable graph
//! first, then the captured graph, skipping null handles. A failed destroy does
//! not stop the release; its error is handed back to be recorded on the context.
use vstd::prelude::*;
use crate::driver::{DriverCall, DriverError, DriverReply, check, succeeded, NULL_HANDLE};
use crate::graph::{CudaGraph, GraphHandles};
use crate::protocol::{DriverProtocol, run, calls, lemma_finished_stays, lemma_unfold, lemma_stops};

verus! {

/// The handles a dropped graph still has to release; a released handle is null.
#[derive(Debug)]
pub struct Teardown {
    pub(crate) graph: u64,
    pub(crate) graph_exec: u64,
}

impl Teardown {
    /// The release of the handles of `graph`, before any call.
    pub open(crate) spec fn of(graph: CudaGraph) -> Teardown {
        Teardown { graph: graph@.graph, graph_exec: graph@.graph_exec }
    }

    /// The `CUgraph` still to release (null once released).
    pub open(crate) spec fn graph_left(self) -> u64 {
        self.graph
    }

    /// The `CUgraphExec` still to release (null once released).
    pub open(crate) spec fn exec_left(self) -> u64 {
        self.graph_exec
    }

    /// The error to record for `reply`: that of a failed destroy.
    pub open(crate) spec fn error_to_record(self, reply: DriverReply) -> Option<DriverError> {
        if self.due() is Some && !succeeded(reply) {
            Some(DriverError(reply.status))
        } else {
            None
        }
    }

    /// Begins releasing the handles of `graph`.
    pub fn new(graph: CudaGraph) -> (r: Teardown)
        ensures
            r == Teardown::of(graph),
    {
        Teardown { graph: graph.cu_graph, graph_exec: graph.cu_graph_exec }
    }

    /// The destroy call it waits on; `None` once both handles are released.
    pub fn pending(&self) -> (c: Option<DriverCall>)
        ensures
            c == self.due(),
    {
        if self.graph_exec != NULL_HANDLE {
            Some(DriverCall::DestroyExec { graph_exec: self.graph_exec })
        } else if self.graph != NULL_HANDLE {
            Some(DriverCall::DestroyGraph { graph: self.graph })
        } else {
            None
        }
    }

    /// Hands it the driver's reply to the destroy it waited on; gives back what
    /// is left to release and the error to record, if the destroy failed.
    pub fn step(self, reply: DriverReply) -> (r: (Teardown, Option<DriverError>))
        ensures
            r.0 == self.after(reply),
            r.1 == self.error_to_record(reply),
    {
        let record = match check(reply.status) {
            Ok(()) => None,
            Err(e) => Some(e),
        };
        if self.graph_exec != NULL_HANDLE {
            (Teardown { graph: self.graph, graph_exec: NULL_HANDLE }, record)
        } else if self.graph != NULL_HANDLE {
            (Teardown { graph: NULL_HANDLE, graph_exec: NULL_HANDLE }, record)
        } else {
            (self, None)
        }
    }
}

impl DriverProtocol for Teardown {
    open(crate) spec fn due(self) -> Option<DriverCall> {
        if self.graph_exec != NULL_HANDLE {
            Some(DriverCall::DestroyExec { graph_exec: self.graph_exec })
        } else if self.graph != NULL_HANDLE {
            Some(DriverCall::DestroyGraph { graph: self.graph })
        } else {
            None
        }
    }

    open(crate) spec fn after(self, reply: DriverReply) -> Teardown {
        if self.graph_exec != NULL_HANDLE {
            Teardown { graph_exec: NULL_HANDLE, ..self }
        } else if self.graph != NULL_HANDLE {
            Teardown { graph: NULL_HANDLE, ..self }
        } else {
            self
        }
    }

    proof fn lemma_idle(self, reply: DriverReply) {
    }
}

/// The errors recorded while the release is handed `replies`, in order.
pub open(crate) spec fn recorded(m: Teardown, replies: Seq<DriverReply>) -> Seq<DriverError>
    decreases replies.len(),
{
    if replies.len() == 0 {
        Seq::empty()
    } else {
        (match m.error_to_record(replies[0]) {
            Some(e) => seq![e],
            None => Seq::<DriverError>::empty(),
        }) + recorded(m.after(replies[0]), replies.drop_first())
    }
}

/// The destroy calls that release `handles`: the executable graph first, then the
/// captured graph, each only when it is not null.
pub open spec fn release_calls(handles: GraphHandles) -> Seq<DriverCall> {
    (if handles.graph_exec != NULL_HANDLE {
        seq![DriverCall::DestroyExec { graph_exec: handles.graph_exec }]
    } else {
        Seq::<DriverCall>::empty()
    }) + (if handles.graph != NULL_HANDLE {
        seq![DriverCall::DestroyGraph { graph: handles.graph }]
    } else {
        Seq::<DriverCall>::empty()
    })
}

/// The errors of the destroy calls among the first `n` replies that failed.
pub open spec fn failures(replies: Seq<DriverReply>, n: int) -> Seq<DriverError>
    decreases n,
{
    if n <= 0 {
        Seq::empty()
    } else {
        failures(replies, n - 1) + (if !succeeded(replies[n - 1]) {
            seq![DriverError(replies[n - 1].status)]
        } else {
            Seq::<DriverError>::empty()
        })
    }
}

proof fn lemma_recorded_finished(m: Teardown, replies: Seq<DriverReply>)
    requires
        m.due() is None,
    ensures
        recorded(m, replies) == Seq::<DriverError>::empty(),
    decreases replies.len(),
{
    if replies.len() > 0 {
        lemma_recorded_finished(m.after(replies[0]), replies.drop_first());
        assert(Seq::<DriverError>::empty() + Seq::<DriverError>::empty() =~= Seq::<DriverError>::empty());
    }
}

/// Dropping a graph destroys its executable graph and then its captured graph,
/// each exactly once and only when it is not null, whatever the driver answers:
/// with as many replies as destroy calls, both handles are released, the calls
/// made are exactly those destroys, and the errors recorded are those of the
/// destroys that failed, in order.
pub proof fn law_drop_releases_each_handle_once(graph: CudaGraph, replies: Seq<DriverReply>)
    requires
        replies.len() >= release_calls(graph@).len(),
    ensures
        ({
            let m = run(Teardown::of(graph), replies);
            let n = release_calls(graph@).len() as int;
            &&& m.graph_left() == NULL_HANDLE
            &&& m.exec_left() == NULL_HANDLE
            &&& calls(Teardown::of(graph), replies) == release_calls(graph@)
            &&& recorded(Teardown::of(graph), replies) == failures(replies, n)
        }),
{
    let r = replies;
    let m0 = Teardown::of(graph);
    let h = graph@;
    assert(r.skip(0) =~= r);
    reveal_with_fuel(failures, 3);
    if h.graph_exec != NULL_HANDLE {
        lemma_unfold(m0, r, 0);
        let m1 = m0.after(r[0]);
        let rest1 = r.drop_first();
        assert(r.skip(1) =~= rest1);
        if h.graph != NULL_HANDLE {
            lemma_unfold(m1, r, 1);
            let m2 = m1.after(r[1]);
            assert(r.skip(1).drop_first() =~= r.skip(2));
            lemma_finished_stays(m2, r.skip(2));
            let rest2 = rest1.drop_first();
            assert(rest2 =~= r.skip(2));
            assert(rest1[0] == r[1]);
            lemma_recorded_finished(m2, rest2);
            assert(recorded(m1, rest1) == (match m1.error_to_record(r[1]) {
                Some(e) => seq![e],
                None => Seq::<DriverError>::empty(),
            }) + recorded(m2, rest2));
            assert(recorded(m0, r) =~= failures(r, 2));
            assert(calls(m0, r) =~= release_calls(h));
        } else {
            lemma_finished_stays(m1, rest1);
            lemma_recorded_finished(m1, rest1);
            assert(recorded(m0, r) =~= failures(r, 1));
            assert(calls(m0, r) =~= release_calls(h));
        }
    } else if h.graph != NULL_HANDLE {
        lemma_unfold(m0, r, 0);
        let m1 = m0.after(r[0]);
        let rest1 = r.drop_first();
        assert(r.skip(1) =~= rest1);
        lemma_finished_stays(m1, rest1);
        lemma_recorded_finished(m1, rest1);
        assert(recorded(m0, r) =~= failures(r, 1));
        assert(calls(m0, r) =~= release_calls(h));
    } else {
        lemma_finished_stays(m0, r);
        lemma_recorded_finished(m0, r);
        assert(calls(m0, r) =~= release_calls(h));
    }
}

} // verus!
