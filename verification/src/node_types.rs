//! Asking the driver for the type of each node of a graph, in order.
use vstd::prelude::*;
use crate::driver::{DriverCall, DriverError, DriverReply, check, succeeded};
use crate::protocol::{DriverProtocol, run, calls, lemma_finished_stays};

verus! {

/// What a node-type query knows: the nodes to ask about, the types learnt so far
/// (one per node, in order), whether the context is bound, and the error it
/// stopped on, if any.
pub struct NodeTypesState {
    pub nodes: Seq<u64>,
    pub types: Seq<u32>,
    pub bound: bool,
    pub failure: Option<DriverError>,
}

impl NodeTypesState {
    /// The query about `nodes`, before any call.
    pub open spec fn start(nodes: Seq<u64>) -> NodeTypesState {
        NodeTypesState { nodes, types: Seq::empty(), bound: false, failure: None }
    }

    /// The query's result once it has finished: the types, or the error.
    pub open spec fn outcome(self) -> Option<Result<Seq<u32>, DriverError>> {
        match self.failure {
            Some(e) => Some(Err(e)),
            None => if self.bound && self.types.len() >= self.nodes.len() {
                Some(Ok(self.types))
            } else {
                None
            },
        }
    }
}

impl DriverProtocol for NodeTypesState {
    open spec fn due(self) -> Option<DriverCall> {
        if self.failure is Some {
            None
        } else if !self.bound {
            Some(DriverCall::BindContext)
        } else if self.types.len() < self.nodes.len() {
            Some(DriverCall::NodeType { node: self.nodes[self.types.len() as int] })
        } else {
            None
        }
    }

    open spec fn after(self, reply: DriverReply) -> NodeTypesState {
        if self.failure is Some {
            self
        } else if !self.bound {
            if succeeded(reply) {
                NodeTypesState { bound: true, ..self }
            } else {
                NodeTypesState { failure: Some(DriverError(reply.status)), ..self }
            }
        } else if self.types.len() < self.nodes.len() {
            if succeeded(reply) {
                NodeTypesState { types: self.types.push(reply.out as u32), ..self }
            } else {
                NodeTypesState { failure: Some(DriverError(reply.status)), ..self }
            }
        } else {
            self
        }
    }

    proof fn lemma_idle(self, reply: DriverReply) {
    }
}

/// The node-type query, in progress.
#[derive(Debug)]
pub struct NodeTypes {
    pub(crate) nodes: Vec<u64>,
    pub(crate) types: Vec<u32>,
    pub(crate) bound: bool,
    pub(crate) failure: Option<DriverError>,
}

impl View for NodeTypes {
    type V = NodeTypesState;

    open(crate) spec fn view(&self) -> NodeTypesState {
        NodeTypesState { nodes: self.nodes@, types: self.types@, bound: self.bound, failure: self.failure }
    }
}

impl NodeTypes {
    /// Begins asking for the types of `nodes`.
    pub fn new(nodes: Vec<u64>) -> (r: NodeTypes)
        ensures
            r@ == NodeTypesState::start(nodes@),
    {
        NodeTypes { nodes, types: Vec::new(), bound: false, failure: None }
    }

    /// The driver call it waits on; `None` once it has finished.
    pub fn pending(&self) -> (c: Option<DriverCall>)
        ensures
            c == self@.due(),
    {
        if self.failure.is_some() {
            None
        } else if !self.bound {
            Some(DriverCall::BindContext)
        } else if self.types.len() < self.nodes.len() {
            Some(DriverCall::NodeType { node: self.nodes[self.types.len()] })
        } else {
            None
        }
    }

    /// Hands it the driver's reply to the call it waited on. Once finished it
    /// ignores replies.
    pub fn step(self, reply: DriverReply) -> (r: NodeTypes)
        ensures
            r@ == self@.after(reply),
    {
        let mut m = self;
        if m.failure.is_some() {
            return m;
        }
        if !m.bound {
            match check(reply.status) {
                Ok(()) => {
                    m.bound = true;
                },
                Err(e) => {
                    m.failure = Some(e);
                },
            }
            return m;
        }
        if m.types.len() < m.nodes.len() {
            match check(reply.status) {
                Ok(()) => {
                    m.types.push(reply.out as u32);
                },
                Err(e) => {
                    m.failure = Some(e);
                },
            }
        }
        m
    }

    /// Its result, once it has finished: one type per node, in order, or the
    /// error of the first call that failed.
    pub fn into_result(self) -> (r: Option<Result<Vec<u32>, DriverError>>)
        ensures
            match r {
                None => self@.outcome() is None,
                Some(Ok(types)) => self@.outcome() == Some(Ok::<Seq<u32>, DriverError>(types@)),
                Some(Err(e)) => self@.outcome() == Some(Err::<Seq<u32>, DriverError>(e)),
            },
    {
        match self.failure {
            Some(e) => Some(Err(e)),
            None => if self.bound && self.types.len() >= self.nodes.len() {
                Some(Ok(self.types))
            } else {
                None
            },
        }
    }
}

/// The query, once bound and without error, walking through the remaining nodes
/// with the replies `r`.
proof fn lemma_walk(m: NodeTypesState, r: Seq<DriverReply>)
    requires
        m.bound,
        m.failure is None,
        m.types.len() <= m.nodes.len(),
    ensures
        ({
            let t = m.types.len() as int;
            let k = m.nodes.len() - m.types.len();
            &&& (r.len() >= k && forall|i: int| 0 <= i < k ==> succeeded(#[trigger] r[i])) ==> {
                &&& run(m, r) == NodeTypesState {
                    types: m.types + Seq::new(k as nat, |i: int| r[i].out as u32),
                    ..m
                }
                &&& calls(m, r) == Seq::new(
                    k as nat,
                    |i: int| DriverCall::NodeType { node: m.nodes[t + i] },
                )
            }
            &&& forall|j: int|
                #![trigger r[j]]
                0 <= j < k && j < r.len() && !succeeded(r[j]) && (forall|i: int|
                    0 <= i < j ==> succeeded(#[trigger] r[i])) ==> {
                    &&& run(m, r) == NodeTypesState {
                        types: m.types + Seq::new(j as nat, |i: int| r[i].out as u32),
                        failure: Some(DriverError(r[j].status)),
                        ..m
                    }
                    &&& calls(m, r) == Seq::new(
                        (j + 1) as nat,
                        |i: int| DriverCall::NodeType { node: m.nodes[t + i] },
                    )
                }
        }),
    decreases m.nodes.len() - m.types.len(),
{
    let t = m.types.len() as int;
    let k = m.nodes.len() - m.types.len();
    if k == 0 {
        lemma_finished_stays(m, r);
        assert(m.types + Seq::new(0, |i: int| r[i].out as u32) =~= m.types);
        assert(Seq::new(0, |i: int| DriverCall::NodeType { node: m.nodes[t + i] }) =~= Seq::<
            DriverCall,
        >::empty());
        return;
    }
    if r.len() == 0 {
        return;
    }
    let m1 = m.after(r[0]);
    let rest = r.drop_first();
    assert(run(m, r) == run(m1, rest));
    assert(calls(m, r) == seq![DriverCall::NodeType { node: m.nodes[t] }] + calls(m1, rest));
    if succeeded(r[0]) {
        lemma_walk(m1, rest);
        if r.len() >= k && forall|i: int| 0 <= i < k ==> succeeded(#[trigger] r[i]) {
            assert forall|i: int| 0 <= i < k - 1 implies succeeded(#[trigger] rest[i]) by {
                assert(rest[i] == r[i + 1]);
            }
            assert(m1.types + Seq::new((k - 1) as nat, |i: int| rest[i].out as u32) =~= m.types
                + Seq::new(k as nat, |i: int| r[i].out as u32));
            assert(seq![DriverCall::NodeType { node: m.nodes[t] }] + Seq::new(
                (k - 1) as nat,
                |i: int| DriverCall::NodeType { node: m1.nodes[t + 1 + i] },
            ) =~= Seq::new(k as nat, |i: int| DriverCall::NodeType { node: m.nodes[t + i] }));
        }
        assert forall|j: int|
            #![trigger r[j]]
            0 <= j < k && j < r.len() && !succeeded(r[j]) && (forall|i: int|
                0 <= i < j ==> succeeded(#[trigger] r[i])) implies {
                &&& run(m, r) == NodeTypesState {
                    types: m.types + Seq::new(j as nat, |i: int| r[i].out as u32),
                    failure: Some(DriverError(r[j].status)),
                    ..m
                }
                &&& calls(m, r) == Seq::new(
                    (j + 1) as nat,
                    |i: int| DriverCall::NodeType { node: m.nodes[t + i] },
                )
            } by {
            assert(j >= 1);
            assert(rest[j - 1] == r[j]);
            assert forall|i: int| 0 <= i < j - 1 implies succeeded(#[trigger] rest[i]) by {
                assert(rest[i] == r[i + 1]);
            }
            assert(m1.types + Seq::new((j - 1) as nat, |i: int| rest[i].out as u32) =~= m.types
                + Seq::new(j as nat, |i: int| r[i].out as u32));
            assert(seq![DriverCall::NodeType { node: m.nodes[t] }] + Seq::new(
                j as nat,
                |i: int| DriverCall::NodeType { node: m1.nodes[t + 1 + i] },
            ) =~= Seq::new((j + 1) as nat, |i: int| DriverCall::NodeType { node: m.nodes[t + i] }));
        }
    } else {
        lemma_finished_stays(m1, rest);
        assert(m.types + Seq::new(0, |i: int| r[i].out as u32) =~= m.types);
        assert(seq![DriverCall::NodeType { node: m.nodes[t] }] =~= Seq::new(
            1,
            |i: int| DriverCall::NodeType { node: m.nodes[t + i] },
        ));
        assert forall|j: int|
            #![trigger r[j]]
            0 <= j < k && j < r.len() && !succeeded(r[j]) && (forall|i: int|
                0 <= i < j ==> succeeded(#[trigger] r[i])) implies j == 0 by {
            if j > 0 {
                assert(succeeded(r[0]));
            }
        }
    }
}

/// When every call succeeds, the query binds the context, then asks about each
/// node once, in order, and gives one type per node, in the nodes' order: the
/// type the driver reported for that node.
pub proof fn law_node_types_in_order(nodes: Seq<u64>, replies: Seq<DriverReply>)
    ensures
        (replies.len() > nodes.len() && forall|i: int|
            0 <= i <= nodes.len() ==> succeeded(#[trigger] replies[i])) ==> {
            &&& run(NodeTypesState::start(nodes), replies).outcome() == Some(
                Ok::<Seq<u32>, DriverError>(
                    Seq::new(nodes.len(), |i: int| replies[i + 1].out as u32),
                ),
            )
            &&& calls(NodeTypesState::start(nodes), replies) == seq![DriverCall::BindContext]
                + Seq::new(nodes.len(), |i: int| DriverCall::NodeType { node: nodes[i] })
        },
{
    let r = replies;
    let n = nodes.len();
    let m0 = NodeTypesState::start(nodes);
    if r.len() > n && forall|i: int| 0 <= i <= n ==> succeeded(#[trigger] r[i]) {
        assert(succeeded(r[0]));
        let m1 = m0.after(r[0]);
        let rest = r.drop_first();
        assert(run(m0, r) == run(m1, rest));
        assert(calls(m0, r) == seq![DriverCall::BindContext] + calls(m1, rest));
        lemma_walk(m1, rest);
        assert forall|i: int| 0 <= i < n implies succeeded(#[trigger] rest[i]) by {
            assert(rest[i] == r[i + 1]);
            assert(succeeded(r[i + 1]));
        }
        assert(m1.types + Seq::new(n, |i: int| rest[i].out as u32) =~= Seq::new(
            n,
            |i: int| r[i + 1].out as u32,
        ));
        assert(Seq::new(n, |i: int| DriverCall::NodeType { node: m1.nodes[0 + i] }) =~= Seq::new(
            n,
            |i: int| DriverCall::NodeType { node: nodes[i] },
        ));
    }
}

/// When the call answered by reply `j` is the first to fail (`j == 0` is the
/// binding; `j == i + 1` is the question about the `i`-th node), the query stops
/// there, makes no further call, and fails with that call's status.
pub proof fn law_node_types_first_failure(nodes: Seq<u64>, replies: Seq<DriverReply>, j: int)
    requires
        0 <= j <= nodes.len(),
        j < replies.len(),
        !succeeded(replies[j]),
        forall|i: int| 0 <= i < j ==> succeeded(#[trigger] replies[i]),
    ensures
        run(NodeTypesState::start(nodes), replies).outcome() == Some(
            Err::<Seq<u32>, DriverError>(DriverError(replies[j].status)),
        ),
        calls(NodeTypesState::start(nodes), replies) == seq![DriverCall::BindContext] + Seq::new(
            j as nat,
            |i: int| DriverCall::NodeType { node: nodes[i] },
        ),
{
    let r = replies;
    let m0 = NodeTypesState::start(nodes);
    let m1 = m0.after(r[0]);
    let rest = r.drop_first();
    assert(run(m0, r) == run(m1, rest));
    assert(calls(m0, r) == seq![DriverCall::BindContext] + calls(m1, rest));
    if j == 0 {
        lemma_finished_stays(m1, rest);
        assert(seq![DriverCall::BindContext] + Seq::<DriverCall>::empty() =~= seq![
            DriverCall::BindContext,
        ] + Seq::new(0, |i: int| DriverCall::NodeType { node: nodes[i] }));
    } else {
        lemma_walk(m1, rest);
        assert(rest[j - 1] == r[j]);
        assert forall|i: int| 0 <= i < j - 1 implies succeeded(#[trigger] rest[i]) by {
            assert(rest[i] == r[i + 1]);
            assert(succeeded(r[i + 1]));
        }
        assert(Seq::new(j as nat, |i: int| DriverCall::NodeType { node: m1.nodes[0 + i] })
            =~= Seq::new(j as nat, |i: int| DriverCall::NodeType { node: nodes[i] }));
    }
}

} // verus!
