//! How an operation talks to the driver: it names the call it waits on, and
//! moves on when handed the driver's reply. Running an operation over a sequence
//! of replies gives its final state and the calls it made.
use vstd::prelude::*;
use crate::driver::{DriverCall, DriverReply};

verus! {

/// An operation driven by replies from the CUDA driver.
pub trait DriverProtocol: Sized {
    /// The driver call the operation waits on; `None` once it has finished.
    spec fn due(self) -> Option<DriverCall>;

    /// The operation after the driver answered the call it waited on with `reply`.
    spec fn after(self, reply: DriverReply) -> Self;

    /// A finished operation ignores further replies.
    proof fn lemma_idle(self, reply: DriverReply)
        requires
            self.due() is None,
        ensures
            self.after(reply) == self,
    ;
}

/// The operation after it was handed `replies`, one per call it waited on.
pub open spec fn run<M: DriverProtocol>(m: M, replies: Seq<DriverReply>) -> M
    decreases replies.len(),
{
    if replies.len() == 0 {
        m
    } else {
        run(m.after(replies[0]), replies.drop_first())
    }
}

/// The driver calls the operation made while it was handed `replies`.
pub open spec fn calls<M: DriverProtocol>(m: M, replies: Seq<DriverReply>) -> Seq<DriverCall>
    decreases replies.len(),
{
    if replies.len() == 0 {
        Seq::empty()
    } else {
        match m.due() {
            Some(call) => seq![call] + calls(m.after(replies[0]), replies.drop_first()),
            None => Seq::empty(),
        }
    }
}

/// A finished operation stays as it is and makes no more calls.
pub proof fn lemma_finished_stays<M: DriverProtocol>(m: M, replies: Seq<DriverReply>)
    requires
        m.due() is None,
    ensures
        run(m, replies) == m,
        calls(m, replies) == Seq::<DriverCall>::empty(),
    decreases replies.len(),
{
    if replies.len() > 0 {
        m.lemma_idle(replies[0]);
        lemma_finished_stays(m.after(replies[0]), replies.drop_first());
    }
}

/// Running from the `i`-th reply on is taking that reply, then running from the next.
pub proof fn lemma_unfold<M: DriverProtocol>(m: M, replies: Seq<DriverReply>, i: int)
    requires
        0 <= i < replies.len(),
    ensures
        run(m, replies.skip(i)) == run(m.after(replies[i]), replies.skip(i + 1)),
        calls(m, replies.skip(i)) == (match m.due() {
            Some(call) => seq![call] + calls(m.after(replies[i]), replies.skip(i + 1)),
            None => Seq::<DriverCall>::empty(),
        }),
{
    assert(replies.skip(i).drop_first() =~= replies.skip(i + 1));
    assert(replies.skip(i)[0] == replies[i]);
}

/// Once the replies are used up, the operation stays where it is.
pub proof fn lemma_stops<M: DriverProtocol>(m: M, replies: Seq<DriverReply>, i: int)
    requires
        i == replies.len(),
    ensures
        run(m, replies.skip(i)) == m,
        calls(m, replies.skip(i)) == Seq::<DriverCall>::empty(),
{
    assert(replies.skip(i).len() == 0);
}

} // verus!
