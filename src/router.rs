//! The router of one run: it drains the shared queue of messages to a fixed
//! point, and only then consults the root session's menu.
use std::collections::VecDeque;
use vstd::prelude::*;
use crate::state::ActiveState;

verus! {

/// What the run does next.
pub enum Step {
    /// Route this message, the oldest in the queue.
    Route(String),
    /// Ask the operator to pick one of this many actions.
    Prompt(usize),
    /// The root session is over: print the shutdown notice and stop.
    Shutdown,
}

/// The queue shared by all sessions of a run.
pub struct Router {
    pub queue: VecDeque<String>,
}

/// The queue once its oldest message was routed and the messages `produced`
/// in reaction were collected.
pub open spec fn routed(q: Seq<String>, produced: Seq<String>) -> Seq<String> {
    q.drop_first() + produced
}

/// The queue after one routing step for each entry of `reactions`, the
/// step `j` having produced `reactions[j]`.
pub open spec fn drain(q: Seq<String>, reactions: Seq<Seq<String>>) -> Seq<String>
    decreases reactions.len(),
{
    if reactions.len() == 0 {
        q
    } else {
        routed(drain(q, reactions.drop_last()), reactions.last())
    }
}

/// Messages are routed first in, first out, and breadth first: while the
/// messages queued at the start of a drain are routed, the queue holds the
/// ones not yet routed, in their order, followed by the reactions of each
/// routed message, in the order the messages were routed. So the `j`-th
/// message routed is the `j`-th one queued, and no reaction is routed before
/// every message queued earlier.
pub proof fn lemma_breadth_first(q: Seq<String>, reactions: Seq<Seq<String>>)
    requires
        reactions.len() <= q.len(),
    ensures
        drain(q, reactions) == q.skip(reactions.len() as int) + reactions.flatten(),
        reactions.len() < q.len() ==> drain(q, reactions)[0] == q[reactions.len() as int],
    decreases reactions.len(),
{
    reactions.lemma_flatten_and_flatten_alt_are_equivalent();
    if reactions.len() == 0 {
        assert(q.skip(0) =~= q);
        assert(reactions.flatten() =~= Seq::<String>::empty());
        assert(q.skip(0) + reactions.flatten() =~= q);
    } else {
        let k = reactions.len() - 1;
        let prev = reactions.drop_last();
        lemma_breadth_first(q, prev);
        prev.lemma_flatten_and_flatten_alt_are_equivalent();
        assert(q.skip(k).drop_first() =~= q.skip(k + 1));
        assert((q.skip(k) + prev.flatten()).drop_first() =~= q.skip(k + 1) + prev.flatten());
        assert(q.skip(k + 1) + prev.flatten() + reactions.last() =~= q.skip(k + 1) + (
        prev.flatten_alt() + reactions.last()));
    }
}

impl Router {
    /// A run with nothing queued.
    pub fn new() -> (r: Self)
        ensures
            r.queue@.len() == 0,
    {
        Router { queue: VecDeque::new() }
    }

    /// Moves the messages that `session` queued to the end of the shared
    /// queue, behind every message already there.
    pub fn collect<A>(&mut self, session: &mut ActiveState<A>)
        ensures
            final(self).queue@ == old(self).queue@ + old(session).msg_queue@,
            final(session).msg_queue@.len() == 0,
            final(session).state_id == old(session).state_id,
            final(session).active_actions@ == old(session).active_actions@,
    {
        session.take_messages(&mut self.queue);
    }

    /// The next step of the run, given the root session's state. While a
    /// message is queued, the oldest one is taken out to be routed; only an
    /// empty queue lets the menu be shown, or the run end when the root
    /// session reached its terminal context or has no action left.
    pub fn next_step<A>(&mut self, root: &ActiveState<A>) -> (r: Step)
        ensures
            old(self).queue@.len() > 0 ==> r == Step::Route(old(self).queue@[0])
                && final(self).queue@ == old(self).queue@.drop_first(),
            old(self).queue@.len() == 0 ==> final(self).queue@ == old(self).queue@,
            old(self).queue@.len() == 0 && (root.is_finished() || root.active_actions@.len()
                == 0) ==> r == Step::Shutdown,
            old(self).queue@.len() == 0 && !root.is_finished() && root.active_actions@.len()
                > 0 ==> r == Step::Prompt(root.active_actions@.len() as usize),
            r is Prompt ==> old(self).queue@.len() == 0,
    {
        match self.queue.pop_front() {
            Some(msg) => {
                assert(old(self).queue@.drop_first() =~= self.queue@);
                Step::Route(msg)
            },
            None => match root.menu_size() {
                Some(n) => Step::Prompt(n),
                None => Step::Shutdown,
            },
        }
    }
}

} // verus!
