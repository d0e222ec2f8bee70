//! Per-session state written by the engine's callbacks and read by the menu.
use std::collections::VecDeque;
use vstd::prelude::*;
use crate::input::{action_choice, action_input, ActionInputError};

verus! {

/// Context identifier that marks the end of a bot's session.
pub const STATE_EXIT: u8 = 255;

/// The state of one session: the current context, the actions that are
/// valid in it, and the messages the engine asked to have sent.
///
/// The actions are kept as values of the caller's choosing; the router never
/// looks inside them.
pub struct ActiveState<A> {
    pub state_id: u8,
    pub active_actions: Vec<A>,
    pub msg_queue: VecDeque<String>,
}

/// The menu after `show_action` was called with each of `items` in turn,
/// starting from `menu`.
pub open spec fn shown<A>(menu: Seq<A>, items: Seq<A>) -> Seq<A>
    decreases items.len(),
{
    if items.len() == 0 {
        menu
    } else {
        shown(menu, items.drop_last()).push(items.last())
    }
}

/// After a switch to a context other than the terminal one, which empties the
/// menu, the actions shown stand in the menu in the order they were shown,
/// and the position displayed with the `j`-th of them is `j + 1`: positions
/// count from 1 and have no gaps.
pub proof fn lemma_menu_in_call_order<A>(items: Seq<A>)
    ensures
        shown(Seq::<A>::empty(), items) == items,
        forall|j: int|
            0 <= j < items.len() ==> #[trigger] shown(Seq::<A>::empty(), items.take(j + 1)).len()
                == j + 1 && shown(Seq::<A>::empty(), items.take(j + 1))[j] == items[j],
    decreases items.len(),
{
    if items.len() > 0 {
        let p = items.drop_last();
        lemma_menu_in_call_order(p);
        assert(p.push(items.last()) =~= items);
        assert forall|j: int| 0 <= j < items.len() implies #[trigger] shown(
            Seq::<A>::empty(),
            items.take(j + 1),
        ).len() == j + 1 && shown(Seq::<A>::empty(), items.take(j + 1))[j] == items[j] by {
            if j < items.len() - 1 {
                assert(items.take(j + 1) =~= p.take(j + 1));
                assert(shown(Seq::<A>::empty(), p.take(j + 1)).len() == j + 1);
                assert(p[j] == items[j]);
            } else {
                assert(items.take(j + 1) =~= items);
                assert(shown(Seq::<A>::empty(), items) == shown(Seq::<A>::empty(), p).push(
                    items.last(),
                ));
            }
        }
    }
}

impl<A> ActiveState<A> {
    /// A fresh session: context 0, no actions, nothing to send.
    pub fn new() -> (r: Self)
        ensures
            r.state_id == 0,
            r.active_actions@.len() == 0,
            r.msg_queue@.len() == 0,
    {
        ActiveState { state_id: 0, active_actions: Vec::new(), msg_queue: VecDeque::new() }
    }

    /// Whether the session has reached its terminal context.
    pub open spec fn is_finished(&self) -> bool {
        self.state_id == STATE_EXIT
    }

    /// The engine switched to context `ctx_id`. Switching to any context but
    /// the terminal one drops the actions of the previous context; switching
    /// to the terminal one keeps them.
    pub fn switch(&mut self, ctx_id: u8)
        ensures
            final(self).state_id == ctx_id,
            ctx_id == STATE_EXIT ==> final(self).active_actions@ == old(self).active_actions@,
            ctx_id != STATE_EXIT ==> final(self).active_actions@.len() == 0,
            final(self).msg_queue@ == old(self).msg_queue@,
    {
        self.state_id = ctx_id;
        if ctx_id == STATE_EXIT {
            return;
        }
        self.active_actions = Vec::new();
    }

    /// The engine shows an action of the current context. It is appended to
    /// the menu; the result is its 1-based position, to be displayed with it.
    pub fn show_action(&mut self, act: A) -> (r: usize)
        requires
            old(self).active_actions@.len() < usize::MAX,
        ensures
            final(self).active_actions@ == old(self).active_actions@.push(act),
            r == final(self).active_actions@.len(),
            final(self).state_id == old(self).state_id,
            final(self).msg_queue@ == old(self).msg_queue@,
    {
        self.active_actions.push(act);
        self.active_actions.len()
    }

    /// The engine asks for a message to be sent. It waits in the session's
    /// queue until the router collects it.
    pub fn send(&mut self, message: String)
        ensures
            final(self).msg_queue@ == old(self).msg_queue@.push(message),
            final(self).state_id == old(self).state_id,
            final(self).active_actions@ == old(self).active_actions@,
    {
        self.msg_queue.push_back(message);
    }

    /// Moves every message the session has queued to the end of `queue`,
    /// in the order they were queued.
    pub fn take_messages(&mut self, queue: &mut VecDeque<String>)
        ensures
            final(queue)@ == old(queue)@ + old(self).msg_queue@,
            final(self).msg_queue@.len() == 0,
            final(self).state_id == old(self).state_id,
            final(self).active_actions@ == old(self).active_actions@,
    {
        queue.append(&mut self.msg_queue);
    }

    /// The size of the menu to offer the operator, or `None` when the session
    /// is over: it reached the terminal context or has no action left.
    pub fn menu_size(&self) -> (r: Option<usize>)
        ensures
            match r {
                None => self.is_finished() || self.active_actions@.len() == 0,
                Some(n) => !self.is_finished() && n > 0 && n == self.active_actions@.len(),
            },
    {
        if self.state_id == STATE_EXIT {
            return None;
        }
        if self.active_actions.len() == 0 {
            return None;
        }
        Some(self.active_actions.len())
    }

    /// The action at 1-based position `n` of the menu, if there is one.
    pub fn action_at(&self, n: usize) -> (r: Option<&A>)
        ensures
            r == (if 1 <= n <= self.active_actions@.len() {
                Some(&self.active_actions@[n - 1])
            } else {
                None
            }),
    {
        if n == 0 || n > self.active_actions.len() {
            None
        } else {
            Some(&self.active_actions[n - 1])
        }
    }

    /// The operator's answer `line` to the menu. `None` when there is no menu
    /// to answer: the session is over. Otherwise the 0-based index of the
    /// chosen action, or why the line chooses none, in which case the operator
    /// is asked again and nothing changes.
    pub fn select_action(&self, line: &str) -> (r: Option<Result<usize, ActionInputError>>)
        ensures
            self.is_finished() || self.active_actions@.len() == 0 ==> r.is_none(),
            !self.is_finished() && self.active_actions@.len() > 0 ==> match action_choice(
                line@,
                self.active_actions@.len(),
            ) {
                Err(e) => r == Some(Err::<usize, ActionInputError>(e)),
                Ok(n) => r == Some(Ok::<usize, ActionInputError>((n - 1) as usize)),
            },
    {
        match self.menu_size() {
            None => None,
            Some(max) => match action_input(line, max) {
                Err(e) => Some(Err(e)),
                Ok((n, _, _)) => Some(Ok(n - 1)),
            },
        }
    }
}

} // verus!
