//! The outgoing end of the action queue that every panel publishes into.
use vstd::prelude::*;
use crate::action::{Action, same_actions};

verus! {

/// Why a publish did not reach the queue, or a panel failed.
#[derive(Clone, Copy, Debug, PartialEq, Eq, Structural)]
pub enum TuiError {
    /// The host has torn the queue down; the action was dropped.
    ChannelClosed,
}

/// A first-in first-out queue of actions that can be closed. Once it is closed a
/// publish is refused with an error and nothing else happens.
pub struct Outbox {
    pending: Vec<Action>,
    open: bool,
}

impl View for Outbox {
    /// The actions waiting, oldest first, and whether the queue still accepts more.
    type V = (Seq<Action>, bool);

    closed spec fn view(&self) -> (Seq<Action>, bool) {
        (self.pending@, self.open)
    }
}

/// `next` is `out` after `expected` was published into it, element by element,
/// or unchanged where the queue was closed.
pub open spec fn sends(
    out: (Seq<Action>, bool),
    next: (Seq<Action>, bool),
    expected: Seq<Action>,
) -> bool {
    &&& next.1 == out.1
    &&& if out.1 {
        &&& next.0.len() == out.0.len() + expected.len()
        &&& next.0.subrange(0, out.0.len() as int) == out.0
        &&& same_actions(next.0.subrange(out.0.len() as int, next.0.len() as int), expected)
    } else {
        next == out
    }
}

/// Publishing one list after another is publishing both, in that order.
pub proof fn lemma_sends_chain(
    out: (Seq<Action>, bool),
    mid: (Seq<Action>, bool),
    next: (Seq<Action>, bool),
    a: Seq<Action>,
    b: Seq<Action>,
)
    requires
        sends(out, mid, a),
        sends(mid, next, b),
    ensures
        sends(out, next, a + b),
{
    if out.1 {
        let n = out.0.len() as int;
        let m = mid.0.len() as int;
        let l = next.0.len() as int;
        assert forall|i: int| 0 <= i < n implies next.0[i] == out.0[i] by {
            assert(next.0.subrange(0, m)[i] == mid.0[i]);
            assert(mid.0.subrange(0, n)[i] == out.0[i]);
        }
        assert(next.0.subrange(0, n) =~= out.0);
        let tail = next.0.subrange(n, l);
        assert forall|i: int| 0 <= i < tail.len() implies #[trigger] tail[i].same((a + b)[i]) by {
            if i < a.len() {
                assert(next.0.subrange(0, m)[n + i] == mid.0[n + i]);
                assert(mid.0.subrange(n, m)[i].same(a[i]));
            } else {
                assert(next.0.subrange(m, l)[i - a.len()].same(b[i - a.len()]));
            }
        }
    }
}

/// Publishing nothing leaves the queue as it was.
pub proof fn lemma_sends_nothing(out: (Seq<Action>, bool))
    ensures
        sends(out, out, Seq::empty()),
{
    assert(out.0.subrange(0, out.0.len() as int) =~= out.0);
}

impl Outbox {
    /// An open, empty queue.
    pub fn new() -> (r: Outbox)
        ensures
            r@ == (Seq::<Action>::empty(), true),
    {
        Outbox { pending: Vec::new(), open: true }
    }

    pub fn is_open(&self) -> (r: bool)
        ensures
            r == self@.1,
    {
        self.open
    }

    pub fn len(&self) -> (r: usize)
        ensures
            r == self@.0.len(),
    {
        self.pending.len()
    }

    /// Tears the queue down: what is published afterwards is dropped.
    pub fn close(&mut self)
        ensures
            final(self)@ == (old(self)@.0, false),
    {
        self.open = false;
    }

    /// Appends `action` to the queue, or reports that the queue is closed. Never
    /// panics: a closed queue is an expected state during shutdown.
    pub fn publish(&mut self, action: Action) -> (r: Result<(), TuiError>)
        ensures
            old(self)@.1 ==> final(self)@ == (old(self)@.0.push(action), true) && r == Ok::<
                (),
                TuiError,
            >(()),
            !old(self)@.1 ==> final(self)@ == old(self)@ && r == Err::<(), TuiError>(
                TuiError::ChannelClosed,
            ),
    {
        if self.open {
            self.pending.push(action);
            Ok(())
        } else {
            Err(TuiError::ChannelClosed)
        }
    }

    /// Publishes a copy of an action, dropping it silently if the queue is closed.
    pub fn send(&mut self, action: Action, expected: Ghost<Action>)
        requires
            action.same(expected@),
        ensures
            sends(old(self)@, final(self)@, seq![expected@]),
    {
        let _ = self.publish(action);
        proof {
            if old(self)@.1 {
                let n = old(self)@.0.len() as int;
                assert(final(self)@.0.subrange(0, n) =~= old(self)@.0);
                assert(final(self)@.0.subrange(n, n + 1) =~= seq![action]);
            }
        }
    }

    /// Takes every waiting action out, oldest first; the queue stays open or
    /// closed as it was.
    pub fn take_pending(&mut self) -> (r: Vec<Action>)
        ensures
            r@ == old(self)@.0,
            final(self)@ == (Seq::<Action>::empty(), old(self)@.1),
    {
        let mut taken: Vec<Action> = Vec::new();
        std::mem::swap(&mut taken, &mut self.pending);
        taken
    }
}

} // verus!
