//! The host's dispatch loop: drain the queue, broadcast each action to every panel.
use vstd::prelude::*;
use crate::action::Action;
use crate::component::Component;
use crate::key::KeyEvent;
use crate::outbox::{Outbox, TuiError};

verus! {

/// One delivery: the queue before and after, and what the handler returned.
pub type Step = ((Seq<Action>, bool), (Seq<Action>, bool), Result<Option<Action>, TuiError>);

/// `states` runs from one panel state to the next as each of `actions` is
/// delivered, `steps` recording each delivery.
pub open spec fn trace<P: Component>(states: Seq<P>, actions: Seq<Action>, steps: Seq<Step>) -> bool {
    &&& states.len() == actions.len() + 1
    &&& steps.len() == actions.len()
    &&& forall|k: int|
        #![trigger steps[k]]
        0 <= k < actions.len() ==> states[k].update_post(
            actions[k],
            steps[k].0,
            states[k + 1],
            steps[k].1,
            steps[k].2,
        )
}

/// `a` is a prefix of `b`.
pub open spec fn prefix(a: Seq<Action>, b: Seq<Action>) -> bool {
    a.len() <= b.len() && b.subrange(0, a.len() as int) == a
}

/// The queue after a delivery once the handler's follow-up, if any, was published.
pub open spec fn with_reply(step: Step) -> (Seq<Action>, bool) {
    match step.2 {
        Ok(Some(a)) => if step.1.1 {
            (step.1.0.push(a), true)
        } else {
            step.1
        },
        _ => step.1,
    }
}

/// `q` is panel `p` after it received `actions`, one after the other, in order;
/// what was published at each delivery, the handler's follow-up included, stands
/// at the start of `queue`, in the order it was published.
pub open spec fn received<P: Component>(p: P, actions: Seq<Action>, q: P, queue: Seq<Action>) -> bool {
    exists|states: Seq<P>, steps: Seq<Step>|
        #![trigger trace(states, actions, steps)]
        trace(states, actions, steps) && states[0] == p && states.last() == q && forall|k: int|
            0 <= k < steps.len() ==> prefix(#[trigger] with_reply(steps[k]).0, queue)
}

/// Nothing received, nothing changed.
pub proof fn lemma_received_nothing<P: Component>(p: P, queue: Seq<Action>)
    ensures
        received(p, Seq::empty(), p, queue),
{
    let states = seq![p];
    let steps = Seq::<Step>::empty();
    assert(trace(states, Seq::empty(), steps));
}

/// What stands at the start of a queue still does once more is appended.
pub proof fn lemma_received_extend<P: Component>(
    p: P,
    actions: Seq<Action>,
    q: P,
    queue: Seq<Action>,
    longer: Seq<Action>,
)
    requires
        received(p, actions, q, queue),
        prefix(queue, longer),
    ensures
        received(p, actions, q, longer),
{
    let (states, steps) = choose|states: Seq<P>, steps: Seq<Step>|
        #![trigger trace(states, actions, steps)]
        trace(states, actions, steps) && states[0] == p && states.last() == q && forall|k: int|
            0 <= k < steps.len() ==> prefix(#[trigger] with_reply(steps[k]).0, queue);
    assert forall|k: int| 0 <= k < steps.len() implies prefix(#[trigger] with_reply(steps[k]).0, longer) by {
        let x = with_reply(steps[k]).0;
        assert(longer.subrange(0, x.len() as int) =~= longer.subrange(0, queue.len() as int).subrange(
            0,
            x.len() as int,
        ));
    }
}

/// Receiving one more action extends what a panel received.
pub proof fn lemma_received_step<P: Component>(
    p: P,
    actions: Seq<Action>,
    a: Action,
    mid: P,
    q: P,
    out: (Seq<Action>, bool),
    next_out: (Seq<Action>, bool),
    r: Result<Option<Action>, TuiError>,
    queue: Seq<Action>,
)
    requires
        received(p, actions, mid, queue),
        mid.update_post(a, out, q, next_out, r),
        prefix(with_reply((out, next_out, r)).0, queue),
    ensures
        received(p, actions.push(a), q, queue),
{
    let (states, steps) = choose|states: Seq<P>, steps: Seq<Step>|
        #![trigger trace(states, actions, steps)]
        trace(states, actions, steps) && states[0] == p && states.last() == mid && forall|k: int|
            0 <= k < steps.len() ==> prefix(#[trigger] with_reply(steps[k]).0, queue);
    let states2 = states.push(q);
    let steps2 = steps.push((out, next_out, r));
    let actions2 = actions.push(a);
    assert forall|k: int| #![trigger steps2[k]] 0 <= k < actions2.len() implies states2[k].update_post(
        actions2[k],
        steps2[k].0,
        states2[k + 1],
        steps2[k].1,
        steps2[k].2,
    ) by {
        if k < actions.len() {
            assert(steps[k] == steps2[k]);
        }
    }
    assert(trace(states2, actions2, steps2));
    assert forall|k: int| 0 <= k < steps2.len() implies prefix(#[trigger] with_reply(steps2[k]).0, queue) by {
        if k < steps.len() {
            assert(steps[k] == steps2[k]);
        }
    }
}

/// The indices of `n` panels, in order.
pub open spec fn all_panels(n: nat) -> Seq<usize> {
    Seq::new(n, |j: int| j as usize)
}

/// The panels, in drawing order, and the queue they publish into.
pub struct Dispatcher<P> {
    pub panels: Vec<P>,
    pub queue: Outbox,
}

impl<P: Component> Dispatcher<P> {
    pub fn new(panels: Vec<P>) -> (r: Dispatcher<P>)
        ensures
            r.panels@ == panels@,
            r.queue@ == (Seq::<Action>::empty(), true),
    {
        Dispatcher { panels, queue: Outbox::new() }
    }

    /// Publishes an action from the host side.
    pub fn publish(&mut self, action: Action) -> (r: Result<(), TuiError>)
        ensures
            final(self).panels == old(self).panels,
            old(self).queue@.1 ==> final(self).queue@ == (old(self).queue@.0.push(action), true)
                && r == Ok::<(), TuiError>(()),
            !old(self).queue@.1 ==> final(self).queue@ == old(self).queue@ && r == Err::<
                (),
                TuiError,
            >(TuiError::ChannelClosed),
    {
        self.queue.publish(action)
    }

    /// Tears the queue down, as at shutdown.
    pub fn close(&mut self)
        ensures
            final(self).panels == old(self).panels,
            final(self).queue@ == (old(self).queue@.0, false),
    {
        self.queue.close()
    }

    /// The number of actions waiting for the next dispatch.
    pub fn pending(&self) -> (r: usize)
        ensures
            r == self.queue@.0.len(),
    {
        self.queue.len()
    }

    /// Hands a key press to the panel at `index`, the one with the focus. Nothing
    /// happens when there is no such panel.
    pub fn handle_key(&mut self, index: usize, key: KeyEvent) -> (r: Option<
        Result<Option<Action>, TuiError>,
    >)
        ensures
            index >= old(self).panels@.len() ==> r.is_none() && final(self).panels == old(
                self,
            ).panels && final(self).queue@ == old(self).queue@,
            index < old(self).panels@.len() ==> (r matches Some(x) && old(
                self,
            ).panels@[index as int].key_post(
                key,
                old(self).queue@,
                final(self).panels@[index as int],
                final(self).queue@,
                x,
            ) && final(self).panels@ == old(self).panels@.update(
                index as int,
                final(self).panels@[index as int],
            )),
    {
        if index >= self.panels.len() {
            return None;
        }
        let r = self.panels[index].handle_key_events(key, &mut self.queue);
        Some(r)
    }

    /// One dispatch pass. Takes every waiting action out of the queue and delivers
    /// each, oldest first, to every panel in order. Returns, for each action taken
    /// out, the indices of the panels it was delivered to. What panels publish
    /// meanwhile, and the follow-up actions their handlers return, wait in the
    /// queue for the next pass, in the order they were published: each panel's
    /// final state comes from its own handler's contract applied to the drained
    /// actions, and what each delivery published stands at the start of the final
    /// queue.
    pub fn dispatch(&mut self) -> (r: Vec<Vec<usize>>)
        ensures
            r@.len() == old(self).queue@.0.len(),
            forall|i: int| 0 <= i < r@.len() ==> (#[trigger] r@[i])@ == all_panels(
                old(self).panels@.len(),
            ),
            final(self).panels@.len() == old(self).panels@.len(),
            forall|j: int|
                0 <= j < old(self).panels@.len() ==> received(
                    old(self).panels@[j],
                    old(self).queue@.0,
                    #[trigger] final(self).panels@[j],
                    final(self).queue@.0,
                ),
            final(self).queue@.1 == old(self).queue@.1,
            !old(self).queue@.1 ==> final(self).queue@.0.len() == 0,
    {
        let actions = self.queue.take_pending();
        let ghost drained = actions@;
        let ghost start = self.panels@;
        let ghost open = self.queue@.1;
        let n = self.panels.len();
        let mut log: Vec<Vec<usize>> = Vec::new();
        let mut i: usize = 0;
        proof {
            assert forall|j: int| 0 <= j < n implies received(
                start[j],
                drained.take(0),
                #[trigger] self.panels@[j],
                self.queue@.0,
            ) by {
                assert(drained.take(0) =~= Seq::empty());
                lemma_received_nothing(start[j], self.queue@.0);
            }
        }
        while i < actions.len()
            invariant
                actions@ == drained,
                drained == old(self).queue@.0,
                start == old(self).panels@,
                open == old(self).queue@.1,
                n == start.len(),
                self.panels@.len() == n,
                i <= drained.len(),
                log@.len() == i,
                forall|k: int| 0 <= k < i ==> (#[trigger] log@[k])@ == all_panels(n as nat),
                forall|j: int|
                    0 <= j < n ==> received(
                        start[j],
                        drained.take(i as int),
                        #[trigger] self.panels@[j],
                        self.queue@.0,
                    ),
                self.queue@.1 == open,
                !open ==> self.queue@.0.len() == 0,
            decreases drained.len() - i,
        {
            let mut got: Vec<usize> = Vec::new();
            let mut j: usize = 0;
            while j < n
                invariant
                    actions@ == drained,
                    start == old(self).panels@,
                    n == start.len(),
                    self.panels@.len() == n,
                    i < drained.len(),
                    j <= n,
                    got@ == all_panels(j as nat),
                    forall|x: int|
                        0 <= x < j ==> received(
                            start[x],
                            drained.take(i as int + 1),
                            #[trigger] self.panels@[x],
                            self.queue@.0,
                        ),
                    forall|x: int|
                        j <= x < n ==> received(
                            start[x],
                            drained.take(i as int),
                            #[trigger] self.panels@[x],
                            self.queue@.0,
                        ),
                    self.queue@.1 == open,
                    !open ==> self.queue@.0.len() == 0,
                decreases n - j,
            {
                let ghost before = self.panels@[j as int];
                let ghost q0 = self.queue@;
                let r = self.panels[j].update(&actions[i], &mut self.queue);
                let ghost after = self.panels@[j as int];
                let ghost q1 = self.queue@;
                let ghost rg = r;
                match r {
                    Ok(Some(reply)) => {
                        let _ = self.queue.publish(reply);
                    },
                    _ => {},
                }
                proof {
                    let q2 = self.queue@;
                    assert(q2 == with_reply((q0, q1, rg)));
                    assert(q2.0.subrange(0, q2.0.len() as int) =~= q2.0);
                    assert(prefix(q0.0, q2.0)) by {
                        assert(q2.0.subrange(0, q0.0.len() as int) =~= q1.0.subrange(0, q0.0.len() as int));
                    }
                    assert forall|x: int| 0 <= x < n && x != j implies received(
                        start[x],
                        if x < j { drained.take(i as int + 1) } else { drained.take(i as int) },
                        #[trigger] self.panels@[x],
                        q2.0,
                    ) by {
                        lemma_received_extend(
                            start[x],
                            if x < j { drained.take(i as int + 1) } else { drained.take(i as int) },
                            self.panels@[x],
                            q0.0,
                            q2.0,
                        );
                    }
                    lemma_received_extend(start[j as int], drained.take(i as int), before, q0.0, q2.0);
                    lemma_received_step(
                        start[j as int],
                        drained.take(i as int),
                        drained[i as int],
                        before,
                        after,
                        q0,
                        q1,
                        rg,
                        q2.0,
                    );
                    assert(drained.take(i as int).push(drained[i as int]) =~= drained.take(i as int + 1));
                }
                got.push(j);
                j = j + 1;
                assert(got@ =~= all_panels(j as nat));
            }
            log.push(got);
            i = i + 1;
        }
        proof {
            assert(drained.take(i as int) =~= drained);
        }
        log
    }
}

} // verus!
