//! A pure model of the command/response correlation protocol.
//!
//! The executable channel in [`crate::response_channel`] runs over opaque
//! queues, so the guarantees that make it a *correlated* request-reply
//! primitive are stated and proved here, over a mathematical state: each
//! caller (one per `ResponseSender` clone) is a number; each of its
//! submissions carries a caller-local nonce; the worker executes a caller's
//! oldest pending submission and delivers the reply into that caller's
//! private slot — the model of the capacity-one reply sub-channel that only
//! this caller can observe.
//!
//! The laws proved:
//! - replies are delivered only to the caller whose submission produced
//!   them, and carry that submission's nonce (no cross-talk);
//! - a sequential caller — at most one submission outstanding — observes
//!   replies in exactly its submission order;
//! - dropping a caller cancels only that caller's wait: every other
//!   caller's state is untouched, and the worker's next step stays defined.

use vstd::prelude::*;

verus! {

/// The protocol state seen from the callers' side.
pub struct ChannelModel {
    /// Callers whose private reply endpoint still exists.
    pub live: Set<nat>,
    /// Per caller: nonces submitted and not yet executed, oldest first.
    pub pending: Map<nat, Seq<nat>>,
    /// Per caller: a reply delivered into the private sub-channel and not
    /// yet observed.
    pub slot: Map<nat, Option<nat>>,
    /// Per caller: every nonce ever submitted, in order.
    pub submitted: Map<nat, Seq<nat>>,
    /// Per caller: the nonces of the replies observed so far, in order.
    pub observed: Map<nat, Seq<nat>>,
}

impl ChannelModel {
    /// The state tracks every live caller.
    pub open spec fn wf(self) -> bool {
        forall|c: nat|
            self.live.contains(c) ==> self.pending.dom().contains(c) && self.slot.dom().contains(
                c,
            ) && self.submitted.dom().contains(c) && self.observed.dom().contains(c)
    }

    /// The slot's content, as a sequence of zero or one nonces.
    pub open spec fn slot_seq(self, c: nat) -> Seq<nat> {
        match self.slot[c] {
            Some(n) => seq![n],
            None => Seq::empty(),
        }
    }

    /// The caller's account balances: everything submitted is either
    /// already observed, still pending with the worker, or sitting in the
    /// private slot — in that order.
    pub open spec fn inv_caller(self, c: nat) -> bool {
        self.submitted[c] == self.observed[c] + self.slot_seq(c) + self.pending[c]
    }

    /// A sequential caller has at most one submission in flight.
    pub open spec fn sequential(self, c: nat) -> bool {
        self.slot_seq(c).len() + self.pending[c].len() <= 1
    }

    /// A caller submits `n`: it joins that caller's pending queue and its
    /// submission history.
    pub open spec fn submit(self, c: nat, n: nat) -> ChannelModel {
        ChannelModel {
            pending: self.pending.insert(c, self.pending[c].push(n)),
            submitted: self.submitted.insert(c, self.submitted[c].push(n)),
            ..self
        }
    }

    /// The worker executes caller `c`'s oldest pending submission and sends
    /// the reply on the private handle that came with it. If the caller
    /// dropped its endpoint meanwhile, the send lands in the void and the
    /// worker simply moves on.
    pub open spec fn deliver(self, c: nat) -> ChannelModel {
        ChannelModel {
            pending: self.pending.insert(c, self.pending[c].drop_first()),
            slot: if self.live.contains(c) && self.slot[c] is None {
                self.slot.insert(c, Some(self.pending[c][0]))
            } else {
                self.slot
            },
            ..self
        }
    }

    /// Caller `c` observes the reply waiting in its private slot.
    pub open spec fn observe(self, c: nat) -> ChannelModel {
        ChannelModel {
            slot: self.slot.insert(c, None),
            observed: self.observed.insert(c, self.observed[c] + self.slot_seq(c)),
            ..self
        }
    }

    /// Caller `c` drops its endpoint mid-wait: its private sub-channel is
    /// gone and it can never observe again.
    pub open spec fn drop_caller(self, c: nat) -> ChannelModel {
        ChannelModel { live: self.live.remove(c), slot: self.slot.insert(c, None), ..self }
    }
}

/// Law (no cross-talk, first half): executing caller `c`'s submission
/// changes no other caller's pending queue, slot, history or liveness, and
/// the reply delivered into `c`'s slot carries exactly the nonce of `c`'s
/// own oldest pending submission — never a value from another caller.
pub proof fn lemma_deliver_isolated(m: ChannelModel, c: nat, other: nat)
    requires
        m.wf(),
        m.live.contains(c),
        m.pending[c].len() > 0,
        other != c,
    ensures
        m.deliver(c).wf(),
        m.slot[c] is None ==> m.deliver(c).slot[c] == Some(m.pending[c][0]),
        m.slot[c] is Some ==> m.deliver(c).slot == m.slot,
        m.deliver(c).pending.dom().contains(other) ==> m.deliver(c).pending[other]
            == m.pending[other],
        m.deliver(c).slot.dom().contains(other) ==> m.deliver(c).slot[other] == m.slot[other],
        m.deliver(c).submitted == m.submitted,
        m.deliver(c).observed == m.observed,
        m.deliver(c).live == m.live,
{
}

/// Law (no cross-talk, second half): what a caller observes was delivered
/// into its own slot, and observing changes no other caller's state. With
/// the first half: over any run, every reply a caller observes carries a
/// nonce of its own submissions.
pub proof fn lemma_observe_isolated(m: ChannelModel, c: nat, other: nat)
    requires
        m.wf(),
        m.live.contains(c),
        other != c,
    ensures
        m.observe(c).wf(),
        m.observe(c).observed[c] == m.observed[c] + m.slot_seq(c),
        m.observe(c).observed.dom().contains(other) ==> m.observe(c).observed[other]
            == m.observed[other],
        m.observe(c).slot.dom().contains(other) ==> m.observe(c).slot[other] == m.slot[other],
        m.observe(c).pending == m.pending,
        m.observe(c).submitted == m.submitted,
{
}

/// Law (per-caller reply order): for a sequential caller the account
/// invariant survives every step that touches it, and when a reply is
/// observed it is exactly the next unobserved submission — so the sequence
/// of replies observed equals the sequence of nonces submitted, in order.
pub proof fn lemma_sequential_order(m: ChannelModel, c: nat, n: nat)
    requires
        m.wf(),
        m.live.contains(c),
        m.inv_caller(c),
        m.sequential(c),
    ensures
        // submitting when nothing is outstanding keeps the account and
        // leaves the new nonce as the single in-flight submission
        m.slot_seq(c).len() + m.pending[c].len() == 0 ==> m.submit(c, n).inv_caller(c) && m.submit(
            c,
            n,
        ).sequential(c) && m.submit(c, n).submitted[c] == m.observed[c].push(n),
        // execution moves the in-flight nonce from pending to the slot
        m.pending[c].len() > 0 ==> m.deliver(c).inv_caller(c) && m.deliver(c).sequential(c),
        // observing appends exactly the next submitted nonce
        m.slot[c] is Some ==> m.observe(c).inv_caller(c) && m.observe(c).sequential(c)
            && m.observe(c).observed[c] == m.observed[c].push(
            m.submitted[c][m.observed[c].len() as int],
        ),
{
    if m.slot_seq(c).len() + m.pending[c].len() == 0 {
        assert(m.submitted[c] == m.observed[c]);
        assert(m.submit(c, n).submitted[c] == m.observed[c].push(n));
        assert(m.submit(c, n).slot_seq(c) == m.slot_seq(c));
        assert(m.submit(c, n).submitted[c] =~= m.observed[c] + m.submit(c, n).slot_seq(c)
            + m.submit(c, n).pending[c]);
    }
    if m.pending[c].len() > 0 {
        assert(m.slot_seq(c).len() == 0);
        assert(m.slot[c] is None);
        let d = m.deliver(c);
        assert(d.slot[c] == Some(m.pending[c][0]));
        assert(d.slot_seq(c) == seq![m.pending[c][0]]);
        assert(d.pending[c] == m.pending[c].drop_first());
        assert(d.slot_seq(c) + d.pending[c] =~= m.pending[c]);
        assert(d.submitted[c] =~= d.observed[c] + d.slot_seq(c) + d.pending[c]);
    }
    if m.slot[c] is Some {
        let o = m.observe(c);
        let k = m.slot[c]->0;
        assert(m.slot_seq(c) == seq![k]);
        assert(m.pending[c].len() == 0);
        assert(m.submitted[c] =~= m.observed[c].push(k));
        assert(m.submitted[c][m.observed[c].len() as int] == k);
        assert(o.observed[c] == m.observed[c] + seq![k]);
        assert(o.observed[c] =~= m.observed[c].push(k));
        assert(o.slot_seq(c) == Seq::<nat>::empty());
        assert(o.submitted[c] =~= o.observed[c] + o.slot_seq(c) + o.pending[c]);
    }
}

/// One thing a sequential caller's world can do next: the caller submits a
/// nonce, the worker executes its pending submission, or the caller
/// observes the delivered reply. A step whose precondition does not hold
/// changes nothing.
pub enum CallerStep {
    Submit(nat),
    Deliver,
    Observe,
}

/// The step's effect on the model, guarded by its enabling condition.
pub open spec fn apply_step(m: ChannelModel, c: nat, step: CallerStep) -> ChannelModel {
    match step {
        CallerStep::Submit(n) => if m.slot_seq(c).len() + m.pending[c].len() == 0 {
            m.submit(c, n)
        } else {
            m
        },
        CallerStep::Deliver => if m.pending[c].len() > 0 {
            m.deliver(c)
        } else {
            m
        },
        CallerStep::Observe => if m.slot[c] is Some {
            m.observe(c)
        } else {
            m
        },
    }
}

/// The model after a whole sequence of steps, applied left to right.
pub open spec fn apply_steps(m: ChannelModel, c: nat, steps: Seq<CallerStep>) -> ChannelModel
    decreases steps.len(),
{
    if steps.len() == 0 {
        m
    } else {
        apply_steps(apply_step(m, c, steps[0]), c, steps.drop_first())
    }
}

/// Law (replies in submission order, over every run): however many
/// commands a sequential caller submits, and however its submissions,
/// executions and observations interleave, the caller's account invariant
/// survives — so at every point the sequence of replies it has observed is
/// exactly the unbroken prefix of the sequence of nonces it submitted.
/// Replies are observed in submission order, for all command sequences.
pub proof fn lemma_sequential_run_order(m: ChannelModel, c: nat, steps: Seq<CallerStep>)
    requires
        m.wf(),
        m.live.contains(c),
        m.inv_caller(c),
        m.sequential(c),
    ensures
        apply_steps(m, c, steps).wf(),
        apply_steps(m, c, steps).live.contains(c),
        apply_steps(m, c, steps).inv_caller(c),
        apply_steps(m, c, steps).sequential(c),
        apply_steps(m, c, steps).observed[c].is_prefix_of(apply_steps(m, c, steps).submitted[c]),
    decreases steps.len(),
{
    if steps.len() == 0 {
        lemma_account_gives_prefix(m, c);
    } else {
        let next = apply_step(m, c, steps[0]);
        match steps[0] {
            CallerStep::Submit(n) => {
                lemma_sequential_order(m, c, n);
            },
            CallerStep::Deliver => {
                lemma_sequential_order(m, c, 0);
            },
            CallerStep::Observe => {
                lemma_sequential_order(m, c, 0);
            },
        }
        assert(next.wf());
        assert(next.live.contains(c));
        lemma_sequential_run_order(next, c, steps.drop_first());
    }
}

/// From the account invariant: what has been observed is an unbroken
/// prefix of what has been submitted.
proof fn lemma_account_gives_prefix(m: ChannelModel, c: nat)
    requires
        m.inv_caller(c),
    ensures
        m.observed[c].is_prefix_of(m.submitted[c]),
{
    assert(m.observed[c] =~= m.submitted[c].subrange(0, m.observed[c].len() as int));
}

/// Law (cancellation is local): a caller that drops its endpoint mid-wait
/// cancels only itself. Every other caller's pending queue, slot and
/// histories are untouched, and the worker's execution of the dropped
/// caller's leftover submission stays a well-defined step whose reply lands
/// in the void — the worker does not crash and later submissions of other
/// callers are served as before.
pub proof fn lemma_drop_cancels_only_self(m: ChannelModel, c: nat, other: nat)
    requires
        m.wf(),
        other != c,
    ensures
        m.drop_caller(c).wf(),
        !m.drop_caller(c).live.contains(c),
        m.drop_caller(c).live.contains(other) == m.live.contains(other),
        m.drop_caller(c).pending == m.pending,
        m.drop_caller(c).slot.dom().contains(other) ==> m.drop_caller(c).slot[other]
            == m.slot[other],
        m.drop_caller(c).submitted == m.submitted,
        m.drop_caller(c).observed == m.observed,
        // the worker's later execution of the dropped caller's submission
        // changes nothing any live caller can see
        m.pending[c].len() > 0 ==> {
            let after = m.drop_caller(c).deliver(c);
            &&& after.slot == m.drop_caller(c).slot
            &&& after.pending[c] == m.pending[c].drop_first()
            &&& after.pending.dom().contains(other) ==> after.pending[other] == m.pending[other]
            &&& after.observed == m.observed
        },
{
}

} // verus!
