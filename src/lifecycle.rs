//! What whole runs of subscriptions and releases guarantee about the
//! capture source and about each subscriber's frames.
use vstd::prelude::*;
use crate::frames::{Control, FramesView, Received, StreamView, release_step};

verus! {

/// One step of a run: a new subscription, or a live one going away.
pub enum Op {
    Subscribe,
    Release,
}

/// The bookkeeping after `op`.
pub open spec fn apply(v: FramesView, op: Op) -> FramesView {
    match op {
        Op::Subscribe => v.subscribed(),
        Op::Release => v.released(),
    }
}

/// The command that `op` issues to the capture source.
pub open spec fn control_of(v: FramesView, op: Op) -> Control {
    match op {
        Op::Subscribe => v.subscribe_control(),
        Op::Release => v.release_control(),
    }
}

/// The bookkeeping after all of `ops`, from `v`.
pub open spec fn state_after(v: FramesView, ops: Seq<Op>) -> FramesView
    decreases ops.len(),
{
    if ops.len() == 0 {
        v
    } else {
        apply(state_after(v, ops.drop_last()), ops.last())
    }
}

/// The command issued by the step at index `i` of `ops`.
pub open spec fn control_at(v: FramesView, ops: Seq<Op>, i: int) -> Control {
    control_of(state_after(v, ops.take(i)), ops[i])
}

/// The starts and stops that `ops` issue, in order.
pub open spec fn source_commands(v: FramesView, ops: Seq<Op>) -> Seq<Control>
    decreases ops.len(),
{
    if ops.len() == 0 {
        Seq::empty()
    } else {
        let prev = source_commands(v, ops.drop_last());
        let c = control_of(state_after(v, ops.drop_last()), ops.last());
        if c == Control::Nothing { prev } else { prev.push(c) }
    }
}

/// `n` subscriptions in a row.
pub open spec fn subscriptions(n: nat) -> Seq<Op> {
    Seq::new(n, |i: int| Op::Subscribe)
}

proof fn lemma_state_after_take(v: FramesView, ops: Seq<Op>, i: int)
    requires
        0 <= i < ops.len(),
    ensures
        state_after(v, ops.take(i + 1)) == apply(state_after(v, ops.take(i)), ops[i]),
{
    assert(ops.take(i + 1).drop_last() =~= ops.take(i));
}

/// Any number `n >= 1` of subscriptions made while the source is idle start
/// it exactly once, on the first of them; afterwards `n` are counted.
pub proof fn lemma_single_start(v: FramesView, n: nat)
    requires
        v.count == 0,
        n >= 1,
    ensures
        source_commands(v, subscriptions(n)) == seq![Control::Start],
        forall|i: int|
            0 <= i < n ==> #[trigger] control_at(v, subscriptions(n), i) == (if i == 0 {
                Control::Start
            } else {
                Control::Nothing
            }),
        state_after(v, subscriptions(n)).count == n,
    decreases n,
{
    let ops = subscriptions(n);
    if n == 1 {
        assert(ops.drop_last() =~= Seq::<Op>::empty());
        assert(source_commands(v, ops.drop_last()) == Seq::<Control>::empty());
        assert(state_after(v, ops.drop_last()) == v);
        assert(seq![Control::Start] =~= Seq::<Control>::empty().push(Control::Start));
    } else {
        lemma_single_start(v, (n - 1) as nat);
        assert(ops.drop_last() =~= subscriptions((n - 1) as nat));
        assert(state_after(v, ops.drop_last()).count == n - 1);
        assert(control_of(state_after(v, ops.drop_last()), ops.last()) == Control::Nothing);
    }
    assert forall|i: int| 0 <= i < n implies control_at(v, ops, i) == (if i == 0 {
        Control::Start
    } else {
        Control::Nothing
    }) by {
        lemma_subscribes_count(v, ops, i);
    }
}

proof fn lemma_subscribes_count(v: FramesView, ops: Seq<Op>, i: int)
    requires
        0 <= i <= ops.len(),
        forall|k: int| 0 <= k < ops.len() ==> ops[k] == Op::Subscribe,
    ensures
        state_after(v, ops.take(i)).count == v.count + i,
    decreases i,
{
    if i > 0 {
        lemma_subscribes_count(v, ops, i - 1);
        lemma_state_after_take(v, ops, i - 1);
    } else {
        assert(ops.take(0) =~= Seq::<Op>::empty());
    }
}

/// Over any run of subscriptions and releases, the capture source is told
/// to stop exactly when a release brings the count from one to zero. The
/// commands alternate (start, stop, start, ... from idle), so there is one
/// stop for each stretch during which the count was above zero, and the
/// source is left running exactly when the count ends above zero.
pub proof fn lemma_starts_and_stops_alternate(v: FramesView, ops: Seq<Op>)
    ensures
        forall|i: int|
            0 <= i < ops.len() ==> (control_at(v, ops, i) == Control::Stop <==> (ops[i]
                == Op::Release && state_after(v, ops.take(i)).count == 1)),
        forall|i: int|
            0 <= i < ops.len() ==> (control_at(v, ops, i) == Control::Stop ==> state_after(
                v,
                ops.take(i + 1),
            ).count == 0),
        forall|j: int|
            0 <= j < source_commands(v, ops).len() ==> source_commands(v, ops)[j] == (if (j % 2
                == 0) == (v.count == 0) {
                Control::Start
            } else {
                Control::Stop
            }),
        state_after(v, ops).running() == (v.running() != (source_commands(v, ops).len() % 2
            == 1)),
    decreases ops.len(),
{
    assert forall|i: int| 0 <= i < ops.len() && control_at(v, ops, i) == Control::Stop implies state_after(
        v,
        ops.take(i + 1),
    ).count == 0 by {
        lemma_state_after_take(v, ops, i);
    }
    if ops.len() > 0 {
        lemma_starts_and_stops_alternate(v, ops.drop_last());
    }
}

/// Releasing a subscription twice (say once by its owner and once when its
/// connection is torn down) lowers the count once: the second release
/// changes nothing and issues no command.
pub proof fn lemma_release_idempotent(f: FramesView, s: StreamView)
    requires
        !s.released,
    ensures
        ({
            let (f1, s1, c1) = release_step(f, s);
            let (f2, s2, c2) = release_step(f1, s1);
            &&& f1 == f.released()
            &&& f.count > 0 ==> f1.count == f.count - 1
            &&& s1.released
            &&& f2 == f1
            &&& s2 == s1
            &&& c2 == Control::Nothing
        }),
{
}

/// Whatever a subscription receives, the frames it has handed out keep
/// increasing positions, all before the next one it will read.
pub proof fn lemma_receive_keeps_order<F>(s: StreamView, r: Received<F>)
    requires
        s.wf(),
    ensures
        s.received(r).wf(),
{
}

/// After a lag that dropped `n` frames, the next frame handed out is no
/// older than the oldest frame left in the subscriber's queue, and newer
/// than every frame handed out before: nothing is handed out twice.
pub proof fn lemma_lag_moves_forward<F>(s: StreamView, n: u64, f: F)
    requires
        s.wf(),
    ensures
        ({
            let after = s.received(Received::<F>::Lagged(n)).received(Received::Frame(f));
            &&& after.delivered.last() >= s.next + n
            &&& forall|i: int|
                0 <= i < s.delivered.len() ==> s.delivered[i] < after.delivered.last()
            &&& after.wf()
        }),
{
    lemma_receive_keeps_order(s, Received::<F>::Lagged(n));
    lemma_receive_keeps_order(s.received(Received::<F>::Lagged(n)), Received::Frame(f));
}

/// Epochs never go back over a run.
pub proof fn lemma_epoch_monotone(v: FramesView, ops: Seq<Op>)
    ensures
        state_after(v, ops).epoch >= v.epoch,
    decreases ops.len(),
{
    if ops.len() > 0 {
        lemma_epoch_monotone(v, ops.drop_last());
    }
}

/// A subscription made while the source is idle opens an epoch newer than
/// every earlier one, so it is never attached to the frames of an earlier run
/// of the capture source.
pub proof fn lemma_idle_subscription_opens_new_epoch(v: FramesView, ops: Seq<Op>)
    requires
        state_after(v, ops).count == 0,
    ensures
        state_after(v, ops).subscribed().epoch > v.epoch,
        state_after(v, ops).subscribed().epoch > state_after(v, ops).epoch,
{
    lemma_epoch_monotone(v, ops);
}

/// While the count stays above zero, every subscription joins the same
/// epoch: subscribers attached during one run of the capture source are fed
/// by that run's channel alone (or see its end, once its frames ended).
pub proof fn lemma_attached_share_epoch(v: FramesView, ops: Seq<Op>)
    requires
        v.count > 0,
        forall|i: int| 0 < i <= ops.len() ==> state_after(v, #[trigger] ops.take(i)).count > 0,
    ensures
        state_after(v, ops).epoch == v.epoch,
        state_after(v, ops).subscribed().epoch == v.subscribed().epoch,
    decreases ops.len(),
{
    if ops.len() > 0 {
        let p = ops.drop_last();
        assert forall|i: int| 0 < i <= p.len() implies state_after(v, #[trigger] p.take(i)).count
            > 0 by {
            assert(p.take(i) =~= ops.take(i));
        }
        lemma_attached_share_epoch(v, p);
        assert(ops.take(ops.len() as int) =~= ops);
    }
}

} // verus!
