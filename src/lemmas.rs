use vstd::prelude::*;

use crate::error::{status_outcome, DeliveryError, Error};
use crate::item::Item;
use crate::queue::{deliveries, sentinel_queued, Message};
use crate::tracker::failures_of;
use crate::transport::{send_step, settle_step, shutdown_step, take_step, Phase, TransportState};

verus! {

/// Sends `items` one after another, with no delivery taken in between.
pub open spec fn send_all(s: TransportState, items: Seq<Item>) -> (
    TransportState,
    Seq<Result<(), Error>>,
)
    decreases items.len(),
{
    if items.len() == 0 {
        (s, Seq::empty())
    } else {
        let (s1, r) = send_step(s, items[0]);
        let (s2, rs) = send_all(s1, items.drop_first());
        (s2, seq![r] + rs)
    }
}

/// The worker takes `n` messages one after another.
pub open spec fn take_all(s: TransportState, n: nat) -> (TransportState, Seq<Option<Message>>)
    decreases n,
{
    if n == 0 {
        (s, Seq::empty())
    } else {
        let (s1, m) = take_step(s);
        let (s2, ms) = take_all(s1, (n - 1) as nat);
        (s2, seq![m] + ms)
    }
}

/// The worker takes one delivery after another and settles each with what
/// the endpoint's status in `statuses` means.
pub open spec fn work_off(s: TransportState, statuses: Seq<u16>) -> TransportState
    decreases statuses.len(),
{
    if statuses.len() == 0 {
        s
    } else {
        work_off(
            settle_step(take_step(s).0, status_outcome(statuses[0])).0,
            statuses.drop_first(),
        )
    }
}

/// The failures that the statuses mean, in order.
pub open spec fn status_failures(statuses: Seq<u16>) -> Seq<DeliveryError>
    decreases statuses.len(),
{
    if statuses.len() == 0 {
        Seq::empty()
    } else {
        failures_of(status_outcome(statuses[0])) + status_failures(statuses.drop_first())
    }
}

pub open spec fn count_status(statuses: Seq<u16>, code: u16) -> nat
    decreases statuses.len(),
{
    if statuses.len() == 0 {
        0
    } else {
        (if statuses[0] == code { 1nat } else { 0nat }) + count_status(statuses.drop_first(), code)
    }
}

pub open spec fn count_failure(errors: Seq<DeliveryError>, e: DeliveryError) -> nat
    decreases errors.len(),
{
    if errors.len() == 0 {
        0
    } else {
        (if errors[0] == e { 1nat } else { 0nat }) + count_failure(errors.drop_first(), e)
    }
}

proof fn lemma_sends_from(s: TransportState, items: Seq<Item>)
    requires
        s.wf(),
        s.phase == Phase::Active,
        s.taken == 0,
    ensures
        send_all(s, items).0.wf(),
        send_all(s, items).0.phase == Phase::Active,
        send_all(s, items).0.taken == 0,
        send_all(s, items).0.capacity == s.capacity,
        send_all(s, items).1.len() == items.len(),
        forall|i: int|
            0 <= i < items.len() ==> (#[trigger] send_all(s, items).1[i]) == if s.queue.len() + i
                < s.capacity {
                Ok::<(), Error>(())
            } else {
                Err::<(), Error>(Error::QueueFull)
            },
        items.len() + s.queue.len() <= s.capacity ==> send_all(s, items).0.queue == s.queue + items.map_values(
            |it: Item| Message::Deliver(it),
        ),
    decreases items.len(),
{
    if items.len() > 0 {
        assert(!sentinel_queued(s.queue));
        let (s1, r) = send_step(s, items[0]);
        let rest = items.drop_first();
        if s.queue.len() < s.capacity {
            assert(s.in_flight < u64::MAX);
            assert(!sentinel_queued(s1.queue));
            assert forall|i: int| 0 <= i < s1.queue.len() - 1 implies (#[trigger] s1.queue[i]) is Deliver by {
                assert(s1.queue[i] == s.queue[i]);
            }
        }
        lemma_sends_from(s1, rest);
        let rs = send_all(s1, rest).1;
        assert forall|i: int| 0 <= i < items.len() implies (#[trigger] send_all(s, items).1[i]) == if s.queue.len() + i
            < s.capacity {
            Ok::<(), Error>(())
        } else {
            Err::<(), Error>(Error::QueueFull)
        } by {
            if i > 0 {
                assert(send_all(s, items).1[i] == rs[i - 1]);
            }
        }
        if items.len() + s.queue.len() <= s.capacity {
            assert(s.queue + items.map_values(|it: Item| Message::Deliver(it)) =~= s1.queue
                + rest.map_values(|it: Item| Message::Deliver(it)));
        }
    }
}

/// Before the worker takes anything, sends into an open transport with an
/// empty queue all succeed up to its capacity, and every later one fails
/// with `QueueFull`.
pub proof fn lemma_sends_fill_capacity(s: TransportState, items: Seq<Item>)
    requires
        s.wf(),
        s.phase == Phase::Active,
        s.queue.len() == 0,
        s.taken == 0,
    ensures
        send_all(s, items).1.len() == items.len(),
        forall|i: int|
            0 <= i < items.len() ==> (#[trigger] send_all(s, items).1[i]) == if i < s.capacity {
                Ok::<(), Error>(())
            } else {
                Err::<(), Error>(Error::QueueFull)
            },
{
    lemma_sends_from(s, items);
}

proof fn lemma_takes_in_order(s: TransportState, n: nat)
    requires
        n <= s.queue.len(),
    ensures
        take_all(s, n).1.len() == n,
        forall|i: int| 0 <= i < n ==> (#[trigger] take_all(s, n).1[i]) == Some(s.queue[i]),
    decreases n,
{
    if n > 0 {
        let (s1, m) = take_step(s);
        lemma_takes_in_order(s1, (n - 1) as nat);
        assert forall|i: int| 0 <= i < n implies (#[trigger] take_all(s, n).1[i]) == Some(s.queue[i]) by {
            if i > 0 {
                assert(take_all(s, n).1[i] == take_all(s1, (n - 1) as nat).1[i - 1]);
                assert(s1.queue[i - 1] == s.queue[i]);
            }
        }
    }
}

/// Items that one producer sends in turn into an open transport with an
/// empty queue, and that fit in it, reach the worker in the order they were
/// sent.
pub proof fn lemma_delivery_order(s: TransportState, items: Seq<Item>)
    requires
        s.wf(),
        s.phase == Phase::Active,
        s.queue.len() == 0,
        s.taken == 0,
        items.len() <= s.capacity,
    ensures
        forall|i: int|
            0 <= i < items.len() ==> (#[trigger] take_all(send_all(s, items).0, items.len()).1[i])
                == Some(Message::Deliver(items[i])),
{
    lemma_sends_from(s, items);
    let q = send_all(s, items).0.queue;
    assert(q =~= items.map_values(|it: Item| Message::Deliver(it)));
    lemma_takes_in_order(send_all(s, items).0, items.len());
}

/// Shutdown with an empty queue and nothing taken reports at once; asked
/// again after any report, it changes nothing and succeeds.
pub proof fn lemma_shutdown_idempotent(s: TransportState)
    requires
        s.wf(),
    ensures
        s.queue.len() == 0 && s.taken == 0 ==> shutdown_step(s).1 == Some(s.errors),
        shutdown_step(s).1 is Some ==> shutdown_step(shutdown_step(s).0) == (
            shutdown_step(s).0,
            Some(Seq::<DeliveryError>::empty()),
        ),
{
    let t = shutdown_step(s).0;
    if shutdown_step(s).1 is Some {
        assert(t.errors =~= Seq::<DeliveryError>::empty());
        assert(shutdown_step(t).0 =~= t);
    }
}

proof fn lemma_work_off(s: TransportState, statuses: Seq<u16>)
    requires
        s.wf(),
        statuses.len() <= deliveries(s.queue),
        s.taken == 0,
    ensures
        work_off(s, statuses).wf(),
        work_off(s, statuses).taken == 0,
        work_off(s, statuses).phase == s.phase,
        work_off(s, statuses).in_flight == s.in_flight - statuses.len(),
        work_off(s, statuses).errors == s.errors + status_failures(statuses),
    decreases statuses.len(),
{
    if statuses.len() > 0 {
        let t = take_step(s).0;
        assert(s.queue[0] is Deliver);
        if s.queue.len() >= 2 {
            assert(t.queue.last() == s.queue.last());
        }
        assert forall|i: int| 0 <= i < t.queue.len() - 1 implies (#[trigger] t.queue[i]) is Deliver by {
            assert(t.queue[i] == s.queue[i + 1]);
        }
        let u = settle_step(t, status_outcome(statuses[0])).0;
        lemma_work_off(u, statuses.drop_first());
        assert(s.errors + status_failures(statuses) =~= u.errors + status_failures(
            statuses.drop_first(),
        ));
    }
}

proof fn lemma_count_failures(statuses: Seq<u16>)
    ensures
        count_failure(status_failures(statuses), DeliveryError::AccessDenied) == count_status(
            statuses,
            403,
        ),
    decreases statuses.len(),
{
    if statuses.len() > 0 {
        let rest = statuses.drop_first();
        lemma_count_failures(rest);
        let f = failures_of(status_outcome(statuses[0]));
        let all = status_failures(statuses);
        if f.len() == 1 {
            assert(all[0] == f[0]);
            assert(all.drop_first() =~= status_failures(rest));
        } else {
            assert(all =~= status_failures(rest));
        }
    }
}

/// Every failed delivery shows in the shutdown report. When the worker
/// works off all the deliveries of a transport that had taken none and met
/// no failure yet, the endpoint answering `statuses` in turn, nothing is
/// left in flight and shutdown reports exactly the failures that these
/// answers mean, in order: as many `AccessDenied` as there were 403s.
pub proof fn lemma_shutdown_reports_every_failure(s: TransportState, statuses: Seq<u16>)
    requires
        s.wf(),
        s.taken == 0,
        s.errors.len() == 0,
        statuses.len() == deliveries(s.queue),
    ensures
        work_off(s, statuses).in_flight == 0,
        shutdown_step(work_off(s, statuses)).1 == Some(status_failures(statuses)),
        count_failure(status_failures(statuses), DeliveryError::AccessDenied) == count_status(
            statuses,
            403,
        ),
{
    lemma_work_off(s, statuses);
    assert(s.errors + status_failures(statuses) =~= status_failures(statuses));
    lemma_count_failures(statuses);
}

/// One call on a transport, as the laws over sequences of calls name it.
pub enum Step {
    Send(Item),
    Take,
    Settle(Result<(), DeliveryError>),
}

/// The item a message carries, if it is a delivery.
pub open spec fn carried(m: Message) -> Seq<Item> {
    match m {
        Message::Deliver(it) => seq![it],
        Message::Shutdown => Seq::empty(),
    }
}

/// The items that the queued deliveries carry, oldest first.
pub open spec fn queued_items(q: Seq<Message>) -> Seq<Item>
    decreases q.len(),
{
    if q.len() == 0 {
        Seq::empty()
    } else {
        carried(q[0]) + queued_items(q.drop_first())
    }
}

/// Makes the calls `steps` in turn. Gives the state reached, the items whose
/// send succeeded, and the items the worker took, each in call order.
pub open spec fn run_steps(s: TransportState, steps: Seq<Step>) -> (
    TransportState,
    Seq<Item>,
    Seq<Item>,
)
    decreases steps.len(),
{
    if steps.len() == 0 {
        (s, Seq::empty(), Seq::empty())
    } else {
        match steps[0] {
            Step::Send(it) => {
                let (s1, r) = send_step(s, it);
                let (s2, a, t) = run_steps(s1, steps.drop_first());
                (s2, if r is Ok { seq![it] + a } else { a }, t)
            },
            Step::Take => {
                let (s1, m) = take_step(s);
                let (s2, a, t) = run_steps(s1, steps.drop_first());
                (
                    s2,
                    a,
                    match m {
                        Some(msg) => carried(msg) + t,
                        None => t,
                    },
                )
            },
            Step::Settle(o) => run_steps(settle_step(s, o).0, steps.drop_first()),
        }
    }
}

proof fn lemma_queued_push(q: Seq<Message>, m: Message)
    ensures
        queued_items(q.push(m)) == queued_items(q) + carried(m),
    decreases q.len(),
{
    if q.len() == 0 {
        assert(q.push(m).drop_first() =~= Seq::<Message>::empty());
        assert(queued_items(Seq::<Message>::empty()) == Seq::<Item>::empty());
        assert(q.push(m)[0] == m);
        assert(queued_items(q.push(m)) =~= carried(m));
    } else {
        assert(q.push(m).drop_first() =~= q.drop_first().push(m));
        lemma_queued_push(q.drop_first(), m);
        assert(queued_items(q.push(m)) =~= queued_items(q) + carried(m));
    }
}

/// Delivery keeps the order of sending, whatever the interleaving of
/// sends, takes and settles: what was queued, followed by the items whose
/// send succeeded, equals the items taken, followed by what is still
/// queued. So each accepted item is taken once, in the order it was
/// accepted.
pub proof fn lemma_order_kept(s: TransportState, steps: Seq<Step>)
    ensures
        queued_items(s.queue) + run_steps(s, steps).1 == run_steps(s, steps).2 + queued_items(
            run_steps(s, steps).0.queue,
        ),
    decreases steps.len(),
{
    if steps.len() > 0 {
        let rest = steps.drop_first();
        match steps[0] {
            Step::Send(it) => {
                let (s1, r) = send_step(s, it);
                lemma_order_kept(s1, rest);
                if r is Ok {
                    lemma_queued_push(s.queue, Message::Deliver(it));
                }
                assert(queued_items(s.queue) + run_steps(s, steps).1 =~= queued_items(s1.queue)
                    + run_steps(s1, rest).1);
            },
            Step::Take => {
                let (s1, m) = take_step(s);
                lemma_order_kept(s1, rest);
                let (f, a, t) = run_steps(s1, rest);
                assert(run_steps(s, steps).0 == f);
                assert(run_steps(s, steps).1 == a);
                assert(queued_items(s1.queue) + a == t + queued_items(f.queue));
                if s.queue.len() > 0 {
                    let c = carried(s.queue[0]);
                    assert(queued_items(s.queue) == c + queued_items(s.queue.drop_first()));
                    assert(s1.queue == s.queue.drop_first());
                    assert(run_steps(s, steps).2 == c + t);
                    assert(queued_items(s.queue) + a =~= c + (queued_items(s1.queue) + a));
                    assert((c + t) + queued_items(f.queue) =~= c + (t + queued_items(f.queue)));
                } else {
                    assert(s1 == s);
                    assert(run_steps(s, steps).2 == t);
                }
            },
            Step::Settle(o) => {
                lemma_order_kept(settle_step(s, o).0, rest);
            },
        }
    }
}

/// From an empty queue, the items taken are the first of the accepted
/// items, in the order they were accepted.
pub proof fn lemma_taken_in_accepted_order(s: TransportState, steps: Seq<Step>)
    requires
        s.queue.len() == 0,
    ensures
        run_steps(s, steps).2.len() <= run_steps(s, steps).1.len(),
        run_steps(s, steps).2 == run_steps(s, steps).1.take(run_steps(s, steps).2.len() as int),
{
    lemma_order_kept(s, steps);
    let (f, a, t) = run_steps(s, steps);
    assert(queued_items(s.queue) =~= Seq::<Item>::empty());
    assert(a =~= t + queued_items(f.queue));
    assert(a.take(t.len() as int) =~= t);
}

} // verus!
