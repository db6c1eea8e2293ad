use vstd::prelude::*;

use crate::config::Config;
use crate::error::{DeliveryError, Error};
use crate::item::Item;
use crate::json::item_json;
use crate::queue::{deliveries, sentinel_last, sentinel_queued, DispatchQueue, Message};
use crate::tracker::{failures_of, Tracker};

verus! {

/// Where a transport stands in its life. No phase leads back to `Active`.
#[derive(Debug, Clone, Copy, PartialEq, Eq, Structural)]
pub enum Phase {
    /// Accepting deliveries.
    Active,
    /// The queue is closed; deliveries already accepted are still settling.
    ShuttingDown,
    /// Nothing is in flight and the failures have been reported.
    Closed,
}

/// The abstract state of a transport.
pub struct TransportState {
    pub config: Config,
    /// Messages not yet taken by the worker, oldest first.
    pub queue: Seq<Message>,
    /// Deliveries that the queue holds at most.
    pub capacity: nat,
    /// Deliveries accepted and not yet settled.
    pub in_flight: nat,
    /// Deliveries taken by the worker and not yet settled.
    pub taken: nat,
    /// Failures met since the last report.
    pub errors: Seq<DeliveryError>,
    pub phase: Phase,
}

impl TransportState {
    pub open spec fn wf(self) -> bool {
        &&& sentinel_last(self.queue)
        &&& self.phase == Phase::Active ==> !sentinel_queued(self.queue)
        &&& deliveries(self.queue) <= self.capacity
        &&& self.capacity <= usize::MAX
        &&& self.in_flight == deliveries(self.queue) + self.taken
        &&& self.in_flight <= u64::MAX
    }
}

/// A transport just made from `config`.
pub open spec fn initial_state(config: Config) -> TransportState {
    TransportState {
        config,
        queue: Seq::empty(),
        capacity: config.queue_capacity as nat,
        in_flight: 0,
        taken: 0,
        errors: Seq::empty(),
        phase: Phase::Active,
    }
}

/// A producer offers `item`.
pub open spec fn send_step(s: TransportState, item: Item) -> (TransportState, Result<(), Error>) {
    if s.phase != Phase::Active {
        (s, Err(Error::Closed))
    } else if s.queue.len() >= s.capacity {
        (s, Err(Error::QueueFull))
    } else if s.in_flight >= u64::MAX {
        (s, Err(Error::MaxQueueDepthExceeded))
    } else {
        (
            TransportState {
                queue: s.queue.push(Message::Deliver(item)),
                in_flight: s.in_flight + 1,
                ..s
            },
            Ok(()),
        )
    }
}

/// The worker takes the oldest message, if there is one.
pub open spec fn take_step(s: TransportState) -> (TransportState, Option<Message>) {
    if s.queue.len() == 0 {
        (s, None)
    } else {
        let m = s.queue[0];
        (
            TransportState {
                queue: s.queue.drop_first(),
                taken: if m is Deliver { s.taken + 1 } else { s.taken },
                ..s
            },
            Some(m),
        )
    }
}

/// The worker reports how a delivery that it took ended. A failure is
/// kept in any case; without a delivery taken and unsettled, the counts
/// stay as they are and `QueueDepthOutOfSync` is returned.
pub open spec fn settle_step(s: TransportState, outcome: Result<(), DeliveryError>) -> (
    TransportState,
    Result<(), Error>,
) {
    if s.taken == 0 {
        (TransportState { errors: s.errors + failures_of(outcome), ..s }, Err(Error::QueueDepthOutOfSync))
    } else {
        (
            TransportState {
                taken: (s.taken - 1) as nat,
                in_flight: (s.in_flight - 1) as nat,
                errors: s.errors + failures_of(outcome),
                ..s
            },
            Ok(()),
        )
    }
}

/// Shutdown is asked for: the queue is closed (once), and where nothing is
/// in flight the failures so far are handed out and forgotten. `None` means
/// that deliveries are still settling.
pub open spec fn shutdown_step(s: TransportState) -> (TransportState, Option<Seq<DeliveryError>>) {
    let c = if s.phase == Phase::Active {
        TransportState { queue: s.queue.push(Message::Shutdown), phase: Phase::ShuttingDown, ..s }
    } else {
        s
    };
    if c.in_flight == 0 {
        (TransportState { phase: Phase::Closed, errors: Seq::empty(), ..c }, Some(c.errors))
    } else {
        (c, None)
    }
}

/// The result by which shutdown reports the failures `errors`: success where
/// there are none, else one error that lists them all in order.
pub open spec fn reports_failures(r: Result<(), Error>, errors: Seq<DeliveryError>) -> bool {
    if errors.len() == 0 {
        r == Ok::<(), Error>(())
    } else {
        r matches Err(Error::ShutdownWithErrors(v)) && v@ == errors
    }
}

pub open spec fn shutdown_reports(r: Option<Result<(), Error>>, o: Option<Seq<DeliveryError>>) -> bool {
    match o {
        None => r.is_none(),
        Some(errors) => r matches Some(res) && reports_failures(res, errors),
    }
}

/// Name of the header that carries the access token.
pub const ACCESS_TOKEN_HEADER: &'static str = "X-Rollbar-Access-Token";

/// One HTTP POST to make: where, with which access token (sent in the
/// `ACCESS_TOKEN_HEADER` header), and the JSON body.
#[derive(Debug, Clone)]
pub struct Request {
    pub url: String,
    pub access_token: String,
    pub body: String,
}

/// The dispatch state shared by the producers and the one delivery worker:
/// the queue, the outcome tracker and the phase. Callers that share it
/// between threads hold it under one lock; the network call is made
/// outside that lock, between `next_message` and `settle`.
pub struct Transport {
    config: Config,
    queue: DispatchQueue,
    tracker: Tracker,
    taken: u64,
    phase: Phase,
}

impl View for Transport {
    type V = TransportState;

    closed spec fn view(&self) -> TransportState {
        TransportState {
            config: self.config,
            queue: self.queue.messages_spec(),
            capacity: self.queue.capacity_spec(),
            in_flight: self.tracker.in_flight_spec(),
            taken: self.taken as nat,
            errors: self.tracker.errors_spec(),
            phase: self.phase,
        }
    }
}

impl Transport {
    pub closed spec fn wf(&self) -> bool {
        &&& self.queue.wf()
        &&& self@.wf()
        &&& (self.phase == Phase::Active <==> self.queue.is_open_spec())
    }

    /// A well-formed transport has a well-formed abstract state, so the
    /// laws stated over `TransportState` apply to it.
    pub proof fn lemma_wf(&self)
        requires
            self.wf(),
        ensures
            self@.wf(),
    {
    }

    /// A transport in the `Active` phase with an empty queue whose capacity
    /// is the configured one.
    pub fn new(config: Config) -> (r: Transport)
        ensures
            r.wf(),
            r@ == initial_state(config),
    {
        let capacity = config.queue_capacity;
        let r = Transport {
            config,
            queue: DispatchQueue::new(capacity),
            tracker: Tracker::new(),
            taken: 0,
            phase: Phase::Active,
        };
        proof {
            assert(r@.queue =~= Seq::<Message>::empty());
        }
        r
    }

    pub fn config(&self) -> (r: &Config)
        ensures
            *r == self@.config,
    {
        &self.config
    }

    /// Replaces the configuration used for later deliveries; the queue keeps
    /// its capacity.
    pub fn set_config(&mut self, config: Config)
        requires
            old(self).wf(),
        ensures
            final(self).wf(),
            final(self)@ == (TransportState { config, ..old(self)@ }),
    {
        self.config = config;
    }

    pub fn phase(&self) -> (r: Phase)
        ensures
            r == self@.phase,
    {
        self.phase
    }

    /// Number of deliveries accepted and not yet settled.
    pub fn in_flight(&self) -> (r: u64)
        ensures
            r == self@.in_flight,
    {
        self.tracker.in_flight()
    }

    /// The POST that delivers `item` under the current configuration.
    pub fn request(&self, item: &Item) -> (r: Request)
        ensures
            r.url@ == self@.config.endpoint@,
            r.access_token@ == self@.config.access_token@,
            r.body@ == item_json(*item),
    {
        let body = item.to_json();
        Request { url: self.config.endpoint.clone(), access_token: self.config.access_token.clone(), body }
    }

    /// Offers an item for delivery without waiting.
    pub fn send(&mut self, item: Item) -> (r: Result<(), Error>)
        requires
            old(self).wf(),
        ensures
            final(self).wf(),
            (final(self)@, r) == send_step(old(self)@, item),
    {
        if !self.queue.is_open() {
            return Err(Error::Closed);
        }
        if self.queue.len() >= self.queue.capacity() {
            return Err(Error::QueueFull);
        }
        if self.tracker.in_flight() == u64::MAX {
            return Err(Error::MaxQueueDepthExceeded);
        }
        let ghost q0 = self.queue.messages_spec();
        let _ = self.queue.enqueue(item);
        let _ = self.tracker.record_enqueued();
        proof {
            assert(!sentinel_queued(q0));
            assert(!sentinel_queued(self.queue.messages_spec()));
        }
        Ok(())
    }

    /// The worker takes the oldest message. A delivery stays in flight until
    /// it is settled; the sentinel tells the worker to stop.
    pub fn next_message(&mut self) -> (r: Option<Message>)
        requires
            old(self).wf(),
        ensures
            final(self).wf(),
            (final(self)@, r) == take_step(old(self)@),
    {
        let ghost q0 = self.queue.messages_spec();
        let m = self.queue.dequeue();
        proof {
            if q0.len() > 0 {
                let q1 = q0.drop_first();
                if q0[0] is Shutdown {
                    assert(q0.len() == 1);
                    assert(q1.len() == 0);
                } else if q0.len() >= 2 {
                    assert(q1.last() == q0.last());
                }
            }
        }
        match &m {
            Some(Message::Deliver(_)) => {
                self.taken = self.taken + 1;
            },
            _ => {},
        }
        m
    }

    /// The worker reports the outcome of the delivery it took last; a
    /// failure is kept for the shutdown report. Without a delivery taken
    /// and unsettled, the failure is still kept, the counts stay as they
    /// are and `QueueDepthOutOfSync` is returned.
    pub fn settle(&mut self, outcome: Result<(), DeliveryError>) -> (r: Result<(), Error>)
        requires
            old(self).wf(),
        ensures
            final(self).wf(),
            (final(self)@, r) == settle_step(old(self)@, outcome),
    {
        if self.taken == 0 {
            self.tracker.record_outcome(outcome);
            return Err(Error::QueueDepthOutOfSync);
        }
        self.taken = self.taken - 1;
        self.tracker.record_settled(outcome)
    }

    /// Closes the queue to new deliveries, if it is still open. Then, where
    /// nothing is in flight, reports the failures met since the last report
    /// (`Some`); while deliveries are settling it returns `None`, and the
    /// caller waits for the worker and asks again. Calling it again after a
    /// report succeeds at once.
    pub fn shutdown(&mut self) -> (r: Option<Result<(), Error>>)
        requires
            old(self).wf(),
        ensures
            final(self).wf(),
            final(self)@ == shutdown_step(old(self)@).0,
            shutdown_reports(r, shutdown_step(old(self)@).1),
            r.is_some() ==> final(self)@.in_flight == 0,
            old(self)@.in_flight == 0 && old(self)@.errors.len() == 0 ==> r == Some(
                Ok::<(), Error>(()),
            ),
    {
        if self.phase == Phase::Active {
            self.queue.close();
            self.phase = Phase::ShuttingDown;
        }
        if self.tracker.in_flight() != 0 {
            return None;
        }
        self.phase = Phase::Closed;
        let errors = self.tracker.drain_errors();
        if errors.len() == 0 {
            Some(Ok(()))
        } else {
            Some(Err(Error::ShutdownWithErrors(errors)))
        }
    }
}

} // verus!
