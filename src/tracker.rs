use vstd::prelude::*;

use crate::error::{DeliveryError, Error};

verus! {

/// Counts the deliveries that were accepted and not yet settled, and keeps
/// the failures met since the last drain.
pub struct Tracker {
    in_flight: u64,
    errors: Vec<DeliveryError>,
}

/// What a settled delivery adds to the list of failures.
pub open spec fn failures_of(outcome: Result<(), DeliveryError>) -> Seq<DeliveryError> {
    match outcome {
        Ok(()) => Seq::empty(),
        Err(e) => seq![e],
    }
}

impl Tracker {
    pub closed spec fn in_flight_spec(&self) -> nat {
        self.in_flight as nat
    }

    pub closed spec fn errors_spec(&self) -> Seq<DeliveryError> {
        self.errors@
    }

    pub fn new() -> (r: Tracker)
        ensures
            r.in_flight_spec() == 0,
            r.errors_spec() == Seq::<DeliveryError>::empty(),
    {
        Tracker { in_flight: 0, errors: Vec::new() }
    }

    pub fn in_flight(&self) -> (r: u64)
        ensures
            r as nat == self.in_flight_spec(),
    {
        self.in_flight
    }

    /// Counts one more accepted delivery; fails, changing nothing, where the
    /// counter is at its largest value.
    pub fn record_enqueued(&mut self) -> (r: Result<(), Error>)
        ensures
            final(self).errors_spec() == old(self).errors_spec(),
            old(self).in_flight_spec() < u64::MAX ==> r == Ok::<(), Error>(())
                && final(self).in_flight_spec() == old(self).in_flight_spec() + 1,
            old(self).in_flight_spec() == u64::MAX ==> r == Err::<(), Error>(
                Error::MaxQueueDepthExceeded,
            ) && final(self).in_flight_spec() == old(self).in_flight_spec(),
    {
        if self.in_flight == u64::MAX {
            Err(Error::MaxQueueDepthExceeded)
        } else {
            self.in_flight = self.in_flight + 1;
            Ok(())
        }
    }

    /// Keeps a failure for the next drain; counts nothing.
    pub fn record_outcome(&mut self, outcome: Result<(), DeliveryError>)
        ensures
            final(self).errors_spec() == old(self).errors_spec() + failures_of(outcome),
            final(self).in_flight_spec() == old(self).in_flight_spec(),
    {
        match outcome {
            Ok(()) => {},
            Err(e) => {
                self.errors.push(e);
            },
        }
        proof {
            assert(self.errors@ =~= old(self).errors@ + failures_of(outcome));
        }
    }

    /// Settles one delivery: a failure is appended to the list, then the
    /// counter goes down by one. A counter already at zero is a broken
    /// invariant of the caller: it is reported and left at zero.
    pub fn record_settled(&mut self, outcome: Result<(), DeliveryError>) -> (r: Result<(), Error>)
        ensures
            final(self).errors_spec() == old(self).errors_spec() + failures_of(outcome),
            old(self).in_flight_spec() > 0 ==> r == Ok::<(), Error>(())
                && final(self).in_flight_spec() == old(self).in_flight_spec() - 1,
            old(self).in_flight_spec() == 0 ==> r == Err::<(), Error>(Error::QueueDepthOutOfSync)
                && final(self).in_flight_spec() == 0,
    {
        self.record_outcome(outcome);
        if self.in_flight == 0 {
            Err(Error::QueueDepthOutOfSync)
        } else {
            self.in_flight = self.in_flight - 1;
            Ok(())
        }
    }

    /// Hands back the failures recorded so far and forgets them.
    pub fn drain_errors(&mut self) -> (r: Vec<DeliveryError>)
        ensures
            r@ == old(self).errors_spec(),
            final(self).errors_spec() == Seq::<DeliveryError>::empty(),
            final(self).in_flight_spec() == old(self).in_flight_spec(),
    {
        let mut drained: Vec<DeliveryError> = Vec::new();
        core::mem::swap(&mut drained, &mut self.errors);
        drained
    }
}

} // verus!
