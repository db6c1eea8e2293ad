use vstd::prelude::*;
use vstd::string::*;

verus! {

/// Why one delivery to the collection endpoint failed.
#[derive(Debug, Clone, Copy, PartialEq, Eq, Structural)]
pub enum DeliveryError {
    /// The endpoint answered 413.
    PayloadTooLarge,
    /// The endpoint answered 429.
    RateLimited,
    /// The endpoint answered 403.
    AccessDenied,
    /// The endpoint answered 422.
    MissingInfo,
    /// The request never got an answer (DNS, connect, TLS, ...).
    Network,
}

/// What a delivery with the given HTTP status amounts to.
pub open spec fn status_outcome(status: u16) -> Result<(), DeliveryError> {
    if status == 413 {
        Err(DeliveryError::PayloadTooLarge)
    } else if status == 429 {
        Err(DeliveryError::RateLimited)
    } else if status == 403 {
        Err(DeliveryError::AccessDenied)
    } else if status == 422 {
        Err(DeliveryError::MissingInfo)
    } else {
        Ok(())
    }
}

/// Classifies the endpoint's answer to one delivery. Failures are recorded
/// by the caller and never retried.
pub fn classify_status(status: u16) -> (r: Result<(), DeliveryError>)
    ensures
        r == status_outcome(status),
{
    if status == 413 {
        Err(DeliveryError::PayloadTooLarge)
    } else if status == 429 {
        Err(DeliveryError::RateLimited)
    } else if status == 403 {
        Err(DeliveryError::AccessDenied)
    } else if status == 422 {
        Err(DeliveryError::MissingInfo)
    } else {
        Ok(())
    }
}

impl DeliveryError {
    /// The name under which the failure is reported.
    pub open spec fn spec_text(self) -> Seq<char> {
        match self {
            DeliveryError::PayloadTooLarge => "PayloadTooLarge"@,
            DeliveryError::RateLimited => "RateLimited"@,
            DeliveryError::AccessDenied => "AccessDenied"@,
            DeliveryError::MissingInfo => "MissingInfo: the api did not receive enough information for this item."@,
            DeliveryError::Network => "Network"@,
        }
    }

    pub fn text(&self) -> (r: String)
        ensures
            r@ == self.spec_text(),
    {
        match self {
            DeliveryError::PayloadTooLarge => String::from_str("PayloadTooLarge"),
            DeliveryError::RateLimited => String::from_str("RateLimited"),
            DeliveryError::AccessDenied => String::from_str("AccessDenied"),
            DeliveryError::MissingInfo => String::from_str(
                "MissingInfo: the api did not receive enough information for this item.",
            ),
            DeliveryError::Network => String::from_str("Network"),
        }
    }
}

/// Errors of the transport and of the items it carries.
#[derive(Debug, Clone, PartialEq, Eq)]
pub enum Error {
    /// The queue already holds as many deliveries as its capacity.
    QueueFull,
    /// Shutdown has begun: the queue takes no new deliveries.
    Closed,
    /// The background worker could not be started.
    RuntimeCreation,
    /// The in-flight counter cannot count one more delivery.
    MaxQueueDepthExceeded,
    /// A delivery was settled that had never been handed out.
    QueueDepthOutOfSync,
    /// A shared slot was used before a transport was configured into it.
    TransportNotConfigured,
    /// Shutdown drained the queue; these deliveries failed, in order.
    ShutdownWithErrors(Vec<DeliveryError>),
}

/// The lines listing failed deliveries, one name and a newline each.
pub open spec fn failure_lines(errors: Seq<DeliveryError>) -> Seq<char>
    decreases errors.len(),
{
    if errors.len() == 0 {
        Seq::empty()
    } else {
        failure_lines(errors.drop_last()) + errors.last().spec_text() + "\n"@
    }
}

impl Error {
    /// The error's message.
    pub open spec fn spec_text(&self) -> Seq<char> {
        match self {
            Error::QueueFull => "QueueFull"@,
            Error::Closed => "Closed"@,
            Error::RuntimeCreation => "RuntimeCreation"@,
            Error::MaxQueueDepthExceeded => "MaxQueueDepthExceeded"@,
            Error::QueueDepthOutOfSync => "QueueDepthOutOfSync"@,
            Error::TransportNotConfigured => "TransportNotConfigured: must configure before sending data."@,
            Error::ShutdownWithErrors(errors) => "Shutdown with errors:\n "@ + failure_lines(errors@),
        }
    }

    pub fn text(&self) -> (r: String)
        ensures
            r@ == self.spec_text(),
    {
        match self {
            Error::QueueFull => String::from_str("QueueFull"),
            Error::Closed => String::from_str("Closed"),
            Error::RuntimeCreation => String::from_str("RuntimeCreation"),
            Error::MaxQueueDepthExceeded => String::from_str("MaxQueueDepthExceeded"),
            Error::QueueDepthOutOfSync => String::from_str("QueueDepthOutOfSync"),
            Error::TransportNotConfigured => String::from_str(
                "TransportNotConfigured: must configure before sending data.",
            ),
            Error::ShutdownWithErrors(errors) => {
                let mut out = String::from_str("Shutdown with errors:\n ");
                let mut i: usize = 0;
                while i < errors.len()
                    invariant
                        i <= errors@.len(),
                        out@ == "Shutdown with errors:\n "@ + failure_lines(errors@.subrange(0, i as int)),
                    decreases errors.len() - i,
                {
                    let line = errors[i].text();
                    out.append(line.as_str());
                    out.append("\n");
                    proof {
                        let next = errors@.subrange(0, i + 1);
                        assert(next.drop_last() =~= errors@.subrange(0, i as int));
                    }
                    i = i + 1;
                }
                proof {
                    assert(errors@.subrange(0, errors@.len() as int) =~= errors@);
                }
                out
            },
        }
    }
}

} // verus!
