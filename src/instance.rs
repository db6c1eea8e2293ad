use vstd::prelude::*;

use crate::config::Config;
use crate::error::Error;
use crate::item::{Body, Item, Level};
use crate::transport::{
    initial_state, send_step, shutdown_reports, shutdown_step, Transport, TransportState,
};

verus! {

/// A slot that holds the one transport of an embedding host, once it is
/// configured.
pub open spec fn slot_wf(slot: Option<Transport>) -> bool {
    slot matches Some(t) ==> t.wf()
}

/// Configures the slot: the first time a transport is made from `config`;
/// later the transport keeps its queue and takes the new configuration.
pub fn configure(slot: &mut Option<Transport>, config: Config)
    requires
        slot_wf(*old(slot)),
    ensures
        slot_wf(*final(slot)),
        (*old(slot)).is_none() ==> (*final(slot) matches Some(t) && t@ == initial_state(config)),
        *old(slot) matches Some(t0) ==> (*final(slot) matches Some(t) && t@ == (TransportState {
            config,
            ..t0@
        })),
{
    match slot {
        Some(t) => {
            t.set_config(config);
        },
        None => {
            *slot = Some(Transport::new(config));
        },
    }
}

/// Shuts the slot's transport down (see `Transport::shutdown`);
/// `TransportNotConfigured` where the slot is empty.
pub fn shutdown(slot: &mut Option<Transport>) -> (r: Option<Result<(), Error>>)
    requires
        slot_wf(*old(slot)),
    ensures
        slot_wf(*final(slot)),
        (*old(slot)).is_none() ==> r == Some(Err::<(), Error>(Error::TransportNotConfigured))
            && (*final(slot)).is_none(),
        *old(slot) matches Some(t0) ==> (*final(slot) matches Some(t) && t@ == shutdown_step(t0@).0
            && shutdown_reports(r, shutdown_step(t0@).1)),
{
    match slot {
        Some(t) => t.shutdown(),
        None => Some(Err(Error::TransportNotConfigured)),
    }
}

/// `s` and `r` are what sending a message item with no extra entries and
/// no language or context, at `level` and with the text `message`, makes of
/// `s0`.
pub open spec fn logged(
    s0: TransportState,
    s: TransportState,
    r: Result<(), Error>,
    level: Level,
    message: String,
) -> bool {
    exists|item: Item|
        {
            &&& item.data.level == level
            &&& item.data.body matches Body::Message(m) && m.body == message && m.extra@.len() == 0
            &&& item.data.language.is_none() && item.data.context.is_none()
            &&& (s, r) == send_step(s0, item)
        }
}

/// Sends a message item with no extra entries at `level` through the
/// slot's transport; `TransportNotConfigured` where the slot is empty.
pub fn log(slot: &mut Option<Transport>, level: Level, message: String) -> (r: Result<(), Error>)
    requires
        slot_wf(*old(slot)),
    ensures
        slot_wf(*final(slot)),
        (*old(slot)).is_none() ==> r == Err::<(), Error>(Error::TransportNotConfigured)
            && (*final(slot)).is_none(),
        *old(slot) matches Some(t0) ==> (*final(slot) matches Some(t) && logged(
            t0@,
            t@,
            r,
            level,
            message,
        )),
{
    match slot {
        Some(t) => {
            let item = Item::message(level, message, Vec::new());
            t.send(item)
        },
        None => Err(Error::TransportNotConfigured),
    }
}

pub fn debug(slot: &mut Option<Transport>, message: String) -> (r: Result<(), Error>)
    requires
        slot_wf(*old(slot)),
    ensures
        slot_wf(*final(slot)),
        (*old(slot)).is_none() ==> r == Err::<(), Error>(Error::TransportNotConfigured),
        *old(slot) matches Some(t0) ==> (*final(slot) matches Some(t) && logged(
            t0@,
            t@,
            r,
            Level::Debug,
            message,
        )),
{
    log(slot, Level::Debug, message)
}

pub fn info(slot: &mut Option<Transport>, message: String) -> (r: Result<(), Error>)
    requires
        slot_wf(*old(slot)),
    ensures
        slot_wf(*final(slot)),
        (*old(slot)).is_none() ==> r == Err::<(), Error>(Error::TransportNotConfigured),
        *old(slot) matches Some(t0) ==> (*final(slot) matches Some(t) && logged(
            t0@,
            t@,
            r,
            Level::Info,
            message,
        )),
{
    log(slot, Level::Info, message)
}

pub fn warning(slot: &mut Option<Transport>, message: String) -> (r: Result<(), Error>)
    requires
        slot_wf(*old(slot)),
    ensures
        slot_wf(*final(slot)),
        (*old(slot)).is_none() ==> r == Err::<(), Error>(Error::TransportNotConfigured),
        *old(slot) matches Some(t0) ==> (*final(slot) matches Some(t) && logged(
            t0@,
            t@,
            r,
            Level::Warning,
            message,
        )),
{
    log(slot, Level::Warning, message)
}

pub fn error(slot: &mut Option<Transport>, message: String) -> (r: Result<(), Error>)
    requires
        slot_wf(*old(slot)),
    ensures
        slot_wf(*final(slot)),
        (*old(slot)).is_none() ==> r == Err::<(), Error>(Error::TransportNotConfigured),
        *old(slot) matches Some(t0) ==> (*final(slot) matches Some(t) && logged(
            t0@,
            t@,
            r,
            Level::Error,
            message,
        )),
{
    log(slot, Level::Error, message)
}

pub fn critical(slot: &mut Option<Transport>, message: String) -> (r: Result<(), Error>)
    requires
        slot_wf(*old(slot)),
    ensures
        slot_wf(*final(slot)),
        (*old(slot)).is_none() ==> r == Err::<(), Error>(Error::TransportNotConfigured),
        *old(slot) matches Some(t0) ==> (*final(slot) matches Some(t) && logged(
            t0@,
            t@,
            r,
            Level::Critical,
            message,
        )),
{
    log(slot, Level::Critical, message)
}

} // verus!
