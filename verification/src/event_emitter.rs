//! Sink for local event records.
use vstd::prelude::*;
use crate::event_contracts::{
    AlertRecord, DeliveryAttemptRecord, SenderStatusRecord, SourceStatusRecord,
};

verus! {

/// One record handed to an event emitter.
pub enum EmittedRecord {
    Alert(AlertRecord),
    DeliveryAttempt(DeliveryAttemptRecord),
    SenderStatus(SenderStatusRecord),
    SourceStatus(SourceStatusRecord),
}

/// A sink for event records, such as an append-only JSON Lines file.
///
/// `emitted` is the sequence of all records handed to the emitter so far,
/// whether or not writing them succeeded.
///
/// The bodies given to these ghost views are only defaults for
/// implementations that keep no such history: nothing verified relies on them.
pub trait EventEmitter {
    closed spec fn emitted(&self) -> Seq<EmittedRecord> {
        Seq::empty()
    }

    fn emit_alert(&mut self, record: &AlertRecord) -> (r: Result<(), String>)
        ensures
            final(self).emitted() == old(self).emitted().push(EmittedRecord::Alert(*record)),
    ;

    fn emit_delivery_attempt(&mut self, record: &DeliveryAttemptRecord) -> (r: Result<(), String>)
        ensures
            final(self).emitted() == old(self).emitted().push(
                EmittedRecord::DeliveryAttempt(*record),
            ),
    ;

    fn emit_sender_status(&mut self, record: &SenderStatusRecord) -> (r: Result<(), String>)
        ensures
            final(self).emitted() == old(self).emitted().push(
                EmittedRecord::SenderStatus(*record),
            ),
    ;

    fn emit_source_status(&mut self, record: &SourceStatusRecord) -> (r: Result<(), String>)
        ensures
            final(self).emitted() == old(self).emitted().push(
                EmittedRecord::SourceStatus(*record),
            ),
    ;
}

} // verus!
