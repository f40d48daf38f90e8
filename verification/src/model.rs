//! The rows and requests that the coordinator reads, as plain values.

use crate::clock::Timestamp;
use vstd::prelude::*;

verus! {

/// Identifier of a booking (an aggregate of instances).
pub type AggregateId = u128;

/// Identifier of one reserved machine slot.
pub type InstanceId = u128;

/// Identifier of a physical machine.
pub type HostId = u128;

/// Identifier of an operating system image.
pub type ImageId = u128;

/// Identifier of a template.
pub type TemplateId = u128;

/// How a provisioning event reads to the person who booked.
#[derive(Clone, Copy, Debug, PartialEq, Eq)]
pub enum Sentiment {
    Positive,
    Neutral,
    Negative,
}

/// One entry of an instance's provisioning history.
#[derive(Debug, PartialEq, Eq)]
pub struct LogEvent {
    pub time: Timestamp,
    pub sentiment: Sentiment,
    pub headline: String,
    pub detail: String,
}

/// An instance row: the slot, the booking that owns it, and the machine bound
/// to it, if one is.
#[derive(Debug, PartialEq, Eq)]
pub struct Instance {
    pub id: InstanceId,
    pub aggregate: AggregateId,
    pub hostname: String,
    pub image: ImageId,
    pub linked_host: Option<HostId>,
}

/// A physical machine: its stable name and the address of its management
/// controller.
#[derive(Debug, PartialEq, Eq)]
pub struct Host {
    pub server_name: String,
    pub ipmi_fqdn: String,
}

/// A booking row. `C` is the reservation-level configuration, which the
/// coordinator hands on without reading it.
#[derive(Debug, PartialEq, Eq)]
pub struct Aggregate<C> {
    pub id: AggregateId,
    pub configuration: C,
    pub template: TemplateId,
}

/// Why the store refused an operation.
#[derive(Clone, Copy, Debug, PartialEq, Eq)]
pub enum StoreError {
    NotFound,
    ConnectionLost,
    ConstraintViolation,
}

} // verus!
