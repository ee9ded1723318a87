//! What an instance and its ports are configured with.

use crate::datastructures::common::ClockIdentity;
use crate::datastructures::messages::SdoId;
use crate::time::{Duration, Interval};
use vstd::prelude::*;

verus! {

/// The configuration of an instance: what all of its ports share.
#[derive(Clone, Copy, Debug, PartialEq, Eq)]
pub struct InstanceConfig {
    pub clock_identity: ClockIdentity,
    pub priority_1: u8,
    pub priority_2: u8,
    pub domain_number: u8,
    pub slave_only: bool,
    pub sdo_id: SdoId,
}

/// How a port measures the delay of its path to the master.
#[derive(Clone, Copy, Debug, PartialEq, Eq, Structural)]
pub enum DelayMechanism {
    /// End to end: delay requests, sent about every `interval`.
    E2E { interval: Interval },
}

/// The configuration of one port.
#[derive(Clone, Copy, Debug, PartialEq, Eq, Structural)]
pub struct PortConfig {
    pub delay_mechanism: DelayMechanism,
    pub announce_interval: Interval,
    pub announce_receipt_timeout: u8,
    pub sync_interval: Interval,
    pub master_only: bool,
    pub delay_asymmetry: Duration,
}

impl PortConfig {
    /// The interval that the port would have between its delay requests.
    pub open spec fn delay_interval(self) -> Interval {
        match self.delay_mechanism {
            DelayMechanism::E2E { interval } => interval,
        }
    }

    pub fn min_delay_req_interval(&self) -> (r: Interval)
        ensures
            r == self.delay_interval(),
    {
        match self.delay_mechanism {
            DelayMechanism::E2E { interval } => interval,
        }
    }
}

} // verus!
