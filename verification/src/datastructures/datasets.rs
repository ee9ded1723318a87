//! The data sets that an instance keeps about itself, its parent and the
//! timescale.

use crate::config::InstanceConfig;
use crate::datastructures::common::{ClockIdentity, ClockQuality, PortIdentity, TimeSource};
use crate::datastructures::messages::SdoId;
use crate::time::Duration;
use vstd::prelude::*;

verus! {

/// The clock class of a clock that was never synchronised.
pub const DEFAULT_CLOCK_CLASS: u8 = 248;

/// The accuracy code of a clock whose accuracy is not known.
pub const UNKNOWN_CLOCK_ACCURACY: u8 = 0xfe;

/// The variance of a clock whose variance was not computed.
pub const UNKNOWN_LOG_VARIANCE: u16 = 0xffff;

/// What the instance is.
#[derive(Clone, Copy, Debug, PartialEq, Eq)]
pub struct DefaultDS {
    pub clock_identity: ClockIdentity,
    pub number_ports: u16,
    pub clock_quality: ClockQuality,
    pub priority_1: u8,
    pub priority_2: u8,
    pub domain_number: u8,
    pub slave_only: bool,
    pub sdo_id: SdoId,
}

impl DefaultDS {
    /// The data set of a new instance with no ports and a clock of unknown
    /// quality.
    pub open spec fn of_config(config: InstanceConfig) -> DefaultDS {
        DefaultDS {
            clock_identity: config.clock_identity,
            number_ports: 0,
            clock_quality: ClockQuality {
                clock_class: DEFAULT_CLOCK_CLASS,
                clock_accuracy: UNKNOWN_CLOCK_ACCURACY,
                offset_scaled_log_variance: UNKNOWN_LOG_VARIANCE,
            },
            priority_1: config.priority_1,
            priority_2: config.priority_2,
            domain_number: config.domain_number,
            slave_only: config.slave_only,
            sdo_id: config.sdo_id,
        }
    }

    pub fn new(config: InstanceConfig) -> (r: DefaultDS)
        ensures
            r == DefaultDS::of_config(config),
    {
        DefaultDS {
            clock_identity: config.clock_identity,
            number_ports: 0,
            clock_quality: ClockQuality {
                clock_class: DEFAULT_CLOCK_CLASS,
                clock_accuracy: UNKNOWN_CLOCK_ACCURACY,
                offset_scaled_log_variance: UNKNOWN_LOG_VARIANCE,
            },
            priority_1: config.priority_1,
            priority_2: config.priority_2,
            domain_number: config.domain_number,
            slave_only: config.slave_only,
            sdo_id: config.sdo_id,
        }
    }
}

/// Where the instance stands relative to its master.
#[derive(Clone, Copy, Debug, Default, PartialEq, Eq, Structural)]
pub struct CurrentDS {
    pub steps_removed: u16,
    pub offset_from_master: Duration,
    pub mean_delay: Duration,
}

/// What the instance knows of its parent and of the grandmaster.
#[derive(Clone, Copy, Debug, PartialEq, Eq)]
pub struct ParentDS {
    pub parent_port_identity: PortIdentity,
    pub parent_stats: bool,
    pub observed_parent_offset_scaled_log_variance: u16,
    pub observed_parent_clock_phase_change_rate: u32,
    pub grandmaster_identity: ClockIdentity,
    pub grandmaster_clock_quality: ClockQuality,
    pub grandmaster_priority_1: u8,
    pub grandmaster_priority_2: u8,
}

impl ParentDS {
    /// The data set of an instance that is its own grandmaster.
    pub open spec fn of_default(default_ds: DefaultDS) -> ParentDS {
        ParentDS {
            parent_port_identity: PortIdentity {
                clock_identity: default_ds.clock_identity,
                port_number: 0,
            },
            parent_stats: false,
            observed_parent_offset_scaled_log_variance: UNKNOWN_LOG_VARIANCE,
            observed_parent_clock_phase_change_rate: 0x7fff_ffff,
            grandmaster_identity: default_ds.clock_identity,
            grandmaster_clock_quality: default_ds.clock_quality,
            grandmaster_priority_1: default_ds.priority_1,
            grandmaster_priority_2: default_ds.priority_2,
        }
    }

    pub fn new(default_ds: DefaultDS) -> (r: ParentDS)
        ensures
            r == ParentDS::of_default(default_ds),
    {
        ParentDS {
            parent_port_identity: PortIdentity {
                clock_identity: default_ds.clock_identity,
                port_number: 0,
            },
            parent_stats: false,
            observed_parent_offset_scaled_log_variance: UNKNOWN_LOG_VARIANCE,
            observed_parent_clock_phase_change_rate: 0x7fff_ffff,
            grandmaster_identity: default_ds.clock_identity,
            grandmaster_clock_quality: default_ds.clock_quality,
            grandmaster_priority_1: default_ds.priority_1,
            grandmaster_priority_2: default_ds.priority_2,
        }
    }
}

/// What the instance knows of the timescale that it distributes.
#[derive(Clone, Copy, Debug, Default, PartialEq, Eq, Structural)]
pub struct TimePropertiesDS {
    /// The offset of the timescale from UTC in seconds, where it is known.
    pub current_utc_offset: Option<i16>,
    pub leap59: bool,
    pub leap61: bool,
    pub time_traceable: bool,
    pub frequency_traceable: bool,
    pub ptp_timescale: bool,
    pub time_source: TimeSource,
}

} // verus!
