//! The port state engine of a Precision Time Protocol endpoint: wire codec,
//! sequence numbering, the master and slave roles of a port and the
//! dispatcher that routes events to the active role.
//!
//! The engine performs no I/O. Every operation returns a short sequence of
//! [`port::PortAction`]s for the surrounding event loop to carry out.

pub mod clock;
pub mod config;
pub mod datastructures;
pub mod port;
pub mod ptp_instance;
pub mod time;

pub use clock::Clock;
pub use config::{DelayMechanism, InstanceConfig, PortConfig};
pub use datastructures::datasets::{CurrentDS, DefaultDS, ParentDS, TimePropertiesDS};
pub use datastructures::messages::MAX_DATA_LEN;
pub use datastructures::WireFormatError;
pub use port::state::{MasterState, PortState, SlaveState};
pub use port::{Measurement, PortAction, PortActionIterator, TimestampContext};
pub use time::{Duration, Interval, Time};
