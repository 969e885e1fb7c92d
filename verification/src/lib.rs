//! Identification of the local network's default gateway: its network
//! address, its hardware address, its host name and the vendor of its
//! hardware.
//!
//! The library holds every decision of the identification and performs no
//! input or output itself. [`pipeline`] leads through the stages: it names
//! the system command or the remote request that comes next, takes the
//! outcome back from the caller, and gives the line to report. The stages
//! rest on four parts, each of them a function from captured text to a
//! typed result: [`gateway`] finds the default gateway in the routing
//! table, [`neighbor`] finds its hardware address in the neighbor cache,
//! [`hostname`] finds its name in the output of two naming mechanisms, and
//! [`vendor`] reads the answer of the vendor lookup service.

pub mod address;
pub mod gateway;
pub mod hostname;
pub mod neighbor;
pub mod outcome;
pub mod pipeline;
pub mod text;
pub mod vendor;
