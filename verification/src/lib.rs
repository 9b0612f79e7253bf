//! The ICH8/PCH part of an e1000 Ethernet driver, as a core that performs no
//! I/O of its own.
//!
//! Module `io` says how the core and its caller work together, and what the
//! model of a run is that every contract speaks of. Module `hw` holds the
//! driver's software state. The other modules hold the driver functions, each
//! with a spec function on runs that says exactly what it does, and the laws
//! that relate them.

pub mod bits;
pub mod consts;
pub mod counters;
pub mod eee;
pub mod emi;
pub mod error;
pub mod events;
pub mod flash;
pub mod hw;
pub mod io;
pub mod jumbo;
pub mod k1;
pub mod keeping;
pub mod lanphypc;
pub mod laws;
pub mod led;
pub mod link;
pub mod link_info;
pub mod ltr;
pub mod mcast;
pub mod nvm;
pub mod params;
pub mod phy_access;
pub mod phy_config;
pub mod power;
pub mod rar;
pub mod reset;
pub mod resume;
pub mod resumption;
pub mod setup;
pub mod swflag;
pub mod ulp;
