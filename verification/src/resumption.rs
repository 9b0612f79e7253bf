//! The laws of resuming, function by function: each only adds to what a run
//! has recorded, does nothing once the run has stalled, and agrees with itself
//! when more answers are at hand. So the operations recorded before a stall
//! need not be performed again, and those recorded after it follow them.

pub mod counters;
pub mod eee;
pub mod emi;
pub mod flash;
pub mod jumbo;
pub mod k1;
pub mod lanphypc;
pub mod led;
pub mod link;
pub mod link_info;
pub mod ltr;
pub mod mcast;
pub mod nvm;
pub mod phy_access;
pub mod phy_config;
pub mod rar;
pub mod reset;
pub mod setup;
pub mod swflag;
pub mod ulp;
