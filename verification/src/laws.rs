//! What the driver functions are for, said of what they leave in the record of
//! a run and in the software state.

pub mod addresses;
pub mod failures;
pub mod flash;
pub mod jumbo;
pub mod led;
pub mod link;
pub mod nvm;
pub mod operations;
pub mod params;
pub mod phy_access;
pub mod phy_config;
pub mod reset;
pub mod savings;
pub mod setup;
pub mod ulp;
