//! The applet registry: records that describe applets, kept in the order in
//! which they were registered.

pub mod contract;
pub mod laws;
pub mod model;
pub mod record;
pub mod state;

pub use self::contract::{RegistryCall, RegistryContract, RegistryReply};
pub use self::record::Applet;
pub use self::state::AppletRegistryState;
