//! Animation engine for autonomous entities living in the zones of a remote world:
//! the zone model, the per-type behaviors, the event and message model with its wire
//! encoding, and the decisions taken by the scheduler, the routers and the network
//! bridge.

pub mod ac;
pub mod behavior;
pub mod client;
pub mod error;
pub mod event;
pub mod json;
pub mod message;
pub mod model;
pub mod router;
pub mod socket;
pub mod text;
pub mod tile;
pub mod util;
pub mod world;
pub mod zone;
