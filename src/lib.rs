//! A price-feed record keeper: records keyed by (provider, symbol), a custody
//! state machine for handing a record to an external execution venue and back,
//! and a freshness check on signed price updates.

pub mod address;
pub mod codec;
pub mod freshness;
pub mod laws;
pub mod model;
pub mod program;
pub mod registry;
