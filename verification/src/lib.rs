//! Discovery and control of external displays over DDC/CI, without the I/O.
//!
//! The crate holds the rules: which connectors count as connected, how an
//! identification blob names a monitor, how a bus is probed and claimed, and
//! how percentages map to a monitor's native values. A driver performs the
//! reads and the bus exchanges that these rules ask for and hands the
//! outcomes back as plain values.

pub mod connector;
pub mod ddc_manager;
pub mod discovery;
pub mod edid;
pub mod error;
pub mod percent;
pub mod probe;
pub mod settings;
pub mod text;
pub mod vcp;
