//! Diagnostic communication with vehicle ECUs over a passthrough adapter: the
//! channel configuration, the backend interface, the KWP2000 session state
//! machine and the controller that a user interface drives.
pub mod hexfmt;
pub mod transport;
pub mod protocol;
pub mod comm;
pub mod session;
pub mod kwp2000_session;
pub mod driver;
