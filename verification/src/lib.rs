//! Decision logic of a tray helper that accepts League of Legends ready checks
//! through the League Client Update (LCU) API: credential extraction from the
//! client's command line and lockfile, gameflow-phase parsing, the acceptor's
//! control loop as a state machine, startup-entry bookkeeping and the tray
//! menu's state.
pub mod text;
pub mod lcu;
pub mod pattern;
pub mod platform;
pub mod cmd;
pub mod acceptor;
pub mod app;
pub mod accept;
pub mod tray;
