//! A status-bar controller that supervises a background server: the shutdown
//! signal shared by the tray and the server supervisor, the tray's identity and
//! menu, the dispatch of menu activations, the supervisor's state machine and
//! the startup sequence.
pub mod descriptor;
pub mod signal;
pub mod startup;
pub mod supervisor;
pub mod tray;
