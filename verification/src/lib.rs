//! Backend of a desktop application shell: a greeting command handler
//! and the startup state machine that wires it into the host runtime.

pub mod bootstrap;
pub mod greeting;
