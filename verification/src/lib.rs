//! A verified supervision core for a long-running child process.
//!
//! The library launches a child process through an injected spawning
//! capability, watches for its termination, relays its console output,
//! and restarts it after a fixed delay, forever.  Every decision the
//! supervisor takes — validation of the command descriptor, wrapping of
//! start-up failures, forwarding of output, the restart cycle itself —
//! is carried by a contract and proved.  The operating-system edges
//! (forking, pipes, threads) live outside the library, behind the
//! spawner, stream and sink traits defined here.

pub mod channel;
pub mod descriptor;
pub mod error;
pub mod monitor;
pub mod spawner;
pub mod stream;
pub mod supervisor;
