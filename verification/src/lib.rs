//! Control core for a small fleet of signal-recording processes.
//!
//! The crate holds the rules of the recorder service: validated recorder
//! settings and the command line derived from them, the bounded job log,
//! the job state machine with the steps of process supervision, the job
//! registry, the admission of new recordings, and the data model of the
//! Wi-Fi management layer. Spawning processes, locking, HTTP and the system
//! bus are left to the program around it. Every function is stated over a
//! mathematical view of its data and proved against that statement.

pub mod api;
pub mod clock;
pub mod error;
pub mod job;
pub mod logs;
pub mod registry;
pub mod scientific;
pub mod settings;
pub mod supervisor;
pub mod text;
pub mod uid;
pub mod wifi;

