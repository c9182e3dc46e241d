//! The part of the ConnMan binding that needs no bus: the one-shot store of
//! pass phrases, the reading of the properties of a service, and the
//! decisions of connecting and disconnecting.

pub mod agent;
pub mod consts;
pub mod error;
pub mod session;
pub mod translation;
