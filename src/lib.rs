//! A verified bridge between a managed host runtime (a JVM) and native entry
//! points: a write-once registry of the runtime handle, permanent attachment
//! of native threads, and the protocol that turns native failures into host
//! exceptions.
pub mod entry;
pub mod host;
pub mod registry;
pub mod translator;
