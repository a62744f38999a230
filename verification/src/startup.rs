//! Configuration of the service.
pub mod environment_constants;
