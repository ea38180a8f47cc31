//! Idempotent provisioning of an application role and database on a
//! PostgreSQL server: configuration types, a verified decision core that
//! plans every catalog statement, and proofs that repeated runs are safe.

pub mod config;
pub mod env;
pub mod error;
pub mod laws;
pub mod machine;
pub mod model;

pub use config::{ApplicationConfig, BootstrapConfig, ConnectionConfig, RootConfig};
pub use env::EnvVar;
pub use error::{BootstrapError, BootstrapFromEnvironmentError};
pub use machine::{Action, Bootstrap, Event, Notice, Phase, StepOutcome};
