//! Client-side model of a service manager's unit state, plus a builder for
//! unit configuration files.
//!
//! The crate models the manager's three state axes (load, active, sub) as
//! enumerations with a lossless string mapping, adapts the untyped wire
//! tuples and property bags of the bus protocol into typed records, and
//! assembles unit configuration text deterministically.

pub mod errors;
pub mod models;
pub mod states;
pub mod strutil;
pub mod templates;

pub use errors::Error;
pub use templates::EnvironmentVariable;
pub use templates::EnvironmentVariableBuilder;
pub use templates::InstallConfiguration;
pub use templates::InstallConfigurationBuilder;
pub use templates::RestartPolicy;
pub use templates::ServiceConfiguration;
pub use templates::ServiceConfigurationBuilder;
pub use templates::ServiceType;
pub use templates::ServiceUnitConfiguration;
pub use templates::ServiceUnitConfigurationBuilder;
pub use templates::UnitConfiguration;
pub use templates::UnitConfigurationBuilder;
pub use models::Job;
pub use models::JobTuple;
pub use models::PropValue;
pub use models::PropertyKey;
pub use models::Unit;
pub use models::UnitProps;
pub use models::UnitPropsBuilder;
pub use models::UnitTuple;
pub use states::UnitActiveStateType;
pub use states::UnitLoadStateType;
pub use states::UnitSubStateType;
