//! Telemetry-report core: an outcome algebra for folding the results of many
//! independent probes, an ordered error collection with a derived response
//! status, and a total response encoder.

pub mod encode;
pub mod error;
pub mod errors;
pub mod outcome;
pub mod report;

pub use error::Error;
pub use errors::Errors;
pub use errors::StatusCode;
pub use encode::BodyKind;
pub use encode::Reply;
pub use outcome::Outcome;
pub use outcome::Payload;
pub use outcome::fold_outcomes;
pub use report::Os;
pub use report::SystemInformation;
pub use report::filter_successes;
