//! Generation of a GitHub Actions workflow that builds, tests and publishes
//! the Python wheels of a Rust project.
//!
//! The workflow is first assembled as data ([`model`]): the platforms to
//! build for are resolved ([`platform`]), each gets a job with its steps
//! ([`steps`], [`jobs`]), and a release job waits for all of them. The data
//! is then written out as text ([`render`]). [`generate`] holds the options
//! of the command and ties the parts together; [`path`] holds the two
//! questions about paths that are left to the standard library.
//!
//! Every function says in its contract what it returns, over the views of
//! its arguments. What holds of the functions together is stated beside
//! them, in proof functions whose names begin with `lemma_`.

pub mod bridge;
pub mod generate;
pub mod jobs;
pub mod model;
pub mod path;
pub mod platform;
pub mod render;
pub mod steps;
pub mod text;

pub use bridge::BridgeModel;
pub use generate::{Destination, GenerateCI, Invocation, Manifest, Output};
pub use model::{Job, Param, Step, Value, Workflow};
pub use platform::{Platform, Provider};
