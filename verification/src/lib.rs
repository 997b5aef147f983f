//! Self-build of the daemon: the rules of the build record lifecycle, the
//! reading of `cargo test` output, the build and deploy pipelines as state
//! machines, and the data the service publishes about itself.

pub mod text;
pub mod test_output;
pub mod status;
pub mod types;
pub mod digest;
pub mod ids;
pub mod commit;
pub mod pipeline;
pub mod deploy;
pub mod paths;
pub mod api;
pub mod extension;
pub mod requests;
