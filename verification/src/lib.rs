//! Planning and bookkeeping for a minimal container engine: command-line
//! dispatch, image references and registry requests, OCI runtime spec
//! overrides, network setup requests and the step machines that drive
//! pulling an image and running a container.

pub mod search;
pub mod text;
pub mod json;
pub mod json_text;
pub mod oci_spec;
pub mod spec_file;
pub mod paths;
pub mod registry;
pub mod images;
pub mod crun;
pub mod netavark;
pub mod cli;
pub mod pull;
pub mod run;
pub mod laws;
