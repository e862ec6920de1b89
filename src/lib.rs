//! Templating of subgraph manifests and planning of the toolchain commands
//! that build and deploy them.

pub mod builder;
pub mod cli;
pub mod command;
pub mod deploy;
pub mod template;

pub use builder::{build, BuildArgs, ReadFailure, TemplaterError};
pub use cli::{dispatch, Subgraph};
pub use command::{Command, RunnerError, RunnerFailure, Step};
pub use deploy::{deploy, DeployArgs};
pub use template::{
    Abi, DataSource, EventHandler, Mapping, Params, Schema, Source, SubgraphTemplate,
};
