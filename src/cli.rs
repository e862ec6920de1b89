//! The two runs that the tool offers, and the plan of each.
use vstd::prelude::*;
use crate::builder::{build, build_plan, BuildArgs};
use crate::command::{Step, steps_view};
use crate::deploy::{deploy, deploy_plan, DeployArgs};

verus! {

/// A run of the tool.
#[derive(Debug, Clone, PartialEq, Eq)]
pub enum Subgraph {
    /// Build the current subgraph manifest.
    Build(BuildArgs),
    /// Deploy the current subgraph.
    Deploy(DeployArgs),
}

/// The steps of the run `subgraph`, to be carried out in order until one fails.
pub fn dispatch(subgraph: &Subgraph) -> (r: Vec<Step>)
    ensures
        steps_view(r@) == match subgraph {
            Subgraph::Build(a) => build_plan(*a),
            Subgraph::Deploy(a) => deploy_plan(*a),
        },
{
    match subgraph {
        Subgraph::Build(args) => build(args),
        Subgraph::Deploy(args) => deploy(args),
    }
}

} // verus!
