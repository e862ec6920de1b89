use subgraph::command::{check_exit, spawn_failed};
use subgraph::deploy::deploy_sg_with_endpoint;
use subgraph::{
    deploy, dispatch, BuildArgs, Command, DeployArgs, RunnerError, RunnerFailure, Step, Subgraph,
};

fn words(ws: &[&str]) -> Vec<String> {
    ws.iter().map(|w| w.to_string()).collect()
}

fn npx(ws: &[&str]) -> Step {
    Step::Run(Command { program: "npx".to_string(), args: words(ws) })
}

fn args(endpoint: Option<&str>, token: Option<&str>) -> DeployArgs {
    DeployArgs {
        subgraph_name: "org/tokens".to_string(),
        endpoint: endpoint.map(|e| e.to_string()),
        token_access: token.map(|t| t.to_string()),
        build: BuildArgs {
            network: Some("mainnet".to_string()),
            block_number: Some(1),
            address: None,
            template_path: None,
            output_path: None,
        },
    }
}

#[test]
fn local_endpoint_creates_node_before_deploy() {
    let steps = deploy(&args(Some("http://localhost:8020"), None));
    assert_eq!(steps.len(), 5);
    assert_eq!(steps[3], npx(&["graph", "create", "--node", "http://localhost:8020", "org/tokens"]));
    assert_eq!(
        steps[4],
        npx(&[
            "graph",
            "deploy",
            "--node",
            "http://localhost:8020",
            "--ipfs",
            "http://localhost:5001",
            "org/tokens",
            "--version-label",
            "1",
        ])
    );
}

#[test]
fn remote_endpoint_skips_node_creation() {
    let steps = deploy(&args(Some("https://api.thegraph.com/deploy/"), None));
    assert_eq!(steps.len(), 4);
    assert_eq!(
        steps[3],
        npx(&[
            "graph",
            "deploy",
            "--node",
            "https://api.thegraph.com/deploy/",
            "org/tokens",
            "--version-label",
            "1",
        ])
    );
}

#[test]
fn no_endpoint_deploys_directly_after_auth() {
    let steps = deploy(&args(None, Some("SECRET-REDACTED")));
    assert_eq!(steps.len(), 5);
    assert_eq!(
        steps[3],
        npx(&["graph", "auth", "--product", "hosted-service", "SECRET-REDACTED"])
    );
    assert_eq!(steps[4], npx(&["graph", "deploy", "org/tokens"]));
}

#[test]
fn deploy_starts_with_the_build() {
    let a = args(None, None);
    let steps = deploy(&a);
    let built = dispatch(&Subgraph::Build(a.build.clone()));
    assert_eq!(steps[..3], built[..]);
    assert_eq!(dispatch(&Subgraph::Deploy(a)), steps);
}

#[test]
fn deploy_with_endpoint_without_ipfs() {
    let c = deploy_sg_with_endpoint(&"sg".to_string(), &"http://node:8020".to_string(), None);
    assert_eq!(c.program, "npx");
    assert_eq!(c.args, words(&["graph", "deploy", "--node", "http://node:8020", "sg", "--version-label", "1"]));
}

#[test]
fn exit_zero_is_success() {
    assert_eq!(check_exit("npm".to_string(), Some(0)), Ok(()));
}

#[test]
fn non_zero_exit_is_runner_error() {
    assert_eq!(
        check_exit("npm".to_string(), Some(2)),
        Err(RunnerError { program: "npm".to_string(), failure: RunnerFailure::Status(Some(2)) })
    );
    assert_eq!(
        check_exit("npx".to_string(), None),
        Err(RunnerError { program: "npx".to_string(), failure: RunnerFailure::Status(None) })
    );
}

#[test]
fn spawn_failure_is_runner_error() {
    assert_eq!(
        spawn_failed("npx".to_string(), "not found".to_string()),
        RunnerError { program: "npx".to_string(), failure: RunnerFailure::Spawn("not found".to_string()) }
    );
}
