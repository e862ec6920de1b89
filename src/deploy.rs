//! The deploy run: build, authenticate if a token is given, then create the
//! node and deploy as the endpoint calls for.
use vstd::prelude::*;
use crate::builder::{build, build_plan, BuildArgs};
use crate::command::{push_string, push_word, Command, CommandView, Step, StepView, steps_view, strings_view};

verus! {

/// Options of a deploy.
#[derive(Debug, Clone, PartialEq, Eq)]
pub struct DeployArgs {
    /// Name under which the subgraph is deployed.
    pub subgraph_name: String,
    /// Node endpoint to deploy to; without one the hosted service is used.
    pub endpoint: Option<String>,
    /// Access token for the hosted service; when given, `graph auth` runs first.
    pub token_access: Option<String>,
    /// Options of the build that precedes the deploy.
    pub build: BuildArgs,
}

/// `p` occurs in `s` as a contiguous run.
pub open spec fn has_substring(s: Seq<char>, p: Seq<char>) -> bool {
    exists|i: int| 0 <= i && i + p.len() <= s.len() && #[trigger] s.subrange(i, i + p.len()) == p
}

/// Relies on `str::contains` with a `&str` pattern: true exactly when the
/// pattern occurs in the string.
#[verifier::external_body]
fn contains_str(s: &str, pattern: &str) -> (r: bool)
    ensures
        r == has_substring(s@, pattern@),
{
    s.contains(pattern)
}

/// The IPFS endpoint of a local node.
pub open spec fn local_ipfs() -> Seq<char> {
    "http://localhost:5001"@
}

/// `npx graph auth --product hosted-service <token>`.
pub open spec fn auth_command(token: Seq<char>) -> CommandView {
    CommandView {
        program: "npx"@,
        args: seq!["graph"@, "auth"@, "--product"@, "hosted-service"@, token],
    }
}

/// `npx graph create --node <endpoint> <name>`.
pub open spec fn create_node_command(endpoint: Seq<char>, name: Seq<char>) -> CommandView {
    CommandView { program: "npx"@, args: seq!["graph"@, "create"@, "--node"@, endpoint, name] }
}

/// `npx graph deploy --node <endpoint> [--ipfs <ipfs>] <name> --version-label 1`.
pub open spec fn deploy_endpoint_command(
    name: Seq<char>,
    endpoint: Seq<char>,
    ipfs: Option<Seq<char>>,
) -> CommandView {
    CommandView {
        program: "npx"@,
        args: match ipfs {
            Some(u) => seq![
                "graph"@,
                "deploy"@,
                "--node"@,
                endpoint,
                "--ipfs"@,
                u,
                name,
                "--version-label"@,
                "1"@,
            ],
            None => seq!["graph"@, "deploy"@, "--node"@, endpoint, name, "--version-label"@, "1"@],
        },
    }
}

/// `npx graph deploy <name>`, the deploy to the hosted service.
pub open spec fn deploy_direct_command(name: Seq<char>) -> CommandView {
    CommandView { program: "npx"@, args: seq!["graph"@, "deploy"@, name] }
}

/// The steps that follow authentication: a local endpoint gets its node
/// created and is deployed to with the local IPFS; another endpoint is
/// deployed to as it is; without an endpoint the direct deploy runs.
pub open spec fn endpoint_plan(name: Seq<char>, endpoint: Option<String>) -> Seq<StepView> {
    match endpoint {
        Some(e) => if has_substring(e@, "localhost"@) {
            seq![
                StepView::Run(create_node_command(e@, name)),
                StepView::Run(deploy_endpoint_command(name, e@, Some(local_ipfs()))),
            ]
        } else {
            seq![StepView::Run(deploy_endpoint_command(name, e@, None))]
        },
        None => seq![StepView::Run(deploy_direct_command(name))],
    }
}

/// The steps of a deploy with `a`.
pub open spec fn deploy_plan(a: DeployArgs) -> Seq<StepView> {
    build_plan(a.build) + match a.token_access {
        Some(t) => seq![StepView::Run(auth_command(t@))],
        None => Seq::empty(),
    } + endpoint_plan(a.subgraph_name@, a.endpoint)
}

fn npx_graph(v: &mut Vec<String>)
    requires
        old(v)@.len() == 0,
    ensures
        strings_view(final(v)@) == seq!["graph"@],
{
    push_word(v, "graph");
    assert(strings_view(v@) =~= seq!["graph"@]);
}

/// The deploy to `subgraph_endpoint`, with `--ipfs` only when an IPFS endpoint is given.
pub fn deploy_sg_with_endpoint(
    name: &String,
    subgraph_endpoint: &String,
    ipfs_endpoint: Option<String>,
) -> (r: Command)
    ensures
        r@ == deploy_endpoint_command(
            name@,
            subgraph_endpoint@,
            match ipfs_endpoint {
                Some(u) => Some(u@),
                None => None,
            },
        ),
{
    let mut args: Vec<String> = Vec::new();
    npx_graph(&mut args);
    push_word(&mut args, "deploy");
    push_word(&mut args, "--node");
    push_string(&mut args, subgraph_endpoint);
    match &ipfs_endpoint {
        Some(u) => {
            push_word(&mut args, "--ipfs");
            push_string(&mut args, u);
        },
        None => {},
    }
    push_string(&mut args, name);
    push_word(&mut args, "--version-label");
    push_word(&mut args, "1");
    let r = Command { program: "npx".to_owned(), args };
    assert(r@.args =~= deploy_endpoint_command(
        name@,
        subgraph_endpoint@,
        match ipfs_endpoint {
            Some(u) => Some(u@),
            None => None,
        },
    ).args);
    r
}

fn auth(token: &String) -> (r: Command)
    ensures
        r@ == auth_command(token@),
{
    let mut args: Vec<String> = Vec::new();
    npx_graph(&mut args);
    push_word(&mut args, "auth");
    push_word(&mut args, "--product");
    push_word(&mut args, "hosted-service");
    push_string(&mut args, token);
    assert(strings_view(args@) =~= auth_command(token@).args);
    Command { program: "npx".to_owned(), args }
}

fn create_node(endpoint: &String, name: &String) -> (r: Command)
    ensures
        r@ == create_node_command(endpoint@, name@),
{
    let mut args: Vec<String> = Vec::new();
    npx_graph(&mut args);
    push_word(&mut args, "create");
    push_word(&mut args, "--node");
    push_string(&mut args, endpoint);
    push_string(&mut args, name);
    assert(strings_view(args@) =~= create_node_command(endpoint@, name@).args);
    Command { program: "npx".to_owned(), args }
}

fn deploy_direct(name: &String) -> (r: Command)
    ensures
        r@ == deploy_direct_command(name@),
{
    let mut args: Vec<String> = Vec::new();
    npx_graph(&mut args);
    push_word(&mut args, "deploy");
    push_string(&mut args, name);
    assert(strings_view(args@) =~= deploy_direct_command(name@).args);
    Command { program: "npx".to_owned(), args }
}

/// The steps of a deploy: the build, `graph auth` when a token is given, then
/// node creation and deploy as the endpoint calls for.
pub fn deploy(args: &DeployArgs) -> (r: Vec<Step>)
    ensures
        steps_view(r@) == deploy_plan(*args),
{
    let mut steps = build(&args.build);
    match &args.token_access {
        Some(t) => steps.push(Step::Run(auth(t))),
        None => {},
    }
    let ghost authed = steps@;
    assert(steps_view(authed) =~= build_plan(args.build) + match args.token_access {
        Some(t) => seq![StepView::Run(auth_command(t@))],
        None => Seq::<StepView>::empty(),
    });
    match &args.endpoint {
        Some(e) => {
            if contains_str(e.as_str(), "localhost") {
                steps.push(Step::Run(create_node(e, &args.subgraph_name)));
                steps.push(
                    Step::Run(
                        deploy_sg_with_endpoint(
                            &args.subgraph_name,
                            e,
                            Some("http://localhost:5001".to_owned()),
                        ),
                    ),
                );
            } else {
                steps.push(Step::Run(deploy_sg_with_endpoint(&args.subgraph_name, e, None)));
            }
        },
        None => steps.push(Step::Run(deploy_direct(&args.subgraph_name))),
    }
    assert(steps_view(steps@) =~= steps_view(authed) + endpoint_plan(
        args.subgraph_name@,
        args.endpoint,
    ));
    steps
}

/// A step that creates a node: `npx graph create ...`.
pub open spec fn is_node_creation(s: StepView) -> bool {
    s is Run && s->Run_0.args.len() >= 2 && s->Run_0.args[1] == "create"@
}

/// A deploy whose endpoint contains `localhost` creates the node and then
/// deploys to that endpoint with the local IPFS; a deploy to any other endpoint
/// creates no node and deploys to that endpoint; a deploy without an endpoint
/// creates no node and ends with the direct deploy.
pub proof fn lemma_endpoint_routing(a: DeployArgs)
    ensures
        ({
            let p = deploy_plan(a);
            let k = build_plan(a.build).len() + if a.token_access is Some { 1int } else { 0int };
            let name = a.subgraph_name@;
            &&& (exists|i: int| 0 <= i < p.len() && is_node_creation(#[trigger] p[i])) <==> (
            a.endpoint is Some && has_substring(a.endpoint.unwrap()@, "localhost"@))
            &&& forall|e: String|
                a.endpoint == Some(e) && has_substring(e@, "localhost"@) ==> {
                    &&& p.len() == k + 2
                    &&& p[k] == StepView::Run(create_node_command(e@, name))
                    &&& p[k + 1] == StepView::Run(
                        deploy_endpoint_command(name, e@, Some(local_ipfs())),
                    )
                }
            &&& forall|e: String|
                a.endpoint == Some(e) && !has_substring(e@, "localhost"@) ==> {
                    &&& p.len() == k + 1
                    &&& p[k] == StepView::Run(deploy_endpoint_command(name, e@, None))
                }
            &&& a.endpoint is None ==> {
                &&& p.len() == k + 1
                &&& p[k] == StepView::Run(deploy_direct_command(name))
            }
        }),
{
    reveal_strlit("create");
    reveal_strlit("codegen");
    reveal_strlit("build");
    reveal_strlit("auth");
    reveal_strlit("deploy");
    let p = deploy_plan(a);
    let b = build_plan(a.build);
    let auth_part = match a.token_access {
        Some(t) => seq![StepView::Run(auth_command(t@))],
        None => Seq::<StepView>::empty(),
    };
    let k: int = (b.len() + auth_part.len()) as int;
    assert forall|i: int| 0 <= i < k implies !is_node_creation(#[trigger] p[i]) by {
        if i < b.len() {
            assert(p[i] == b[i]);
            assert("codegen"@ != "create"@) by { assert("codegen"@.len() != "create"@.len()); }
            assert("build"@ != "create"@) by { assert("build"@.len() != "create"@.len()); }
        } else {
            assert(p[i] == auth_part[i - b.len()]);
            assert("auth"@ != "create"@) by { assert("auth"@.len() != "create"@.len()); }
        }
    }
    assert("deploy"@ != "create"@) by { assert("deploy"@[0] != "create"@[0]); }
    if let Some(e) = a.endpoint {
        if has_substring(e@, "localhost"@) {
            assert(is_node_creation(p[k]));
        }
    }
}

} // verus!
