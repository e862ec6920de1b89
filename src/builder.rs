//! The build run: rewrite the manifest, then generate code and build it.
use vstd::prelude::*;
use crate::command::{push_word, Command, CommandView, Step, StepView, steps_view, strings_view};
use crate::template::{apply_params, applied, Params, ParamsView, SubgraphTemplate};

verus! {

/// Options of a build; each one that is absent takes its default.
#[derive(Debug, Clone, PartialEq, Eq)]
pub struct BuildArgs {
    /// Network that the subgraph indexes (default `localhost`).
    pub network: Option<String>,
    /// Block at which indexing starts (default 0).
    pub block_number: Option<u64>,
    /// Contract address that the subgraph indexes (default the zero address).
    pub address: Option<String>,
    /// Template manifest to read (default `./subgraph.template.yaml`).
    pub template_path: Option<String>,
    /// Manifest to write (default `./subgraph.yaml`).
    pub output_path: Option<String>,
}

/// Why a manifest could not be produced.
#[derive(Debug, Clone, PartialEq, Eq)]
pub enum TemplaterError {
    /// The template file does not exist.
    TemplateNotFound(String),
    /// Any other failure to read the template or write the manifest.
    IoError(String),
    /// The template does not have the shape of a manifest.
    ParseError(String),
}

/// How reading the template file failed.
#[derive(Debug, Clone, Copy, PartialEq, Eq)]
pub enum ReadFailure {
    NotFound,
    Other,
}

/// The network used when none is given.
pub open spec fn default_network() -> Seq<char> {
    "localhost"@
}

/// The contract address used when none is given: `0x` and forty zeros.
pub open spec fn default_address() -> Seq<char> {
    "0x0000000000000000000000000000000000000000"@
}

/// The template path used when none is given.
pub open spec fn default_template_path() -> Seq<char> {
    "./subgraph.template.yaml"@
}

/// The output path used when none is given.
pub open spec fn default_output_path() -> Seq<char> {
    "./subgraph.yaml"@
}

/// The view of an optional string, or `dflt` when it is absent.
pub open spec fn or_default(o: Option<String>, dflt: Seq<char>) -> Seq<char> {
    match o {
        Some(s) => s@,
        None => dflt,
    }
}

/// The parameters that a build with `a` writes into the manifest.
pub open spec fn resolved(a: BuildArgs) -> ParamsView {
    ParamsView {
        network: or_default(a.network, default_network()),
        address: or_default(a.address, default_address()),
        start_block: match a.block_number {
            Some(b) => b,
            None => 0,
        },
    }
}

/// `npm run codegen`.
pub open spec fn codegen_command() -> CommandView {
    CommandView { program: "npm"@, args: seq!["run"@, "codegen"@] }
}

/// `npm run build`.
pub open spec fn build_command() -> CommandView {
    CommandView { program: "npm"@, args: seq!["run"@, "build"@] }
}

/// The steps of a build with `a`: rewrite the manifest, generate code, build.
pub open spec fn build_plan(a: BuildArgs) -> Seq<StepView> {
    seq![
        StepView::Generate {
            template_path: or_default(a.template_path, default_template_path()),
            output_path: or_default(a.output_path, default_output_path()),
            params: resolved(a),
        },
        StepView::Run(codegen_command()),
        StepView::Run(build_command()),
    ]
}

fn string_or(o: &Option<String>, dflt: &str) -> (r: String)
    ensures
        r@ == or_default(*o, dflt@),
{
    match o {
        Some(s) => s.clone(),
        None => dflt.to_owned(),
    }
}

/// The parameters written into the manifest, with the defaults filled in.
pub fn resolve_params(args: &BuildArgs) -> (r: Params)
    ensures
        r@ == resolved(*args),
{
    let network = string_or(&args.network, "localhost");
    let address = string_or(&args.address, "0x0000000000000000000000000000000000000000");
    let start_block = match args.block_number {
        Some(b) => b,
        None => 0,
    };
    Params { network, address, start_block }
}

/// The template path to read, with the default filled in.
pub fn template_path(args: &BuildArgs) -> (r: String)
    ensures
        r@ == or_default(args.template_path, default_template_path()),
{
    string_or(&args.template_path, "./subgraph.template.yaml")
}

/// The manifest path to write, with the default filled in.
pub fn output_path(args: &BuildArgs) -> (r: String)
    ensures
        r@ == or_default(args.output_path, default_output_path()),
{
    string_or(&args.output_path, "./subgraph.yaml")
}

/// The error for a template that could not be read: `TemplateNotFound` when
/// the file is absent, `IoError` otherwise.
pub fn read_error(kind: ReadFailure, detail: String) -> (r: TemplaterError)
    ensures
        kind == ReadFailure::NotFound ==> r == TemplaterError::TemplateNotFound(detail),
        kind == ReadFailure::Other ==> r == TemplaterError::IoError(detail),
{
    match kind {
        ReadFailure::NotFound => TemplaterError::TemplateNotFound(detail),
        ReadFailure::Other => TemplaterError::IoError(detail),
    }
}

/// The manifest that a build with `args` writes for the parsed template `template`.
pub fn generate_subgraph_yaml(template: SubgraphTemplate, args: &BuildArgs) -> (r: SubgraphTemplate)
    ensures
        exists|p: Params| p@ == resolved(*args) && r@ == #[trigger] applied(template@, p),
{
    let params = resolve_params(args);
    let mut doc = template;
    apply_params(&mut doc, &params);
    assert(params@ == resolved(*args) && doc@ == applied(template@, params));
    doc
}

fn npm_run(script: &str) -> (r: Command)
    ensures
        r@.program == "npm"@,
        r@.args == seq!["run"@, script@],
{
    let mut args: Vec<String> = Vec::new();
    push_word(&mut args, "run");
    push_word(&mut args, script);
    assert(strings_view(args@) =~= seq!["run"@, script@]);
    Command { program: "npm".to_owned(), args }
}

/// The steps of a build: rewrite the manifest, then `npm run codegen` and `npm run build`.
pub fn build(args: &BuildArgs) -> (r: Vec<Step>)
    ensures
        steps_view(r@) == build_plan(*args),
{
    let mut steps: Vec<Step> = Vec::new();
    steps.push(Step::Generate {
        template_path: template_path(args),
        output_path: output_path(args),
        params: resolve_params(args),
    });
    steps.push(Step::Run(npm_run("codegen")));
    steps.push(Step::Run(npm_run("build")));
    assert(steps_view(steps@) =~= build_plan(*args));
    steps
}

} // verus!
