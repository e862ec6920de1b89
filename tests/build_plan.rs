use subgraph::builder::{generate_subgraph_yaml, output_path, read_error, resolve_params, template_path};
use subgraph::{build, BuildArgs, Command, DataSource, Mapping, Params, Source, ReadFailure, Schema, Step, SubgraphTemplate, TemplaterError};

fn no_options() -> BuildArgs {
    BuildArgs { network: None, block_number: None, address: None, template_path: None, output_path: None }
}

fn npm(script: &str) -> Step {
    Step::Run(Command { program: "npm".to_string(), args: vec!["run".to_string(), script.to_string()] })
}

#[test]
fn defaults_without_options() {
    let p = resolve_params(&no_options());
    assert_eq!(p.network, "localhost");
    assert_eq!(p.address, "0x0000000000000000000000000000000000000000");
    assert_eq!(p.start_block, 0);
    assert_eq!(template_path(&no_options()), "./subgraph.template.yaml");
    assert_eq!(output_path(&no_options()), "./subgraph.yaml");
}

#[test]
fn given_options_are_used() {
    let args = BuildArgs {
        network: Some("mainnet".to_string()),
        block_number: Some(123456),
        address: Some("0xC3F675E9610e3E1f00874b1dD46BcEa6aFC57049".to_string()),
        template_path: Some("in.yaml".to_string()),
        output_path: Some("out.yaml".to_string()),
    };
    assert_eq!(
        resolve_params(&args),
        Params {
            network: "mainnet".to_string(),
            address: "0xC3F675E9610e3E1f00874b1dD46BcEa6aFC57049".to_string(),
            start_block: 123456,
        }
    );
    assert_eq!(template_path(&args), "in.yaml");
    assert_eq!(output_path(&args), "out.yaml");
}

#[test]
fn missing_template_is_template_not_found() {
    let e = read_error(ReadFailure::NotFound, "./nowhere.yaml".to_string());
    assert_eq!(e, TemplaterError::TemplateNotFound("./nowhere.yaml".to_string()));
}

#[test]
fn other_read_failure_is_io_error() {
    let e = read_error(ReadFailure::Other, "permission denied".to_string());
    assert_eq!(e, TemplaterError::IoError("permission denied".to_string()));
}

#[test]
fn build_plan_generates_then_runs_codegen_and_build() {
    let steps = build(&no_options());
    assert_eq!(
        steps,
        vec![
            Step::Generate {
                template_path: "./subgraph.template.yaml".to_string(),
                output_path: "./subgraph.yaml".to_string(),
                params: Params {
                    network: "localhost".to_string(),
                    address: "0x0000000000000000000000000000000000000000".to_string(),
                    start_block: 0,
                },
            },
            npm("codegen"),
            npm("build"),
        ]
    );
}

#[test]
fn generate_fills_defaults_into_the_manifest() {
    let template = SubgraphTemplate {
        spec_version: "0.0.5".to_string(),
        schema: Schema { file: "./schema.graphql".to_string() },
        data_sources: vec![DataSource {
            kind: "ethereum/contract".to_string(),
            name: "Token".to_string(),
            network: "goerli".to_string(),
            source: Source {
                address: Some("0xff0000000000000000000bb000000000000000cc".to_string()),
                abi: "Token".to_string(),
                start_block: None,
            },
            mapping: Mapping {
                kind: "ethereum/events".to_string(),
                api_version: "0.0.7".to_string(),
                language: "wasm/assemblyscript".to_string(),
                entities: vec![],
                abis: vec![],
                event_handlers: vec![],
                file: "./src/token.ts".to_string(),
            },
        }],
        templates: Some(vec![]),
    };
    let out = generate_subgraph_yaml(template.clone(), &no_options());
    let mut expected = template;
    expected.data_sources[0].network = "localhost".to_string();
    expected.data_sources[0].source.address =
        Some("0x0000000000000000000000000000000000000000".to_string());
    expected.data_sources[0].source.start_block = Some(0);
    assert_eq!(out, expected);
}
