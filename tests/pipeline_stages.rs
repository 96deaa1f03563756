use zkp_pipeline::error::PipelineError;
use zkp_pipeline::input::{reads_stdin, InputSource};
use zkp_pipeline::pipeline::{Artifact, Command};
use zkp_pipeline::scheme::ProvingScheme;

const ALL: [Command; 5] = [
    Command::Compile,
    Command::ComputeWitness,
    Command::Setup,
    Command::GenerateProof,
    Command::ExportVerifier,
];

#[test]
fn compile_reads_source_and_writes_program_and_abi() {
    assert_eq!(Command::Compile.inputs(false), vec![Artifact::Source]);
    assert_eq!(
        Command::Compile.outputs(),
        vec![Artifact::Program, Artifact::AbiSpec]
    );
}

#[test]
fn witness_reads_abi_only_in_abi_mode() {
    assert_eq!(Command::ComputeWitness.inputs(false), vec![Artifact::Program]);
    assert_eq!(
        Command::ComputeWitness.inputs(true),
        vec![Artifact::Program, Artifact::AbiSpec]
    );
    assert_eq!(Command::ComputeWitness.outputs(), vec![Artifact::Witness]);
}

#[test]
fn proof_generation_reads_program_witness_and_key() {
    assert_eq!(
        Command::GenerateProof.inputs(false),
        vec![Artifact::Program, Artifact::Witness, Artifact::ProvingKey]
    );
    assert_eq!(Command::GenerateProof.outputs(), vec![Artifact::Proof]);
    assert_eq!(
        Command::Setup.outputs(),
        vec![Artifact::ProvingKey, Artifact::VerificationKey]
    );
    assert_eq!(
        Command::ExportVerifier.inputs(false),
        vec![Artifact::VerificationKey]
    );
    assert_eq!(Command::ExportVerifier.outputs(), vec![Artifact::Verifier]);
}

#[test]
fn every_read_artifact_is_written_earlier() {
    for (i, c) in ALL.iter().enumerate() {
        for abi in [false, true] {
            for a in c.inputs(abi) {
                if a == Artifact::Source {
                    continue;
                }
                assert!(ALL[..i].iter().any(|w| w.outputs().contains(&a)));
                assert!(!c.outputs().contains(&a));
            }
        }
    }
}

#[test]
fn unknown_scheme_fails_at_each_scheme_command() {
    for c in [Command::Setup, Command::GenerateProof, Command::ExportVerifier] {
        match c.resolve_scheme("nope") {
            Err(PipelineError::UnknownScheme(name)) => assert_eq!(name, "nope"),
            _ => panic!("expected UnknownScheme"),
        }
    }
}

#[test]
fn known_scheme_is_resolved_for_scheme_commands() {
    assert!(matches!(
        Command::Setup.resolve_scheme("g16"),
        Ok(Some(ProvingScheme::G16))
    ));
    assert!(matches!(
        Command::ExportVerifier.resolve_scheme("pghr13"),
        Ok(Some(ProvingScheme::PGHR13))
    ));
}

#[test]
fn commands_without_scheme_ignore_the_name() {
    assert!(matches!(Command::Compile.resolve_scheme("nope"), Ok(None)));
    assert!(matches!(Command::ComputeWitness.resolve_scheme(""), Ok(None)));
    assert!(!Command::Compile.uses_scheme());
    assert!(Command::Setup.uses_scheme());
}

#[test]
fn stdin_read_decision() {
    assert!(!reads_stdin(InputSource::Inline, 2));
    assert!(!reads_stdin(InputSource::StdinRaw, 0));
    assert!(reads_stdin(InputSource::StdinRaw, 1));
    assert!(reads_stdin(InputSource::StdinAbi, 0));
}
