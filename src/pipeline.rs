use vstd::prelude::*;

use crate::error::PipelineError;
use crate::scheme::{scheme_named, ProvingScheme};

verus! {

/// The five independent, restartable commands of the pipeline.
#[derive(Clone, Copy, Debug, PartialEq, Eq, Structural)]
pub enum Command {
    Compile,
    ComputeWitness,
    Setup,
    GenerateProof,
    ExportVerifier,
}

/// The files that flow between the commands.
#[derive(Clone, Copy, Debug, PartialEq, Eq, Structural)]
pub enum Artifact {
    Source,
    Program,
    AbiSpec,
    Witness,
    ProvingKey,
    VerificationKey,
    Proof,
    Verifier,
}

/// Position of a command in the forward order of the pipeline.
pub open spec fn rank(c: Command) -> nat {
    match c {
        Command::Compile => 0,
        Command::ComputeWitness => 1,
        Command::Setup => 2,
        Command::GenerateProof => 3,
        Command::ExportVerifier => 4,
    }
}

/// What a command reads; `abi_mode` says whether witness computation takes
/// structured input and so reads the ABI specification.
pub open spec fn reads(c: Command, abi_mode: bool) -> Set<Artifact> {
    match c {
        Command::Compile => set![Artifact::Source],
        Command::ComputeWitness => if abi_mode {
            set![Artifact::Program, Artifact::AbiSpec]
        } else {
            set![Artifact::Program]
        },
        Command::Setup => set![Artifact::Program],
        Command::GenerateProof => set![Artifact::Program, Artifact::Witness, Artifact::ProvingKey],
        Command::ExportVerifier => set![Artifact::VerificationKey],
    }
}

/// What a command writes, all or nothing.
pub open spec fn writes(c: Command) -> Set<Artifact> {
    match c {
        Command::Compile => set![Artifact::Program, Artifact::AbiSpec],
        Command::ComputeWitness => set![Artifact::Witness],
        Command::Setup => set![Artifact::ProvingKey, Artifact::VerificationKey],
        Command::GenerateProof => set![Artifact::Proof],
        Command::ExportVerifier => set![Artifact::Verifier],
    }
}

/// Whether a command works through a proving scheme.
pub open spec fn uses_scheme(c: Command) -> bool {
    c is Setup || c is GenerateProof || c is ExportVerifier
}

/// Every artifact a command reads, but the source text, is written by a
/// command that comes strictly earlier in the pipeline; no command writes an
/// artifact that it reads.
pub proof fn lemma_reads_follow_writes(c: Command, abi_mode: bool, a: Artifact)
    requires
        reads(c, abi_mode).contains(a),
        a != Artifact::Source,
    ensures
        exists|w: Command| #[trigger] writes(w).contains(a) && rank(w) < rank(c),
        !writes(c).contains(a),
{
    match a {
        Artifact::Program | Artifact::AbiSpec => {
            assert(writes(Command::Compile).contains(a));
        },
        Artifact::Witness => {
            assert(writes(Command::ComputeWitness).contains(a));
        },
        Artifact::ProvingKey | Artifact::VerificationKey => {
            assert(writes(Command::Setup).contains(a));
        },
        _ => {},
    }
}

fn push_all(v: &mut Vec<Artifact>, items: &[Artifact])
    ensures
        final(v)@ == old(v)@ + items@,
{
    let mut i: usize = 0;
    let ghost start = v@;
    while i < items.len()
        invariant
            i <= items@.len(),
            v@ == start + items@.subrange(0, i as int),
        decreases items@.len() - i,
    {
        v.push(items[i]);
        i = i + 1;
        proof {
            assert(start + items@.subrange(0, i as int) =~= (start + items@.subrange(0, i - 1)).push(items@[i - 1]));
        }
    }
    proof {
        assert(items@.subrange(0, items@.len() as int) =~= items@);
    }
}

impl Command {
    /// The artifacts this command reads, each once.
    pub fn inputs(&self, abi_mode: bool) -> (r: Vec<Artifact>)
        ensures
            r@.to_set() == reads(*self, abi_mode),
            r@.no_duplicates(),
    {
        let mut v: Vec<Artifact> = Vec::new();
        match self {
            Command::Compile => push_all(&mut v, &[Artifact::Source]),
            Command::ComputeWitness => if abi_mode {
                push_all(&mut v, &[Artifact::Program, Artifact::AbiSpec])
            } else {
                push_all(&mut v, &[Artifact::Program])
            },
            Command::Setup => push_all(&mut v, &[Artifact::Program]),
            Command::GenerateProof => push_all(
                &mut v,
                &[Artifact::Program, Artifact::Witness, Artifact::ProvingKey],
            ),
            Command::ExportVerifier => push_all(&mut v, &[Artifact::VerificationKey]),
        }
        proof {
            assert(v@.to_set() =~= reads(*self, abi_mode));
        }
        v
    }

    /// The artifacts this command writes, each once.
    pub fn outputs(&self) -> (r: Vec<Artifact>)
        ensures
            r@.to_set() == writes(*self),
            r@.no_duplicates(),
    {
        let mut v: Vec<Artifact> = Vec::new();
        match self {
            Command::Compile => push_all(&mut v, &[Artifact::Program, Artifact::AbiSpec]),
            Command::ComputeWitness => push_all(&mut v, &[Artifact::Witness]),
            Command::Setup => push_all(
                &mut v,
                &[Artifact::ProvingKey, Artifact::VerificationKey],
            ),
            Command::GenerateProof => push_all(&mut v, &[Artifact::Proof]),
            Command::ExportVerifier => push_all(&mut v, &[Artifact::Verifier]),
        }
        proof {
            assert(v@.to_set() =~= writes(*self));
        }
        v
    }

    /// Whether this command works through a proving scheme.
    pub fn uses_scheme(&self) -> (r: bool)
        ensures
            r == uses_scheme(*self),
    {
        match self {
            Command::Setup | Command::GenerateProof | Command::ExportVerifier => true,
            _ => false,
        }
    }

    /// The first step of every command, before any file is touched: the
    /// scheme that it works through, looked up by name, or `None` for a
    /// command that uses none (the name is then not looked at).
    pub fn resolve_scheme(&self, scheme_name: &str) -> (r: Result<Option<ProvingScheme>, PipelineError>)
        ensures
            !uses_scheme(*self) ==> r == Ok::<Option<ProvingScheme>, PipelineError>(None),
            uses_scheme(*self) ==> (r is Ok <==> scheme_named(scheme_name@) is Some),
            uses_scheme(*self) && r is Ok ==> r->Ok_0 == scheme_named(scheme_name@),
            uses_scheme(*self) && r is Err ==> (r->Err_0 is UnknownScheme
                && r->Err_0->UnknownScheme_0@ == scheme_name@),
    {
        if self.uses_scheme() {
            match ProvingScheme::from_name(scheme_name) {
                Ok(s) => Ok(Some(s)),
                Err(e) => Err(e),
            }
        } else {
            Ok(None)
        }
    }
}

} // verus!
