use vstd::prelude::*;

use crate::error::PipelineError;

verus! {

/// Whether two strings hold the same characters.
pub fn same_text(a: &str, b: &str) -> (r: bool)
    ensures
        r == (a@ == b@),
{
    let n = a.unicode_len();
    if n != b.unicode_len() {
        return false;
    }
    let mut i: usize = 0;
    while i < n
        invariant
            n == a@.len(),
            n == b@.len(),
            i <= n,
            forall|j: int| 0 <= j < i ==> a@[j] == b@[j],
        decreases n - i,
    {
        if a.get_char(i) != b.get_char(i) {
            return false;
        }
        i = i + 1;
    }
    proof {
        assert(a@ =~= b@);
    }
    true
}

/// The closed set of proving-scheme backends, all behind one interface
/// (setup, prove, export verifier).
#[derive(Clone, Copy, Debug, PartialEq, Eq, Structural)]
pub enum ProvingScheme {
    /// Groth16.
    G16,
    /// Groth-Maller 2017.
    GM17,
    /// Parno-Howell-Gentry-Raykova 2013.
    PGHR13,
}

/// The scheme that a name selects, if any.
pub open spec fn scheme_named(name: Seq<char>) -> Option<ProvingScheme> {
    if name == seq!['g', '1', '6'] {
        Some(ProvingScheme::G16)
    } else if name == seq!['g', 'm', '1', '7'] {
        Some(ProvingScheme::GM17)
    } else if name == seq!['p', 'g', 'h', 'r', '1', '3'] {
        Some(ProvingScheme::PGHR13)
    } else {
        None
    }
}

impl ProvingScheme {
    /// Looks a scheme up by name. An unknown name fails with `UnknownScheme`,
    /// which carries the name; no default is taken.
    pub fn from_name(name: &str) -> (r: Result<ProvingScheme, PipelineError>)
        ensures
            r is Ok <==> scheme_named(name@) is Some,
            r is Ok ==> Some(r->Ok_0) == scheme_named(name@),
            r is Err ==> (r->Err_0 is UnknownScheme && r->Err_0->UnknownScheme_0@ == name@),
    {
        proof {
            reveal_strlit("g16");
            reveal_strlit("gm17");
            reveal_strlit("pghr13");
        }
        if same_text(name, "g16") {
            proof { assert("g16"@ =~= seq!['g', '1', '6']); }
            Ok(ProvingScheme::G16)
        } else if same_text(name, "gm17") {
            proof { assert("gm17"@ =~= seq!['g', 'm', '1', '7']); }
            Ok(ProvingScheme::GM17)
        } else if same_text(name, "pghr13") {
            proof { assert("pghr13"@ =~= seq!['p', 'g', 'h', 'r', '1', '3']); }
            Ok(ProvingScheme::PGHR13)
        } else {
            proof {
                assert("g16"@ =~= seq!['g', '1', '6']);
                assert("gm17"@ =~= seq!['g', 'm', '1', '7']);
                assert("pghr13"@ =~= seq!['p', 'g', 'h', 'r', '1', '3']);
            }
            Err(PipelineError::UnknownScheme(String::from_str(name)))
        }
    }
}

/// Shape of the generated verifier's interface; does not touch the proof
/// system.
#[derive(Clone, Copy, Debug, PartialEq, Eq, Structural)]
pub enum AbiDialect {
    V1,
    V2,
}

impl AbiDialect {
    /// The dialect a flag value selects: `v2` selects `V2`, any other value `V1`.
    pub fn from_flag(flag: &str) -> (r: AbiDialect)
        ensures
            r == (if flag@ == seq!['v', '2'] { AbiDialect::V2 } else { AbiDialect::V1 }),
    {
        proof {
            reveal_strlit("v2");
            assert("v2"@ =~= seq!['v', '2']);
        }
        if same_text(flag, "v2") {
            AbiDialect::V2
        } else {
            AbiDialect::V1
        }
    }
}

} // verus!
