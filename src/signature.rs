use vstd::prelude::*;

use crate::error::PipelineError;

verus! {

/// The type of one logical input or output of a program.
pub enum AbiType {
    FieldElement,
    Boolean,
    /// A fixed-size array: element type and length.
    Array(Box<AbiType>, usize),
    /// A named struct with its members in declaration order.
    Struct(String, Vec<StructMember>),
}

/// One named member of a struct type.
pub struct StructMember {
    pub id: String,
    pub ty: AbiType,
}

/// The typed inputs and outputs of a program's entry point.
pub struct Signature {
    pub inputs: Vec<AbiType>,
    pub outputs: Vec<AbiType>,
}

/// The number of field elements a value of type `t` takes once flattened.
pub open spec fn flat_size(t: AbiType) -> nat
    decreases t,
{
    match t {
        AbiType::FieldElement => 1,
        AbiType::Boolean => 1,
        AbiType::Array(e, n) => (n as nat) * flat_size(*e),
        AbiType::Struct(_, ms) => members_size(ms@),
    }
}

/// The flattened size of a sequence of struct members, in order.
pub open spec fn members_size(ms: Seq<StructMember>) -> nat
    decreases ms,
{
    if ms.len() == 0 {
        0
    } else {
        proof {
            broadcast use vstd::seq::axiom_seq_index_decreases;
        }
        members_size(ms.drop_last()) + flat_size(ms.last().ty)
    }
}

/// The flattened size of a sequence of types, in order.
pub open spec fn types_size(ts: Seq<AbiType>) -> nat
    decreases ts.len(),
{
    if ts.len() == 0 {
        0
    } else {
        types_size(ts.drop_last()) + flat_size(ts.last())
    }
}

proof fn lemma_members_prefix(ms: Seq<StructMember>, i: int)
    requires
        0 <= i < ms.len(),
    ensures
        members_size(ms.subrange(0, i + 1)) == members_size(ms.subrange(0, i)) + flat_size(ms[i].ty),
        members_size(ms.subrange(0, i + 1)) <= members_size(ms),
    decreases ms.len(),
{
    assert(ms.subrange(0, i + 1).drop_last() =~= ms.subrange(0, i));
    if i + 1 < ms.len() {
        lemma_members_prefix(ms.drop_last(), i);
        assert(ms.drop_last().subrange(0, i + 1) =~= ms.subrange(0, i + 1));
        assert(ms.drop_last().subrange(0, i) =~= ms.subrange(0, i));
    } else {
        assert(ms.subrange(0, i + 1) =~= ms);
    }
}

proof fn lemma_types_prefix(ts: Seq<AbiType>, i: int)
    requires
        0 <= i < ts.len(),
    ensures
        types_size(ts.subrange(0, i + 1)) == types_size(ts.subrange(0, i)) + flat_size(ts[i]),
        types_size(ts.subrange(0, i + 1)) <= types_size(ts),
    decreases ts.len(),
{
    assert(ts.subrange(0, i + 1).drop_last() =~= ts.subrange(0, i));
    if i + 1 < ts.len() {
        lemma_types_prefix(ts.drop_last(), i);
        assert(ts.drop_last().subrange(0, i + 1) =~= ts.subrange(0, i + 1));
        assert(ts.drop_last().subrange(0, i) =~= ts.subrange(0, i));
    } else {
        assert(ts.subrange(0, i + 1) =~= ts);
    }
}

impl AbiType {
    /// The flattened size of this type, or `None` where it exceeds `usize`.
    pub fn flat_size(&self) -> (r: Option<usize>)
        ensures
            r is Some <==> flat_size(*self) <= usize::MAX,
            r is Some ==> r->0 == flat_size(*self),
        decreases self,
    {
        match self {
            AbiType::FieldElement => Some(1),
            AbiType::Boolean => Some(1),
            AbiType::Array(e, n) => {
                if *n == 0 {
                    return Some(0);
                }
                match e.flat_size() {
                    None => {
                        proof {
                            assert((*n as nat) * flat_size(**e) >= flat_size(**e)) by (nonlinear_arith)
                                requires *n >= 1;
                        }
                        None
                    },
                    Some(k) => n.checked_mul(k),
                }
            },
            AbiType::Struct(_, ms) => {
                let mut total: usize = 0;
                let mut i: usize = 0;
                proof {
                    assert(ms@.subrange(0, 0) =~= Seq::<StructMember>::empty());
                }
                while i < ms.len()
                    invariant
                        i <= ms@.len(),
                        total == members_size(ms@.subrange(0, i as int)),
                        self is Struct,
                        self->Struct_1 == *ms,
                    decreases ms@.len() - i,
                {
                    proof {
                        lemma_members_prefix(ms@, i as int);
                        assert(decreases_to!(ms => ms[i as int])) by {
                            vstd::std_specs::vec::axiom_vec_index_decreases(*ms, i as int);
                        }
                        assert(decreases_to!(*self => ms@[i as int].ty));
                    }
                    match ms[i].ty.flat_size() {
                        None => return None,
                        Some(k) => {
                            match total.checked_add(k) {
                                None => return None,
                                Some(t) => total = t,
                            }
                        },
                    }
                    i = i + 1;
                }
                proof {
                    assert(ms@.subrange(0, ms@.len() as int) =~= ms@);
                }
                Some(total)
            },
        }
    }
}

/// Checks that a list of types flattens to exactly `count` field elements,
/// the arity a program declares for its arguments or its returns. A
/// mismatch is an `Arity` error that gives the flattened size found
/// (`usize::MAX` where that size does not fit).
pub fn check_types_fit(types: &Vec<AbiType>, count: usize) -> (r: Result<(), PipelineError>)
    ensures
        r is Ok <==> types_size(types@) == count,
        r is Err ==> r->Err_0 is Arity && r->Err_0->Arity_expected == count,
        r is Err && types_size(types@) <= usize::MAX ==> r->Err_0->Arity_found == types_size(
            types@,
        ),
        r is Err && types_size(types@) > usize::MAX ==> r->Err_0->Arity_found == usize::MAX,
{
    let mut total: usize = 0;
    let mut i: usize = 0;
    proof {
        assert(types@.subrange(0, 0) =~= Seq::<AbiType>::empty());
    }
    while i < types.len()
        invariant
            i <= types@.len(),
            total == types_size(types@.subrange(0, i as int)),
        decreases types@.len() - i,
    {
        proof {
            lemma_types_prefix(types@, i as int);
        }
        let k = match types[i].flat_size() {
            None => {
                return Err(PipelineError::Arity { expected: count, found: usize::MAX });
            },
            Some(k) => k,
        };
        total = match total.checked_add(k) {
            None => {
                return Err(PipelineError::Arity { expected: count, found: usize::MAX });
            },
            Some(t) => t,
        };
        i = i + 1;
    }
    proof {
        assert(types@.subrange(0, types@.len() as int) =~= types@);
    }
    if total == count {
        Ok(())
    } else {
        Err(PipelineError::Arity { expected: count, found: total })
    }
}

/// `n` field-element types.
pub fn field_elements(n: usize) -> (r: Vec<AbiType>)
    ensures
        r@.len() == n,
        forall|i: int| 0 <= i < n ==> #[trigger] r@[i] is FieldElement,
{
    let mut v: Vec<AbiType> = Vec::new();
    let mut i: usize = 0;
    while i < n
        invariant
            i <= n,
            v@.len() == i,
            forall|j: int| 0 <= j < i ==> #[trigger] v@[j] is FieldElement,
        decreases n - i,
    {
        v.push(AbiType::FieldElement);
        i = i + 1;
    }
    v
}

proof fn lemma_field_elements_size(ts: Seq<AbiType>)
    requires
        forall|i: int| 0 <= i < ts.len() ==> #[trigger] ts[i] is FieldElement,
    ensures
        types_size(ts) == ts.len(),
    decreases ts.len(),
{
    if ts.len() > 0 {
        lemma_field_elements_size(ts.drop_last());
    }
}

impl Signature {
    /// The signature used when no ABI specification is given: every argument
    /// and every return value is a single field element.
    pub fn all_field_elements(argument_count: usize, return_count: usize) -> (r: Signature)
        ensures
            r.inputs@.len() == argument_count,
            r.outputs@.len() == return_count,
            forall|i: int| 0 <= i < argument_count ==> #[trigger] r.inputs@[i] is FieldElement,
            forall|i: int| 0 <= i < return_count ==> #[trigger] r.outputs@[i] is FieldElement,
            types_size(r.inputs@) == argument_count,
            types_size(r.outputs@) == return_count,
    {
        let inputs = field_elements(argument_count);
        let outputs = field_elements(return_count);
        proof {
            lemma_field_elements_size(inputs@);
            lemma_field_elements_size(outputs@);
        }
        Signature { inputs, outputs }
    }
}

} // verus!
