//! The runtime-constructed schema of a native function: its ordered
//! parameter shapes and its return shape. It is built once per native
//! function at bind time and consumed once by the adapter emitter; the
//! emitted adapter retains no reference to it.

use vstd::prelude::*;
use crate::descriptor::{
    classify_param, classify_return, spec_classify_param, spec_classify_return, DeclaredType,
    TypeDescriptor,
};

verus! {

/// One parameter of a native function's signature: its slot index, its
/// shape, and whether it belongs to the trailing run of optional parameters
/// that relaxes arity. Owned by the signature that contains it and immutable
/// once constructed.
#[derive(Debug, PartialEq, Eq)]
pub struct ParameterSpec {
    /// The slot this parameter reads from the argument sequence.
    pub index: usize,
    /// The parameter's shape.
    pub descriptor: TypeDescriptor,
    /// Whether every parameter from this one to the end is optional.
    pub is_trailing_optional: bool,
}

/// A native function's declared signature, as the adapter emitter consumes
/// it.
#[derive(Debug, PartialEq, Eq)]
pub struct FunctionSignature {
    /// The ordered parameters.
    pub parameters: Vec<ParameterSpec>,
    /// The shape of the return type.
    pub return_descriptor: TypeDescriptor,
}

/// Whether every parameter shape from position `i` to the end is optional.
pub open spec fn suffix_all_optional(descs: Seq<TypeDescriptor>, i: int) -> bool {
    forall|j: int| i <= j < descs.len() ==> (#[trigger] descs[j]) is Optional
}

impl FunctionSignature {
    /// The ordered parameter shapes.
    pub open spec fn descriptors(self) -> Seq<TypeDescriptor> {
        self.parameters@.map(|i: int, p: ParameterSpec| p.descriptor)
    }

    /// Well-formedness: parameters are indexed in order, and the trailing
    /// optional mark on each parameter holds exactly when every parameter
    /// from it to the end is optional.
    pub open spec fn wf(self) -> bool {
        &&& forall|i: int|
            0 <= i < self.parameters@.len() ==> (#[trigger] self.parameters@[i]).index == i
        &&& forall|i: int|
            0 <= i < self.parameters@.len() ==> ((#[trigger] self.parameters@[i]).is_trailing_optional
                <==> suffix_all_optional(self.descriptors(), i))
    }

    /// Build the signature for a native function from its declared parameter
    /// types and its declared return type, classifying each and marking the
    /// trailing run of optional parameters.
    pub fn new(param_types: &Vec<DeclaredType>, return_type: &DeclaredType) -> (s: Self)
        ensures
            s.wf(),
            s.parameters@.len() == param_types@.len(),
            forall|i: int|
                0 <= i < param_types@.len() ==> (#[trigger] s.parameters@[i]).descriptor
                    == spec_classify_param(param_types@[i]),
            s.return_descriptor == spec_classify_return(*return_type),
    {
        let n = param_types.len();
        let mut descs: Vec<TypeDescriptor> = Vec::new();
        let mut i: usize = 0;
        while i < n
            invariant
                i <= n,
                n == param_types@.len(),
                descs@.len() == i,
                forall|j: int|
                    0 <= j < i ==> #[trigger] descs@[j] == spec_classify_param(param_types@[j]),
            decreases n - i,
        {
            descs.push(classify_param(&param_types[i]));
            i = i + 1;
        }

        // Find the start of the trailing optional run: the least cutoff such
        // that every shape from it to the end is optional.
        let mut cutoff: usize = n;
        while cutoff > 0 && crate::arity::is_optional_descriptor(&descs[cutoff - 1])
            invariant
                cutoff <= n,
                n == param_types@.len(),
                descs@.len() == n,
                forall|j: int|
                    0 <= j < n ==> #[trigger] descs@[j] == spec_classify_param(param_types@[j]),
                forall|j: int| cutoff <= j < n ==> (#[trigger] descs@[j]) is Optional,
            decreases cutoff,
        {
            cutoff = cutoff - 1;
        }

        let mut parameters: Vec<ParameterSpec> = Vec::new();
        let ghost all_descs = descs@;
        let mut i: usize = 0;
        while i < n
            invariant
                i <= n,
                n == param_types@.len(),
                all_descs.len() == n,
                cutoff <= n,
                forall|j: int|
                    0 <= j < n ==> #[trigger] all_descs[j] == spec_classify_param(param_types@[j]),
                forall|j: int| cutoff <= j < n ==> (#[trigger] all_descs[j]) is Optional,
                cutoff > 0 ==> !(all_descs[cutoff - 1] is Optional),
                descs@ == all_descs.subrange(i as int, n as int),
                parameters@.len() == i,
                forall|j: int|
                    0 <= j < i ==> (#[trigger] parameters@[j]).index == j,
                forall|j: int|
                    0 <= j < i ==> (#[trigger] parameters@[j]).descriptor == all_descs[j],
                forall|j: int|
                    0 <= j < i ==> ((#[trigger] parameters@[j]).is_trailing_optional <==> j
                        >= cutoff),
            decreases n - i,
        {
            let d = descs.remove(0);
            assert(d == all_descs[i as int]);
            parameters.push(
                ParameterSpec { index: i, descriptor: d, is_trailing_optional: i >= cutoff },
            );
            proof {
                assert(descs@ =~= all_descs.subrange(i + 1, n as int));
            }
            i = i + 1;
        }

        let s = FunctionSignature {
            parameters,
            return_descriptor: classify_return(return_type),
        };
        proof {
            assert(s.descriptors() =~= all_descs);
            assert forall|i: int| 0 <= i < n implies ((#[trigger] s.parameters@[i]).is_trailing_optional
                <==> suffix_all_optional(s.descriptors(), i)) by {
                if i >= cutoff {
                    assert(suffix_all_optional(all_descs, i));
                } else {
                    assert(!(all_descs[cutoff - 1] is Optional));
                    assert(!suffix_all_optional(all_descs, i));
                }
            }
        }
        s
    }
}

} // verus!
