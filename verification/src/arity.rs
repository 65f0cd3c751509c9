//! The arity calculator: from the ordered parameter shapes to the adapter's
//! accepted-argument-count contract.
//!
//! Only a trailing run of optional parameters relaxes arity: an optional
//! parameter followed by a non-optional one does not extend the relaxation
//! past that point, which keeps positional argument matching unambiguous.

use vstd::prelude::*;
use crate::descriptor::TypeDescriptor;
use crate::signature::FunctionSignature;

verus! {

/// The accepted-argument-count contract registered alongside an adapter: the
/// host dispatcher rejects calls with argument counts outside it before the
/// adapter runs.
#[derive(Clone, Copy, Debug, PartialEq, Eq, Structural)]
pub enum ArityContract {
    /// Exactly this many arguments.
    Fixed(usize),
    /// Any count between the two bounds, inclusive; produced only when at
    /// least one trailing parameter is optional.
    Range(usize, usize),
}

/// Whether a parameter shape is optional, at any passing mode, plain or
/// handle.
pub open spec fn is_optional_shape(d: TypeDescriptor) -> bool {
    d is Optional
}

/// How many elements at the end of the sequence are marked true.
pub open spec fn trailing_true_count(flags: Seq<bool>) -> nat
    decreases flags.len(),
{
    if flags.len() == 0 {
        0
    } else if flags.last() {
        1 + trailing_true_count(flags.drop_last())
    } else {
        0
    }
}

/// The arity contract over per-parameter optionality flags: `Fixed(n)` when
/// no trailing parameter is optional, else `Range(n - k, n)` for a trailing
/// run of `k` optional parameters.
pub open spec fn arity_from_flags(flags: Seq<bool>) -> ArityContract {
    let n = flags.len();
    let k = trailing_true_count(flags);
    if k == 0 {
        ArityContract::Fixed(n as usize)
    } else {
        ArityContract::Range((n - k) as usize, n as usize)
    }
}

/// The per-parameter optionality flags of a shape sequence.
pub open spec fn optional_flags(descs: Seq<TypeDescriptor>) -> Seq<bool> {
    descs.map(|i: int, d: TypeDescriptor| is_optional_shape(d))
}

/// How many consecutive trailing parameter shapes are optional.
pub open spec fn spec_trailing_optionals(descs: Seq<TypeDescriptor>) -> nat {
    trailing_true_count(optional_flags(descs))
}

/// The arity contract of an ordered parameter shape sequence.
pub open spec fn spec_arity(descs: Seq<TypeDescriptor>) -> ArityContract {
    arity_from_flags(optional_flags(descs))
}

/// Whether the contract admits a call with this many arguments.
pub open spec fn spec_admits(a: ArityContract, count: usize) -> bool {
    match a {
        ArityContract::Fixed(n) => count == n,
        ArityContract::Range(min, max) => min <= count <= max,
    }
}

/// The smallest admitted argument count.
pub open spec fn spec_min_arity(a: ArityContract) -> usize {
    match a {
        ArityContract::Fixed(n) => n,
        ArityContract::Range(min, _) => min,
    }
}

/// The largest admitted argument count.
pub open spec fn spec_max_arity(a: ArityContract) -> usize {
    match a {
        ArityContract::Fixed(n) => n,
        ArityContract::Range(_, max) => max,
    }
}

/// The trailing run of true flags covers exactly the last `k` positions: all
/// of them are true, the position just before the run (if any) is false, and
/// the run is no longer than the sequence.
pub proof fn lemma_trailing_true_props(flags: Seq<bool>)
    ensures
        trailing_true_count(flags) <= flags.len(),
        forall|j: int|
            flags.len() - trailing_true_count(flags) <= j < flags.len() ==> #[trigger] flags[j],
        trailing_true_count(flags) < flags.len() ==> !flags[
            flags.len() - trailing_true_count(flags) - 1
        ],
    decreases flags.len(),
{
    if flags.len() > 0 && flags.last() {
        lemma_trailing_true_props(flags.drop_last());
        assert(forall|j: int|
            0 <= j < flags.len() - 1 ==> #[trigger] flags[j] == flags.drop_last()[j]);
    }
}

/// A cutoff scan determines the trailing run: if every flag from `c` on is
/// true and the flag just before `c` (if any) is false, then the trailing
/// run has length `len - c`.
pub proof fn lemma_trailing_true_cutoff(flags: Seq<bool>, c: int)
    requires
        0 <= c <= flags.len(),
        forall|j: int| c <= j < flags.len() ==> #[trigger] flags[j],
        c > 0 ==> !flags[c - 1],
    ensures
        trailing_true_count(flags) == flags.len() - c,
    decreases flags.len(),
{
    if c < flags.len() {
        assert(flags.last());
        lemma_trailing_true_cutoff(flags.drop_last(), c);
    }
}

/// Whether this parameter shape is optional.
pub fn is_optional_descriptor(d: &TypeDescriptor) -> (r: bool)
    ensures
        r == is_optional_shape(*d),
{
    matches!(d, TypeDescriptor::Optional(_))
}

/// The arity calculator: scan the parameters from the end, count the
/// consecutive trailing optional ones, and derive the contract.
pub fn compute_arity(sig: &FunctionSignature) -> (a: ArityContract)
    ensures
        a == spec_arity(sig.descriptors()),
{
    let n = sig.parameters.len();
    let ghost flags = optional_flags(sig.descriptors());
    let mut c: usize = n;
    while c > 0 && is_optional_descriptor(&sig.parameters[c - 1].descriptor)
        invariant
            c <= n,
            n == sig.parameters.len(),
            flags == optional_flags(sig.descriptors()),
            forall|j: int| c <= j < n ==> #[trigger] flags[j],
        decreases c,
    {
        c = c - 1;
    }
    proof {
        assert(flags.len() == n);
        if c > 0 {
            assert(!flags[c - 1]);
        }
        lemma_trailing_true_cutoff(flags, c as int);
    }
    if c == n {
        ArityContract::Fixed(n)
    } else {
        ArityContract::Range(c, n)
    }
}

/// The host dispatcher's check: whether the contract admits this argument
/// count.
pub fn arity_admits(a: &ArityContract, count: usize) -> (r: bool)
    ensures
        r == spec_admits(*a, count),
{
    match a {
        ArityContract::Fixed(n) => count == *n,
        ArityContract::Range(min, max) => *min <= count && count <= *max,
    }
}

/// Law: for a signature with `n` parameters and no trailing optional
/// parameters, the declared arity is `Fixed(n)`, and exactly the argument
/// count `n` is admitted; the host dispatcher rejects every other count
/// before the adapter runs.
pub proof fn lemma_arity_fixed(descs: Seq<TypeDescriptor>, count: usize)
    requires
        descs.len() <= usize::MAX,
        spec_trailing_optionals(descs) == 0,
    ensures
        spec_arity(descs) == ArityContract::Fixed(descs.len() as usize),
        spec_admits(spec_arity(descs), count) <==> count == descs.len(),
{
}

/// Law: for a signature with `n` parameters and a trailing run of `k >= 1`
/// contiguous optional parameters, the declared arity is `Range(n - k, n)`,
/// and exactly the argument counts in `[n - k, n]` are admitted.
pub proof fn lemma_arity_range(descs: Seq<TypeDescriptor>, count: usize)
    requires
        descs.len() <= usize::MAX,
        spec_trailing_optionals(descs) >= 1,
    ensures
        spec_arity(descs) == ArityContract::Range(
            (descs.len() - spec_trailing_optionals(descs)) as usize,
            descs.len() as usize,
        ),
        spec_admits(spec_arity(descs), count) <==> descs.len() - spec_trailing_optionals(descs)
            <= count <= descs.len(),
{
    lemma_trailing_true_props(optional_flags(descs));
}

} // verus!
