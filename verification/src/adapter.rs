//! The adapter emitter and the emitted adapter's call-time behaviour: the
//! ordered per-parameter extraction steps, the hand-off to the native
//! function, and the result conversion back into a runtime value.
//!
//! The emitted adapter performs no arity check of its own: it trusts the
//! host dispatcher to invoke it only with an argument count inside the
//! declared contract. [`dispatch`] plays that dispatcher's part.

use vstd::prelude::*;
use crate::arity::{
    arity_admits, arity_from_flags, compute_arity, lemma_trailing_true_props, optional_flags,
    spec_admits, spec_arity, spec_max_arity, spec_min_arity, trailing_true_count, ArityContract,
};
use crate::descriptor::{Mutability, TypeDescriptor};
use crate::error::{AdapterError, BindError, HandleFault};
use crate::signature::FunctionSignature;
use crate::strategy::{
    lemma_strategy_optional_matches_shape, select_strategy, spec_select_strategy,
    strategy_optional, ExtractionStrategy,
};
use crate::value::{
    convert_plain, spec_convert_plain, spec_fetch, spec_to_value, to_value, HandleValue,
    NativeValue, Value,
};

verus! {

/// One extracted argument binding, handed to the native function in original
/// parameter order.
#[derive(Debug, PartialEq, Eq)]
pub enum Binding {
    /// A converted plain value.
    Plain(NativeValue),
    /// An optional plain value: `None` for an absent or nil slot.
    OptionalPlain(Option<NativeValue>),
    /// A handle payload, with the accessor mode that fetched it.
    Handle(Mutability, u64),
    /// An optional handle payload: `None` for an absent or nil slot.
    OptionalHandle(Mutability, Option<u64>),
}

/// What the native function's invocation came back with.
#[derive(Debug, PartialEq, Eq)]
pub enum NativeReturn {
    /// The return value of a native function with a non-fallible return
    /// type.
    Direct(NativeValue),
    /// The success value of a fallible return.
    Success(NativeValue),
    /// The textual representation of a fallible return's error value.
    Failure(String),
}

/// The emitted adapter: the ordered extraction steps, the arity contract to
/// register alongside it, and the return shape driving result conversion.
/// Self-contained: it retains no reference to the signature it was emitted
/// from.
#[derive(Debug, PartialEq, Eq)]
pub struct AdapterPlan {
    /// One extraction step per parameter, in slot order.
    pub steps: Vec<ExtractionStrategy>,
    /// The accepted-argument-count contract.
    pub arity: ArityContract,
    /// The shape of the native function's return type.
    pub return_descriptor: TypeDescriptor,
}

/// The per-step optionality flags.
pub open spec fn step_optional_flags(steps: Seq<ExtractionStrategy>) -> Seq<bool> {
    steps.map(|i: int, st: ExtractionStrategy| strategy_optional(st))
}

impl AdapterPlan {
    /// Well-formedness: the registered arity contract is the one derived
    /// from the steps' trailing optional run.
    pub open spec fn wf(self) -> bool {
        self.arity == arity_from_flags(step_optional_flags(self.steps@))
    }
}

/// The adapter emitter: consume the signature and compose one extraction
/// step per parameter with the arity contract and the return shape. Fails at
/// bind time, naming the first offending parameter, when some parameter's
/// shape has no extraction procedure.
pub fn emit_adapter(sig: FunctionSignature) -> (r: Result<AdapterPlan, BindError>)
    ensures
        (r is Ok) <==> (forall|i: int|
            0 <= i < sig.descriptors().len() ==> (spec_select_strategy(
                #[trigger] sig.descriptors()[i],
            )) is Some),
        r matches Ok(plan) ==> {
            &&& plan.wf()
            &&& plan.steps@.len() == sig.descriptors().len()
            &&& forall|i: int|
                0 <= i < sig.descriptors().len() ==> Some(#[trigger] plan.steps@[i])
                    == spec_select_strategy(sig.descriptors()[i])
            &&& plan.arity == spec_arity(sig.descriptors())
            &&& plan.return_descriptor == sig.return_descriptor
        },
        r matches Err(BindError::UnsupportedParameter { index }) ==> {
            &&& index < sig.descriptors().len()
            &&& spec_select_strategy(sig.descriptors()[index as int]) is None
            &&& forall|j: int|
                0 <= j < index ==> (spec_select_strategy(#[trigger] sig.descriptors()[j])) is Some
        },
{
    let arity = compute_arity(&sig);
    let n = sig.parameters.len();
    let mut steps: Vec<ExtractionStrategy> = Vec::new();
    let mut i: usize = 0;
    while i < n
        invariant
            i <= n,
            n == sig.parameters@.len(),
            steps@.len() == i,
            forall|j: int|
                0 <= j < i ==> Some(#[trigger] steps@[j]) == spec_select_strategy(
                    sig.descriptors()[j],
                ),
        decreases n - i,
    {
        proof {
            assert(sig.descriptors()[i as int] == sig.parameters@[i as int].descriptor);
        }
        match select_strategy(&sig.parameters[i].descriptor) {
            Some(st) => { steps.push(st); },
            None => {
                proof {
                    assert(sig.descriptors().len() == n);
                    assert((spec_select_strategy(sig.descriptors()[i as int])) is None);
                    assert forall|j: int| 0 <= j < i implies (spec_select_strategy(
                        #[trigger] sig.descriptors()[j],
                    )) is Some by {
                        assert(Some(steps@[j]) == spec_select_strategy(sig.descriptors()[j]));
                    }
                }
                return Err(BindError::UnsupportedParameter { index: i });
            },
        }
        i = i + 1;
    }
    proof {
        assert(sig.descriptors().len() == n);
        assert forall|j: int| 0 <= j < n implies (spec_select_strategy(
            #[trigger] sig.descriptors()[j],
        )) is Some by {
            assert(Some(steps@[j]) == spec_select_strategy(sig.descriptors()[j]));
        }
        assert forall|j: int| 0 <= j < n implies step_optional_flags(steps@)[j] == optional_flags(
            sig.descriptors(),
        )[j] by {
            lemma_strategy_optional_matches_shape(sig.descriptors()[j]);
        }
        assert(step_optional_flags(steps@) =~= optional_flags(sig.descriptors()));
    }
    Ok(AdapterPlan { steps, arity, return_descriptor: sig.return_descriptor })
}

/// What the handle-fetch step yields for the value found in a slot: the
/// payload binding when the slot holds a handle of the expected native type,
/// and otherwise the fatal handle error for that slot.
pub open spec fn spec_fetch_handle_binding(
    m: Mutability,
    name: String,
    slot: usize,
    v: Value,
) -> Result<Binding, AdapterError> {
    match v {
        Value::Handle(h) => match spec_fetch(h, name@) {
            Ok(data) => Ok(Binding::Handle(m, data)),
            Err(actual) => Err(
                AdapterError::HandleTypeMismatch {
                    slot,
                    expected: name,
                    fault: HandleFault::WrongType(actual),
                },
            ),
        },
        _ => Err(
            AdapterError::HandleTypeMismatch {
                slot,
                expected: name,
                fault: HandleFault::NotAHandle(v.spec_kind()),
            },
        ),
    }
}

/// What one extraction step yields on an argument sequence. Non-optional
/// steps assume their slot exists: the host dispatcher's arity check makes
/// that so before the adapter runs.
pub open spec fn spec_extract_one(
    st: ExtractionStrategy,
    slot: usize,
    args: Seq<Value>,
) -> Result<Binding, AdapterError> {
    match st {
        ExtractionStrategy::PlainConvert(name) => {
            let v = args[slot as int];
            match spec_convert_plain(name@, v) {
                Some(nv) => Ok(Binding::Plain(nv)),
                None => Err(
                    AdapterError::ConversionError {
                        slot,
                        expected: name,
                        actual: v.spec_kind(),
                    },
                ),
            }
        },
        ExtractionStrategy::OptionalPlain(name) => {
            if args.len() <= slot || args[slot as int] is Nil {
                Ok(Binding::OptionalPlain(None))
            } else {
                let v = args[slot as int];
                match spec_convert_plain(name@, v) {
                    Some(nv) => Ok(Binding::OptionalPlain(Some(nv))),
                    None => Err(
                        AdapterError::ConversionError {
                            slot,
                            expected: name,
                            actual: v.spec_kind(),
                        },
                    ),
                }
            }
        },
        ExtractionStrategy::HandleFetch(m, name) => spec_fetch_handle_binding(
            m,
            name,
            slot,
            args[slot as int],
        ),
        ExtractionStrategy::OptionalHandleFetch(m, name) => {
            if args.len() <= slot || args[slot as int] is Nil {
                Ok(Binding::OptionalHandle(m, None))
            } else {
                match args[slot as int] {
                    Value::Handle(h) => match spec_fetch(h, name@) {
                        Ok(data) => Ok(Binding::OptionalHandle(m, Some(data))),
                        Err(actual) => Err(
                            AdapterError::HandleTypeMismatch {
                                slot,
                                expected: name,
                                fault: HandleFault::WrongType(actual),
                            },
                        ),
                    },
                    v => Err(
                        AdapterError::HandleTypeMismatch {
                            slot,
                            expected: name,
                            fault: HandleFault::NotAHandle(v.spec_kind()),
                        },
                    ),
                }
            }
        },
    }
}

/// Fetch a handle payload through the accessor matching the declared
/// mutability: the shared-borrow accessor for a shared reference, the
/// exclusive-borrow accessor for an exclusive one.
fn fetch_handle_payload(h: &HandleValue, m: Mutability, expected: &String) -> (r: Result<
    u64,
    String,
>)
    ensures
        r == spec_fetch(*h, expected@),
{
    match m {
        Mutability::Shared => h.fetch_shared(expected),
        Mutability::Exclusive => h.fetch_exclusive(expected),
    }
}

/// Run one extraction step against the argument sequence.
pub fn extract_one(st: &ExtractionStrategy, slot: usize, args: &Vec<Value>) -> (r: Result<
    Binding,
    AdapterError,
>)
    requires
        !strategy_optional(*st) ==> slot < args@.len(),
    ensures
        r == spec_extract_one(*st, slot, args@),
{
    match st {
        ExtractionStrategy::PlainConvert(name) => {
            let v = &args[slot];
            match convert_plain(name, v) {
                Some(nv) => Ok(Binding::Plain(nv)),
                None => Err(
                    AdapterError::ConversionError {
                        slot,
                        expected: name.clone(),
                        actual: v.kind(),
                    },
                ),
            }
        },
        ExtractionStrategy::OptionalPlain(name) => {
            if slot >= args.len() || args[slot].is_nil() {
                Ok(Binding::OptionalPlain(None))
            } else {
                let v = &args[slot];
                match convert_plain(name, v) {
                    Some(nv) => Ok(Binding::OptionalPlain(Some(nv))),
                    None => Err(
                        AdapterError::ConversionError {
                            slot,
                            expected: name.clone(),
                            actual: v.kind(),
                        },
                    ),
                }
            }
        },
        ExtractionStrategy::HandleFetch(m, name) => {
            match &args[slot] {
                Value::Handle(h) => match fetch_handle_payload(h, *m, name) {
                    Ok(data) => Ok(Binding::Handle(*m, data)),
                    Err(actual) => Err(
                        AdapterError::HandleTypeMismatch {
                            slot,
                            expected: name.clone(),
                            fault: HandleFault::WrongType(actual),
                        },
                    ),
                },
                v => Err(
                    AdapterError::HandleTypeMismatch {
                        slot,
                        expected: name.clone(),
                        fault: HandleFault::NotAHandle(v.kind()),
                    },
                ),
            }
        },
        ExtractionStrategy::OptionalHandleFetch(m, name) => {
            if slot >= args.len() || args[slot].is_nil() {
                Ok(Binding::OptionalHandle(*m, None))
            } else {
                match &args[slot] {
                    Value::Handle(h) => match fetch_handle_payload(h, *m, name) {
                        Ok(data) => Ok(Binding::OptionalHandle(*m, Some(data))),
                        Err(actual) => Err(
                            AdapterError::HandleTypeMismatch {
                                slot,
                                expected: name.clone(),
                                fault: HandleFault::WrongType(actual),
                            },
                        ),
                    },
                    v => Err(
                        AdapterError::HandleTypeMismatch {
                            slot,
                            expected: name.clone(),
                            fault: HandleFault::NotAHandle(v.kind()),
                        },
                    ),
                }
            }
        },
    }
}

/// What the whole extraction sequence yields from step `i` on: the bindings
/// in order, or the first fatal error in ascending slot order.
pub open spec fn spec_extract_from(
    steps: Seq<ExtractionStrategy>,
    args: Seq<Value>,
    i: int,
) -> Result<Seq<Binding>, AdapterError>
    decreases steps.len() - i,
{
    if i < 0 || i >= steps.len() {
        Ok(Seq::empty())
    } else {
        match spec_extract_one(steps[i], i as usize, args) {
            Ok(b) => match spec_extract_from(steps, args, i + 1) {
                Ok(rest) => Ok(seq![b] + rest),
                Err(e) => Err(e),
            },
            Err(e) => Err(e),
        }
    }
}

/// What the whole extraction sequence yields: the bindings in slot order, or
/// the first fatal error in ascending slot order.
pub open spec fn spec_extract_all(
    steps: Seq<ExtractionStrategy>,
    args: Seq<Value>,
) -> Result<Seq<Binding>, AdapterError> {
    spec_extract_from(steps, args, 0)
}

/// An executable extraction result agrees with the specified one.
pub open spec fn extraction_matches(
    r: Result<Vec<Binding>, AdapterError>,
    s: Result<Seq<Binding>, AdapterError>,
) -> bool {
    match (r, s) {
        (Ok(v), Ok(bs)) => v@ == bs,
        (Err(e1), Err(e2)) => e1 == e2,
        _ => false,
    }
}

/// If every step from `p` on succeeds pointwise with the bindings `all`,
/// the extraction from `p` succeeds with exactly the bindings from `p` on.
proof fn lemma_extract_from_ok(
    steps: Seq<ExtractionStrategy>,
    args: Seq<Value>,
    p: int,
    all: Seq<Binding>,
)
    requires
        0 <= p <= steps.len(),
        all.len() == steps.len(),
        forall|j: int|
            p <= j < steps.len() ==> spec_extract_one(steps[j], j as usize, args) == Ok::<
                Binding,
                AdapterError,
            >(#[trigger] all[j]),
    ensures
        spec_extract_from(steps, args, p) == Ok::<Seq<Binding>, AdapterError>(
            all.subrange(p, steps.len() as int),
        ),
    decreases steps.len() - p,
{
    if p == steps.len() {
        assert(all.subrange(p, steps.len() as int) =~= Seq::<Binding>::empty());
    } else {
        assert(spec_extract_one(steps[p], p as usize, args) == Ok::<Binding, AdapterError>(
            all[p],
        ));
        lemma_extract_from_ok(steps, args, p + 1, all);
        assert(seq![all[p]] + all.subrange(p + 1, steps.len() as int) =~= all.subrange(
            p,
            steps.len() as int,
        ));
    }
}

/// If every step from `p` up to `i` succeeds and step `i` fails with `e`,
/// the extraction from `p` fails with exactly `e`: the first error in
/// ascending slot order wins.
proof fn lemma_extract_from_err(
    steps: Seq<ExtractionStrategy>,
    args: Seq<Value>,
    p: int,
    i: int,
    e: AdapterError,
    done: Seq<Binding>,
)
    requires
        0 <= p <= i < steps.len(),
        forall|j: int|
            p <= j < i ==> spec_extract_one(steps[j], j as usize, args) == Ok::<
                Binding,
                AdapterError,
            >(#[trigger] done[j]),
        spec_extract_one(steps[i], i as usize, args) == Err::<Binding, AdapterError>(e),
    ensures
        spec_extract_from(steps, args, p) == Err::<Seq<Binding>, AdapterError>(e),
    decreases i - p,
{
    if p < i {
        assert(spec_extract_one(steps[p], p as usize, args) == Ok::<Binding, AdapterError>(
            done[p],
        ));
        lemma_extract_from_err(steps, args, p + 1, i, e, done);
    }
}

/// Under an admitted argument count, every non-optional step's slot exists.
proof fn lemma_admitted_slots_exist(plan: AdapterPlan, count: usize, i: int)
    requires
        plan.wf(),
        plan.steps@.len() <= usize::MAX,
        spec_admits(plan.arity, count),
        0 <= i < plan.steps@.len(),
        !strategy_optional(plan.steps@[i]),
    ensures
        i < count,
{
    let flags = step_optional_flags(plan.steps@);
    let n = flags.len();
    let k = trailing_true_count(flags);
    lemma_trailing_true_props(flags);
    assert(flags[i] == strategy_optional(plan.steps@[i]));
    assert(i < n - k) by {
        if i >= n - k {
            assert(flags[i]);
        }
    }
    if k == 0 {
        assert(plan.arity == ArityContract::Fixed(n as usize));
    } else {
        assert(plan.arity == ArityContract::Range((n - k) as usize, n as usize));
    }
}

/// The adapter body's argument extraction: run the steps in ascending slot
/// order, stopping at the first fatal error. The host dispatcher has already
/// admitted the argument count.
pub fn extract_args(plan: &AdapterPlan, args: &Vec<Value>) -> (r: Result<
    Vec<Binding>,
    AdapterError,
>)
    requires
        plan.wf(),
        spec_admits(plan.arity, args@.len() as usize),
    ensures
        extraction_matches(r, spec_extract_all(plan.steps@, args@)),
{
    let count = args.len();
    let n = plan.steps.len();
    let mut out: Vec<Binding> = Vec::new();
    let mut i: usize = 0;
    while i < n
        invariant
            i <= n,
            n == plan.steps@.len(),
            count == args@.len(),
            plan.wf(),
            spec_admits(plan.arity, count),
            out@.len() == i,
            forall|j: int|
                0 <= j < i ==> spec_extract_one(plan.steps@[j], j as usize, args@) == Ok::<
                    Binding,
                    AdapterError,
                >(#[trigger] out@[j]),
        decreases n - i,
    {
        proof {
            if !strategy_optional(plan.steps@[i as int]) {
                lemma_admitted_slots_exist(*plan, count, i as int);
            }
        }
        match extract_one(&plan.steps[i], i, args) {
            Ok(b) => { out.push(b); },
            Err(e) => {
                proof {
                    lemma_extract_from_err(plan.steps@, args@, 0, i as int, e, out@);
                }
                return Err(e);
            },
        }
        i = i + 1;
    }
    proof {
        lemma_extract_from_ok(plan.steps@, args@, 0, out@);
        assert(out@.subrange(0, plan.steps@.len() as int) =~= out@);
    }
    Ok(out)
}

/// The arity-mismatch error the host dispatcher raises for an argument count
/// outside the contract.
pub open spec fn spec_arity_error(a: ArityContract, got: usize) -> AdapterError {
    AdapterError::ArityMismatch { got, min: spec_min_arity(a), max: spec_max_arity(a) }
}

/// The smallest and largest admitted argument counts.
pub fn arity_bounds(a: &ArityContract) -> (r: (usize, usize))
    ensures
        r.0 == spec_min_arity(*a),
        r.1 == spec_max_arity(*a),
{
    match a {
        ArityContract::Fixed(n) => (*n, *n),
        ArityContract::Range(min, max) => (*min, *max),
    }
}

/// The host dispatcher's part: reject an argument count outside the declared
/// contract before the adapter body runs, and otherwise run the adapter's
/// extraction steps.
pub fn dispatch(plan: &AdapterPlan, args: &Vec<Value>) -> (r: Result<Vec<Binding>, AdapterError>)
    requires
        plan.wf(),
    ensures
        !spec_admits(plan.arity, args@.len() as usize) ==> r == Err::<
            Vec<Binding>,
            AdapterError,
        >(spec_arity_error(plan.arity, args@.len() as usize)),
        spec_admits(plan.arity, args@.len() as usize) ==> extraction_matches(
            r,
            spec_extract_all(plan.steps@, args@),
        ),
{
    let count = args.len();
    if !arity_admits(&plan.arity, count) {
        let bounds = arity_bounds(&plan.arity);
        return Err(AdapterError::ArityMismatch { got: count, min: bounds.0, max: bounds.1 });
    }
    extract_args(plan, args)
}

/// Whether a native return value has the shape the declared return type
/// calls for: a success or failure for a fallible return type, and a direct
/// value for any other.
pub open spec fn spec_return_matches(ret: TypeDescriptor, outcome: NativeReturn) -> bool {
    if ret is Fallible {
        !(outcome is Direct)
    } else {
        outcome is Direct
    }
}

/// What result conversion yields: a fallible return's success value and a
/// direct return value are converted through the total outbound hook; a
/// fallible return's error value is a fatal domain error embedding its
/// textual representation.
pub open spec fn spec_convert_result(outcome: NativeReturn) -> Result<Value, AdapterError> {
    match outcome {
        NativeReturn::Direct(nv) => Ok(spec_to_value(nv)),
        NativeReturn::Success(nv) => Ok(spec_to_value(nv)),
        NativeReturn::Failure(message) => Err(AdapterError::DomainError { message }),
    }
}

/// The result converter at the end of the adapter body.
pub fn convert_result(ret: &TypeDescriptor, outcome: NativeReturn) -> (r: Result<
    Value,
    AdapterError,
>)
    requires
        spec_return_matches(*ret, outcome),
    ensures
        r == spec_convert_result(outcome),
{
    match outcome {
        NativeReturn::Direct(nv) => Ok(to_value(nv)),
        NativeReturn::Success(nv) => Ok(to_value(nv)),
        NativeReturn::Failure(message) => Err(AdapterError::DomainError { message }),
    }
}

/// The whole adapter call: the host dispatcher's arity check, the extraction
/// steps in slot order, the native invocation on the extracted bindings, and
/// result conversion. The native function is any callable whose possible
/// return values have the declared return shape.
pub fn invoke<F: FnOnce(Vec<Binding>) -> NativeReturn>(
    plan: &AdapterPlan,
    args: &Vec<Value>,
    native: F,
) -> (r: Result<Value, AdapterError>)
    requires
        plan.wf(),
        forall|bs: Vec<Binding>|
            spec_extract_all(plan.steps@, args@) == Ok::<Seq<Binding>, AdapterError>(bs@)
                ==> #[trigger] call_requires(native, (bs,)),
        forall|bs: Vec<Binding>, outcome: NativeReturn|
            #[trigger] call_ensures(native, (bs,), outcome) ==> spec_return_matches(
                plan.return_descriptor,
                outcome,
            ),
    ensures
        !spec_admits(plan.arity, args@.len() as usize) ==> r == Err::<Value, AdapterError>(
            spec_arity_error(plan.arity, args@.len() as usize),
        ),
        spec_admits(plan.arity, args@.len() as usize) ==> match spec_extract_all(
            plan.steps@,
            args@,
        ) {
            Err(e) => r == Err::<Value, AdapterError>(e),
            Ok(bs) => exists|outcome: NativeReturn|
                {
                    &&& exists|bv: Vec<Binding>| bv@ == bs && #[trigger] call_ensures(
                        native,
                        (bv,),
                        outcome,
                    )
                    &&& r == spec_convert_result(outcome)
                },
        },
{
    let bindings = match dispatch(plan, args) {
        Ok(bindings) => bindings,
        Err(e) => {
            return Err(e);
        },
    };
    let outcome = native(bindings);
    convert_result(&plan.return_descriptor, outcome)
}

/// Law: an optional plain parameter at a slot binds `None` when the slot is
/// absent or holds nil; a present, non-nil value that converts binds
/// `Some` of the converted value; and a present, non-nil value that does not
/// convert is a fatal conversion error naming the slot, the expected type
/// and the actual runtime kind.
pub proof fn lemma_optional_plain_policy(name: String, slot: usize, args: Seq<Value>)
    ensures
        (args.len() <= slot || args[slot as int] is Nil) ==> spec_extract_one(
            ExtractionStrategy::OptionalPlain(name),
            slot,
            args,
        ) == Ok::<Binding, AdapterError>(Binding::OptionalPlain(None)),
        (slot < args.len() && !(args[slot as int] is Nil)) ==> spec_extract_one(
            ExtractionStrategy::OptionalPlain(name),
            slot,
            args,
        ) == match spec_convert_plain(name@, args[slot as int]) {
            Some(nv) => Ok::<Binding, AdapterError>(Binding::OptionalPlain(Some(nv))),
            None => Err::<Binding, AdapterError>(
                AdapterError::ConversionError {
                    slot,
                    expected: name,
                    actual: args[slot as int].spec_kind(),
                },
            ),
        },
{
}

/// Law: a handle parameter declared behind an exclusive reference selects
/// the exclusive-accessor extraction step, a shared one the shared step, and
/// a successful fetch records exactly the declared accessor mode in its
/// binding.
pub proof fn lemma_handle_mode_policy(name: String, m: Mutability, slot: usize, args: Seq<Value>)
    ensures
        spec_select_strategy(
            TypeDescriptor::Handle(Box::new(TypeDescriptor::Plain(name)), m),
        ) == Some(ExtractionStrategy::HandleFetch(m, name)),
        spec_extract_one(ExtractionStrategy::HandleFetch(m, name), slot, args) matches Ok(b)
            ==> b matches Binding::Handle(mode, _) && mode == m,
        spec_extract_one(ExtractionStrategy::OptionalHandleFetch(m, name), slot, args) matches Ok(
            b,
        ) ==> b matches Binding::OptionalHandle(mode, _) && mode == m,
{
}

/// Law: under a fallible return type, a success value is converted through
/// the total outbound hook and returned, and an error value is a fatal
/// domain error whose message is exactly the error's textual form.
pub proof fn lemma_fallible_return_policy(ret: TypeDescriptor, nv: NativeValue, message: String)
    requires
        ret is Fallible,
    ensures
        spec_return_matches(ret, NativeReturn::Success(nv)),
        spec_return_matches(ret, NativeReturn::Failure(message)),
        spec_convert_result(NativeReturn::Success(nv)) == Ok::<Value, AdapterError>(
            spec_to_value(nv),
        ),
        spec_convert_result(NativeReturn::Failure(message)) == Err::<Value, AdapterError>(
            AdapterError::DomainError { message },
        ),
{
}

} // verus!
