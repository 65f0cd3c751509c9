use jfna::adapter::{
    convert_result, dispatch, emit_adapter, extract_args, invoke, AdapterPlan, Binding,
    NativeReturn,
};
use jfna::arity::ArityContract;
use jfna::descriptor::{DeclaredType, Mutability};
use jfna::error::{AdapterError, BindError, HandleFault};
use jfna::signature::FunctionSignature;
use jfna::strategy::ExtractionStrategy;
use jfna::value::{HandleValue, NativeValue, Value, ValueKind};

fn named(name: &str) -> DeclaredType {
    DeclaredType::Named(String::from(name))
}

fn optional(inner: DeclaredType) -> DeclaredType {
    DeclaredType::Generic(String::from("Option"), Box::new(inner))
}

fn handle_to(name: &str, m: Mutability) -> DeclaredType {
    DeclaredType::Reference(m, Box::new(named(name)))
}

fn fallible(ok: DeclaredType, err: DeclaredType) -> DeclaredType {
    DeclaredType::Generic2(String::from("Result"), Box::new(ok), Box::new(err))
}

fn plan_of(params: Vec<DeclaredType>, ret: DeclaredType) -> AdapterPlan {
    let sig = FunctionSignature::new(&params, &ret);
    emit_adapter(sig).expect("supported signature")
}

fn num(x: f64) -> Value {
    Value::Number(x.to_bits())
}

fn handle(name: &str, data: u64) -> Value {
    Value::Handle(HandleValue {
        native_type: String::from(name),
        data,
    })
}

// Pulls the numeric payload out of a plain binding.
fn bound_number(b: &Binding) -> f64 {
    match b {
        Binding::Plain(NativeValue::Number(bits)) => f64::from_bits(*bits),
        _ => panic!("expected a plain numeric binding"),
    }
}

#[test]
fn emitted_steps_follow_the_shapes() {
    let plan = plan_of(
        vec![
            named("f64"),
            optional(named("String")),
            handle_to("Abstract", Mutability::Shared),
            optional(handle_to("Abstract", Mutability::Exclusive)),
        ],
        named("f64"),
    );
    assert_eq!(
        plan.steps,
        vec![
            ExtractionStrategy::PlainConvert(String::from("f64")),
            ExtractionStrategy::OptionalPlain(String::from("String")),
            ExtractionStrategy::HandleFetch(Mutability::Shared, String::from("Abstract")),
            ExtractionStrategy::OptionalHandleFetch(
                Mutability::Exclusive,
                String::from("Abstract")
            ),
        ]
    );
    assert_eq!(plan.arity, ArityContract::Range(3, 4));
}

#[test]
fn unsupported_parameter_is_a_bind_error() {
    let params = vec![named("f64"), optional(optional(named("f64")))];
    let sig = FunctionSignature::new(&params, &named("f64"));
    assert_eq!(
        emit_adapter(sig),
        Err(BindError::UnsupportedParameter { index: 1 })
    );
}

#[test]
fn nested_handle_is_a_bind_error() {
    let params = vec![DeclaredType::Reference(
        Mutability::Shared,
        Box::new(handle_to("Abstract", Mutability::Shared)),
    )];
    let sig = FunctionSignature::new(&params, &named("f64"));
    assert_eq!(
        emit_adapter(sig),
        Err(BindError::UnsupportedParameter { index: 0 })
    );
}

#[test]
fn dispatcher_rejects_out_of_contract_counts() {
    let plan = plan_of(vec![named("f64")], named("f64"));
    let r = dispatch(&plan, &vec![]);
    assert_eq!(
        r,
        Err(AdapterError::ArityMismatch {
            got: 0,
            min: 1,
            max: 1
        })
    );
    let r = dispatch(&plan, &vec![num(1.0), num(2.0)]);
    assert_eq!(
        r,
        Err(AdapterError::ArityMismatch {
            got: 2,
            min: 1,
            max: 1
        })
    );
}

#[test]
fn plain_conversion_error_names_slot_and_kinds() {
    let plan = plan_of(vec![named("f64"), named("f64")], named("f64"));
    let r = dispatch(&plan, &vec![num(1.0), Value::Text(String::from("oops"))]);
    assert_eq!(
        r,
        Err(AdapterError::ConversionError {
            slot: 1,
            expected: String::from("f64"),
            actual: ValueKind::Text,
        })
    );
}

#[test]
fn nil_is_not_a_plain_value() {
    let plan = plan_of(vec![named("f64")], named("f64"));
    let r = dispatch(&plan, &vec![Value::Nil]);
    assert_eq!(
        r,
        Err(AdapterError::ConversionError {
            slot: 0,
            expected: String::from("f64"),
            actual: ValueKind::Nil,
        })
    );
}

#[test]
fn optional_plain_absent_nil_present_and_wrong() {
    let plan = plan_of(vec![optional(named("f64"))], named("f64"));

    let r = dispatch(&plan, &vec![]).expect("absent slot binds None");
    assert_eq!(r, vec![Binding::OptionalPlain(None)]);

    let r = dispatch(&plan, &vec![Value::Nil]).expect("nil slot binds None");
    assert_eq!(r, vec![Binding::OptionalPlain(None)]);

    let r = dispatch(&plan, &vec![num(42.0)]).expect("well-typed slot converts");
    assert_eq!(
        r,
        vec![Binding::OptionalPlain(Some(NativeValue::Number(
            42.0f64.to_bits()
        )))]
    );

    let r = dispatch(&plan, &vec![Value::Bool(true)]);
    assert_eq!(
        r,
        Err(AdapterError::ConversionError {
            slot: 0,
            expected: String::from("f64"),
            actual: ValueKind::Bool,
        })
    );
}

#[test]
fn extraction_reports_the_first_error_in_slot_order() {
    let plan = plan_of(vec![named("f64"), named("f64")], named("f64"));
    let r = extract_args(
        &plan,
        &vec![
            Value::Text(String::from("a")),
            Value::Text(String::from("b")),
        ],
    );
    assert_eq!(
        r,
        Err(AdapterError::ConversionError {
            slot: 0,
            expected: String::from("f64"),
            actual: ValueKind::Text,
        })
    );
}

#[test]
fn handle_binding_records_the_declared_mode() {
    let shared = plan_of(
        vec![handle_to("Abstract", Mutability::Shared)],
        named("f64"),
    );
    let r = dispatch(&shared, &vec![handle("Abstract", 7)]).expect("matching handle");
    assert_eq!(r, vec![Binding::Handle(Mutability::Shared, 7)]);

    let exclusive = plan_of(
        vec![handle_to("Abstract", Mutability::Exclusive)],
        named("f64"),
    );
    let r = dispatch(&exclusive, &vec![handle("Abstract", 7)]).expect("matching handle");
    assert_eq!(r, vec![Binding::Handle(Mutability::Exclusive, 7)]);
}

#[test]
fn non_handle_slot_is_a_handle_type_mismatch() {
    let plan = plan_of(
        vec![handle_to("Abstract", Mutability::Shared)],
        named("f64"),
    );
    let r = dispatch(&plan, &vec![num(1.0)]);
    assert_eq!(
        r,
        Err(AdapterError::HandleTypeMismatch {
            slot: 0,
            expected: String::from("Abstract"),
            fault: HandleFault::NotAHandle(ValueKind::Number),
        })
    );
}

#[test]
fn wrong_handle_type_is_fatal_even_for_optional_handles() {
    let plan = plan_of(
        vec![optional(handle_to("Abstract", Mutability::Shared))],
        named("f64"),
    );
    let r = dispatch(&plan, &vec![handle("Other", 3)]);
    assert_eq!(
        r,
        Err(AdapterError::HandleTypeMismatch {
            slot: 0,
            expected: String::from("Abstract"),
            fault: HandleFault::WrongType(String::from("Other")),
        })
    );
}

#[test]
fn optional_handle_absent_nil_and_present() {
    let plan = plan_of(
        vec![optional(handle_to("Abstract", Mutability::Exclusive))],
        named("f64"),
    );

    let r = dispatch(&plan, &vec![]).expect("absent slot binds None");
    assert_eq!(r, vec![Binding::OptionalHandle(Mutability::Exclusive, None)]);

    let r = dispatch(&plan, &vec![Value::Nil]).expect("nil slot binds None");
    assert_eq!(r, vec![Binding::OptionalHandle(Mutability::Exclusive, None)]);

    let r = dispatch(&plan, &vec![handle("Abstract", 42)]).expect("matching handle");
    assert_eq!(
        r,
        vec![Binding::OptionalHandle(Mutability::Exclusive, Some(42))]
    );
}

#[test]
fn direct_return_converts_through_the_outbound_hook() {
    let plan = plan_of(vec![], named("f64"));
    let r = convert_result(
        &plan.return_descriptor,
        NativeReturn::Direct(NativeValue::Number(3.5f64.to_bits())),
    );
    assert_eq!(r, Ok(num(3.5)));
}

#[test]
fn fallible_return_success_and_failure() {
    let plan = plan_of(vec![], fallible(named("f64"), named("String")));
    let r = convert_result(
        &plan.return_descriptor,
        NativeReturn::Success(NativeValue::Number(42.0f64.to_bits())),
    );
    assert_eq!(r, Ok(num(42.0)));

    let r = convert_result(
        &plan.return_descriptor,
        NativeReturn::Failure(String::from("nope")),
    );
    match r {
        Err(AdapterError::DomainError { message }) => assert!(message.contains("nope")),
        other => panic!("expected a domain error, got {:?}", other),
    }
}

// An identity function over one number: calling with 3.0 returns 3.0.
#[test]
fn scenario_identity() {
    let plan = plan_of(vec![named("f64")], named("f64"));
    assert_eq!(plan.arity, ArityContract::Fixed(1));
    let r = invoke(&plan, &vec![num(3.0)], |bindings: Vec<Binding>| {
        NativeReturn::Direct(NativeValue::Number(bound_number(&bindings[0]).to_bits()))
    });
    assert_eq!(r, Ok(num(3.0)));
}

// One optional number with a default of 0.0: the arity is Range(0, 1);
// zero arguments and nil both yield the default, 42.0 yields 42.0.
#[test]
fn scenario_optional_default() {
    let plan = plan_of(vec![optional(named("f64"))], named("f64"));
    assert_eq!(plan.arity, ArityContract::Range(0, 1));
    let native = |bindings: Vec<Binding>| {
        let x = match &bindings[0] {
            Binding::OptionalPlain(Some(NativeValue::Number(bits))) => f64::from_bits(*bits),
            Binding::OptionalPlain(None) => 0.0,
            _ => panic!("expected an optional plain binding"),
        };
        NativeReturn::Direct(NativeValue::Number(x.to_bits()))
    };
    assert_eq!(invoke(&plan, &vec![], native), Ok(num(0.0)));
    assert_eq!(invoke(&plan, &vec![Value::Nil], native), Ok(num(0.0)));
    assert_eq!(invoke(&plan, &vec![num(42.0)], native), Ok(num(42.0)));
}

// A fallible return: a success of 42.0 yields 42.0, an error of "nope"
// aborts with a DomainError containing "nope".
#[test]
fn scenario_fallible() {
    let plan = plan_of(
        vec![named("f64"), named("String")],
        fallible(named("f64"), named("String")),
    );
    let args = vec![num(1.0), Value::Text(String::from("xyz"))];

    let r = invoke(&plan, &args, |_bindings: Vec<Binding>| {
        NativeReturn::Success(NativeValue::Number(42.0f64.to_bits()))
    });
    assert_eq!(r, Ok(num(42.0)));

    let r = invoke(&plan, &args, |_bindings: Vec<Binding>| {
        NativeReturn::Failure(String::from("nope"))
    });
    match r {
        Err(AdapterError::DomainError { message }) => assert!(message.contains("nope")),
        other => panic!("expected a domain error, got {:?}", other),
    }
}

// An exclusive-handle parameter: a matching handle succeeds and returns
// the converted field, a handle of the wrong underlying type aborts with a
// HandleTypeMismatch.
#[test]
fn scenario_exclusive_handle() {
    let plan = plan_of(
        vec![handle_to("Abstract", Mutability::Exclusive)],
        named("f64"),
    );
    let native = |bindings: Vec<Binding>| match &bindings[0] {
        Binding::Handle(Mutability::Exclusive, data) => {
            NativeReturn::Direct(NativeValue::Number((*data as f64).to_bits()))
        }
        _ => panic!("expected an exclusive handle binding"),
    };
    let r = invoke(&plan, &vec![handle("Abstract", 42)], native);
    assert_eq!(r, Ok(num(42.0)));

    let r = invoke(&plan, &vec![handle("Other", 42)], native);
    assert_eq!(
        r,
        Err(AdapterError::HandleTypeMismatch {
            slot: 0,
            expected: String::from("Abstract"),
            fault: HandleFault::WrongType(String::from("Other")),
        })
    );
}

// An optional handle parameter: absent and nil both substitute the
// default, a present matching handle converts its field.
#[test]
fn scenario_optional_handle_default() {
    let plan = plan_of(
        vec![optional(handle_to("Abstract", Mutability::Shared))],
        named("f64"),
    );
    let native = |bindings: Vec<Binding>| {
        let x = match &bindings[0] {
            Binding::OptionalHandle(Mutability::Shared, Some(data)) => *data as f64,
            Binding::OptionalHandle(Mutability::Shared, None) => 0.0,
            _ => panic!("expected an optional shared handle binding"),
        };
        NativeReturn::Direct(NativeValue::Number(x.to_bits()))
    };
    assert_eq!(invoke(&plan, &vec![handle("Abstract", 42)], native), Ok(num(42.0)));
    assert_eq!(invoke(&plan, &vec![], native), Ok(num(0.0)));
    assert_eq!(invoke(&plan, &vec![Value::Nil], native), Ok(num(0.0)));
}

// A native function whose declared return is the runtime value type hands
// the value through unconverted, as the fallible nil-returning scenario
// shows.
#[test]
fn runtime_value_passes_through() {
    let plan = plan_of(vec![], fallible(named("Value"), named("String")));
    let r = invoke(&plan, &vec![], |_bindings: Vec<Binding>| {
        NativeReturn::Success(NativeValue::Runtime(Value::Nil))
    });
    assert_eq!(r, Ok(Value::Nil));
}
