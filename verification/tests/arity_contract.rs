use jfna::arity::{arity_admits, compute_arity, ArityContract};
use jfna::descriptor::DeclaredType;
use jfna::signature::FunctionSignature;

fn named(name: &str) -> DeclaredType {
    DeclaredType::Named(String::from(name))
}

fn optional(inner: DeclaredType) -> DeclaredType {
    DeclaredType::Generic(String::from("Option"), Box::new(inner))
}

fn signature_of(params: Vec<DeclaredType>) -> FunctionSignature {
    FunctionSignature::new(&params, &named("f64"))
}

#[test]
fn fixed_arity_without_optionals() {
    let sig = signature_of(vec![named("f64"), named("String")]);
    let a = compute_arity(&sig);
    assert_eq!(a, ArityContract::Fixed(2));
    assert!(arity_admits(&a, 2));
    assert!(!arity_admits(&a, 0));
    assert!(!arity_admits(&a, 1));
    assert!(!arity_admits(&a, 3));
}

#[test]
fn fixed_arity_empty_signature() {
    let sig = signature_of(vec![]);
    let a = compute_arity(&sig);
    assert_eq!(a, ArityContract::Fixed(0));
    assert!(arity_admits(&a, 0));
    assert!(!arity_admits(&a, 1));
}

#[test]
fn range_arity_for_trailing_optionals() {
    let sig = signature_of(vec![
        named("f64"),
        optional(named("f64")),
        optional(named("String")),
    ]);
    let a = compute_arity(&sig);
    assert_eq!(a, ArityContract::Range(1, 3));
    assert!(!arity_admits(&a, 0));
    assert!(arity_admits(&a, 1));
    assert!(arity_admits(&a, 2));
    assert!(arity_admits(&a, 3));
    assert!(!arity_admits(&a, 4));
}

#[test]
fn all_parameters_optional() {
    let sig = signature_of(vec![optional(named("f64"))]);
    let a = compute_arity(&sig);
    assert_eq!(a, ArityContract::Range(0, 1));
}

#[test]
fn optional_before_required_does_not_relax_arity() {
    let sig = signature_of(vec![optional(named("f64")), named("f64")]);
    let a = compute_arity(&sig);
    assert_eq!(a, ArityContract::Fixed(2));
}

#[test]
fn trailing_run_stops_at_required_parameter() {
    let sig = signature_of(vec![
        optional(named("f64")),
        named("f64"),
        optional(named("f64")),
    ]);
    let a = compute_arity(&sig);
    assert_eq!(a, ArityContract::Range(2, 3));
}

#[test]
fn trailing_optional_marks() {
    let sig = signature_of(vec![
        optional(named("f64")),
        named("f64"),
        optional(named("f64")),
    ]);
    assert_eq!(sig.parameters.len(), 3);
    assert!(!sig.parameters[0].is_trailing_optional);
    assert!(!sig.parameters[1].is_trailing_optional);
    assert!(sig.parameters[2].is_trailing_optional);
    assert_eq!(sig.parameters[0].index, 0);
    assert_eq!(sig.parameters[1].index, 1);
    assert_eq!(sig.parameters[2].index, 2);
}

#[test]
fn optional_handles_count_as_optional() {
    let sig = signature_of(vec![
        named("f64"),
        optional(DeclaredType::Reference(
            jfna::descriptor::Mutability::Shared,
            Box::new(named("Abstract")),
        )),
    ]);
    let a = compute_arity(&sig);
    assert_eq!(a, ArityContract::Range(1, 2));
}
