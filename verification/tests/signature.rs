use transition_core::signature::validate_transition_impl;
use transition_core::signature::CallableSignature;
use transition_core::signature::Implementation;
use transition_core::signature::Parameter;
use transition_core::signature::StarlarkType;
use transition_core::signature::TransitionImplParams;

fn param(name: &str, required: bool, ty: StarlarkType) -> Parameter {
    Parameter {
        name: name.to_string(),
        required,
        ty,
    }
}

fn callable(params: Vec<Parameter>, ret: StarlarkType) -> Implementation {
    Implementation {
        signature: Some(CallableSignature { params, ret }),
    }
}

#[test]
fn exact_non_split_implementation_passes() {
    let implementation = callable(
        vec![
            param("platform", true, StarlarkType::Configuration),
            param("refs", true, StarlarkType::Struct),
        ],
        StarlarkType::Configuration,
    );
    assert!(validate_transition_impl(&implementation, false, false).is_ok());
}

#[test]
fn non_split_implementation_returning_mapping_fails() {
    let implementation = callable(
        vec![
            param("platform", true, StarlarkType::Configuration),
            param("refs", true, StarlarkType::Struct),
        ],
        StarlarkType::ConfigurationDict,
    );
    assert!(validate_transition_impl(&implementation, false, false).is_err());
}

#[test]
fn implementation_missing_refs_fails() {
    let implementation = callable(
        vec![param("platform", true, StarlarkType::Configuration)],
        StarlarkType::Configuration,
    );
    assert!(validate_transition_impl(&implementation, false, false).is_err());
}

#[test]
fn split_implementation_returning_single_configuration_fails() {
    let implementation = callable(
        vec![
            param("platform", true, StarlarkType::Configuration),
            param("refs", true, StarlarkType::Struct),
        ],
        StarlarkType::Configuration,
    );
    assert!(validate_transition_impl(&implementation, false, true).is_err());
}

#[test]
fn split_implementation_returning_mapping_passes() {
    let implementation = callable(
        vec![
            param("platform", true, StarlarkType::Configuration),
            param("refs", true, StarlarkType::Struct),
        ],
        StarlarkType::ConfigurationDict,
    );
    assert!(validate_transition_impl(&implementation, false, true).is_ok());
}

#[test]
fn attrs_enabled_requires_attrs_parameter() {
    let without_attrs = callable(
        vec![
            param("platform", true, StarlarkType::Configuration),
            param("refs", true, StarlarkType::Struct),
        ],
        StarlarkType::Configuration,
    );
    assert!(validate_transition_impl(&without_attrs, true, false).is_err());

    let with_attrs = callable(
        vec![
            param("platform", true, StarlarkType::Configuration),
            param("refs", true, StarlarkType::Struct),
            param("attrs", true, StarlarkType::Struct),
        ],
        StarlarkType::Configuration,
    );
    assert!(validate_transition_impl(&with_attrs, true, false).is_ok());
}

#[test]
fn untyped_implementation_passes() {
    let implementation = callable(
        vec![
            param("platform", true, StarlarkType::Any),
            param("refs", true, StarlarkType::Any),
        ],
        StarlarkType::Any,
    );
    assert!(validate_transition_impl(&implementation, false, false).is_ok());
    assert!(validate_transition_impl(&implementation, false, true).is_ok());
}

#[test]
fn non_callable_implementation_fails() {
    let implementation = Implementation { signature: None };
    let e = validate_transition_impl(&implementation, false, false).unwrap_err();
    assert!(e.actual.signature.is_none());
    assert_eq!(e.expected.params.len(), 2);
    assert_eq!(e.expected.params[0].name, "platform");
    assert_eq!(e.expected.params[1].name, "refs");
}

#[test]
fn extra_required_parameter_fails() {
    let implementation = callable(
        vec![
            param("platform", true, StarlarkType::Configuration),
            param("refs", true, StarlarkType::Struct),
            param("extra", true, StarlarkType::Any),
        ],
        StarlarkType::Configuration,
    );
    assert!(validate_transition_impl(&implementation, false, false).is_err());
}

#[test]
fn extra_optional_parameter_passes() {
    let implementation = callable(
        vec![
            param("platform", true, StarlarkType::Configuration),
            param("refs", true, StarlarkType::Struct),
            param("extra", false, StarlarkType::Any),
        ],
        StarlarkType::Configuration,
    );
    assert!(validate_transition_impl(&implementation, false, false).is_ok());
}

#[test]
fn wrongly_typed_parameter_fails() {
    let implementation = callable(
        vec![
            param("platform", true, StarlarkType::Struct),
            param("refs", true, StarlarkType::Struct),
        ],
        StarlarkType::Configuration,
    );
    assert!(validate_transition_impl(&implementation, false, false).is_err());
}

#[test]
fn documented_parameter_shape() {
    let params = TransitionImplParams::params();
    assert_eq!(params.len(), 3);
    assert_eq!(params[0].name, "platform");
    assert!(params[0].required);
    assert_eq!(params[1].name, "refs");
    assert!(params[1].required);
    assert_eq!(params[2].name, "attrs");
    assert!(!params[2].required);
}

#[test]
fn mismatch_renders_expected_and_actual_signatures() {
    let implementation = callable(
        vec![param("platform", true, StarlarkType::Configuration)],
        StarlarkType::Configuration,
    );
    let e = validate_transition_impl(&implementation, false, true).unwrap_err();
    assert_eq!(
        e.render(),
        "transition(impl=) must be a function matching signature `(platform: Configuration, refs: Struct) -> dict[str, Configuration]`, got: `(platform: Configuration) -> Configuration`"
    );

    let not_callable = Implementation { signature: None };
    let e2 = validate_transition_impl(&not_callable, false, false).unwrap_err();
    assert_eq!(
        e2.render(),
        "transition(impl=) must be a function matching signature `(platform: Configuration, refs: Struct) -> Configuration`, got: `not a callable`"
    );
}
