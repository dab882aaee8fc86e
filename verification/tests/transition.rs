use transition_core::labels::ImportPath;
use transition_core::labels::TargetLabel;
use transition_core::signature::CallableSignature;
use transition_core::signature::Implementation;
use transition_core::signature::Parameter;
use transition_core::signature::StarlarkType;
use transition_core::transition::declare_transition;
use transition_core::transition::DeclarationError;
use transition_core::transition::RefResolution;

fn non_split_implementation() -> Implementation {
    Implementation {
        signature: Some(CallableSignature {
            params: vec![
                Parameter {
                    name: "platform".to_string(),
                    required: true,
                    ty: StarlarkType::Configuration,
                },
                Parameter {
                    name: "refs".to_string(),
                    required: true,
                    ty: StarlarkType::Struct,
                },
            ],
            ret: StarlarkType::Configuration,
        }),
    }
}

fn definition_file() -> Option<ImportPath> {
    Some(ImportPath {
        path: "root//transitions/defs.bzl".to_string(),
    })
}

#[test]
fn first_binding_wins_over_later_ones() {
    let mut t = declare_transition(non_split_implementation(), vec![], None, false, definition_file())
        .unwrap();
    t.export_as("first_name");
    t.export_as("second_name");
    t.export_as("third_name");
    let id = t.transition_id().unwrap();
    assert_eq!(id.name, "first_name");
    assert_eq!(id.path.path, "root//transitions/defs.bzl");
}

#[test]
fn freeze_requires_binding() {
    let t = declare_transition(non_split_implementation(), vec![], None, false, definition_file())
        .unwrap();
    assert!(t.transition_id().is_err());
    assert!(t.freeze().is_err());

    let mut bound =
        declare_transition(non_split_implementation(), vec![], None, false, definition_file())
            .unwrap();
    bound.export_as("my_cpus");
    let bound_id = bound.transition_id().unwrap();
    let frozen = bound.freeze().unwrap();
    assert_eq!(frozen.id().name, bound_id.name);
    assert_eq!(frozen.id().path.path, bound_id.path.path);
}

#[test]
fn duplicate_attrs_are_rejected() {
    let attrs = Some(vec!["a".to_string(), "b".to_string(), "a".to_string()]);
    let r = declare_transition(
        non_split_implementation(),
        vec![],
        attrs,
        false,
        definition_file(),
    );
    assert!(matches!(r, Err(DeclarationError::NonUniqueAttrs)));
}

#[test]
fn unique_attrs_are_accepted() {
    let attrs = Some(vec!["a".to_string(), "b".to_string()]);
    let implementation = Implementation {
        signature: Some(CallableSignature {
            params: vec![
                Parameter {
                    name: "platform".to_string(),
                    required: true,
                    ty: StarlarkType::Configuration,
                },
                Parameter {
                    name: "refs".to_string(),
                    required: true,
                    ty: StarlarkType::Struct,
                },
                Parameter {
                    name: "attrs".to_string(),
                    required: true,
                    ty: StarlarkType::Struct,
                },
            ],
            ret: StarlarkType::Configuration,
        }),
    };
    let r = declare_transition(implementation, vec![], attrs, false, definition_file());
    let t = r.unwrap();
    assert_eq!(t.attrs.as_ref().unwrap().len(), 2);
}

#[test]
fn label_resolution_failure_propagates() {
    let refs = vec![
        (
            "ok_ref".to_string(),
            RefResolution::Resolved(TargetLabel {
                text: "root//platform:a".to_string(),
            }),
        ),
        (
            "bad_ref".to_string(),
            RefResolution::Failed("no such target".to_string()),
        ),
    ];
    let r = declare_transition(non_split_implementation(), refs, None, false, definition_file());
    match r {
        Err(DeclarationError::LabelResolution { name, message }) => {
            assert_eq!(name, "bad_ref");
            assert_eq!(message, "no such target");
        }
        other => panic!("expected a label-resolution failure, got {:?}", other),
    }
}

#[test]
fn declaration_outside_definition_file_fails() {
    let r = declare_transition(non_split_implementation(), vec![], None, false, None);
    assert!(matches!(r, Err(DeclarationError::NotInDefinitionFile)));
}

#[test]
fn declare_bind_freeze_end_to_end() {
    let refs = vec![(
        "platform_dep".to_string(),
        RefResolution::Resolved(TargetLabel {
            text: "root//constraints:arch".to_string(),
        }),
    )];
    let mut t = declare_transition(non_split_implementation(), refs, None, false, definition_file())
        .unwrap();
    t.export_as("my_transition");
    let frozen = t.freeze().unwrap();
    assert!(!frozen.is_split());
    assert_eq!(frozen.refs().len(), 1);
    assert_eq!(frozen.refs()[0].0, "platform_dep");
    assert_eq!(frozen.refs()[0].1.text, "root//constraints:arch");
    assert_eq!(frozen.id().name, "my_transition");
    assert!(frozen.attrs().is_none());
    assert!(frozen.transition_id().is_ok());
}

#[test]
fn error_messages_render_their_cause() {
    let dup = declare_transition(
        non_split_implementation(),
        vec![],
        Some(vec!["a".to_string(), "a".to_string()]),
        false,
        definition_file(),
    )
    .unwrap_err();
    assert_eq!(dup.message(), "Non-unique list of attrs");

    let outside = declare_transition(non_split_implementation(), vec![], None, false, None)
        .unwrap_err();
    assert_eq!(
        outside.message(),
        "`transition` can only be declared in .bzl files"
    );

    let unresolved = declare_transition(
        non_split_implementation(),
        vec![(
            "r".to_string(),
            RefResolution::Failed("unknown cell".to_string()),
        )],
        None,
        false,
        definition_file(),
    )
    .unwrap_err();
    assert_eq!(unresolved.message(), "unknown cell");

    let unbound = declare_transition(non_split_implementation(), vec![], None, false, definition_file())
        .unwrap()
        .freeze()
        .unwrap_err();
    assert_eq!(
        unbound.message(),
        "Transition must be assigned to a variable, e.g. `android_cpus = transition(...)`"
    );
}
