use transition_core::labels::ConfiguredProvidersLabel;
use transition_core::labels::PluginKind;
use transition_core::labels::PluginKindSet;
use transition_core::labels::SourcePath;
use transition_core::labels::TargetLabel;
use transition_core::traversal::traverse_configured_attrs;
use transition_core::traversal::CallRecorder;
use transition_core::traversal::ConfiguredAttr;
use transition_core::traversal::ConfiguredNode;
use transition_core::traversal::DefaultDelegation;
use transition_core::traversal::DepRecorder;
use transition_core::traversal::LimitedVisitor;
use transition_core::traversal::QueryLiteral;
use transition_core::traversal::ResolvedQueryLiterals;

fn provider_label(text: &str) -> ConfiguredProvidersLabel {
    ConfiguredProvidersLabel {
        text: text.to_string(),
    }
}

fn target_label(text: &str) -> TargetLabel {
    TargetLabel {
        text: text.to_string(),
    }
}

fn sample_node() -> ConfiguredNode {
    ConfiguredNode {
        attrs: vec![
            ConfiguredAttr::Dep(provider_label("root//a:a")),
            ConfiguredAttr::DepWithPlugins(
                provider_label("root//b:b"),
                PluginKindSet {
                    kinds: vec![PluginKind {
                        name: "linter".to_string(),
                    }],
                },
            ),
            ConfiguredAttr::ExecDep(provider_label("root//c:c")),
            ConfiguredAttr::ToolchainDep(provider_label("root//d:d")),
            ConfiguredAttr::ConfigurationDep(target_label("root//e:e")),
            ConfiguredAttr::PluginDep(
                target_label("root//f:f"),
                PluginKind {
                    name: "compiler".to_string(),
                },
            ),
            ConfiguredAttr::Query(
                "deps(root//g:g)".to_string(),
                ResolvedQueryLiterals {
                    literals: vec![QueryLiteral {
                        text: "root//g:g".to_string(),
                        label: provider_label("root//g:g"),
                    }],
                },
            ),
            ConfiguredAttr::Input(SourcePath {
                path: "pkg/src/main.rs".to_string(),
            }),
            ConfiguredAttr::Label(provider_label("root//h:h")),
        ],
    }
}

#[test]
fn dep_only_visitor_observes_default_delegation() {
    let node = sample_node();
    let mut visitor = DefaultDelegation::new(DepRecorder::new());
    traverse_configured_attrs(&node, &mut visitor).unwrap();
    let recorder = visitor.into_inner();
    let seen: Vec<&str> = recorder.labels.iter().map(|l| l.text.as_str()).collect();
    // dep, dep_with_plugins, exec_dep and toolchain_dep arrive as dep with
    // the same label; the other five kinds are not observed at all.
    assert_eq!(seen, vec!["root//a:a", "root//b:b", "root//c:c", "root//d:d"]);
}

#[test]
fn traversal_is_repeatable() {
    let node = sample_node();
    let mut first = CallRecorder::new();
    let mut second = CallRecorder::new();
    traverse_configured_attrs(&node, &mut first).unwrap();
    traverse_configured_attrs(&node, &mut second).unwrap();
    assert_eq!(first.calls.len(), node.attrs.len());
    assert_eq!(format!("{:?}", first.calls), format!("{:?}", second.calls));
}

#[test]
fn full_recorder_sees_every_attribute_in_order() {
    let node = sample_node();
    let mut recorder = CallRecorder::new();
    traverse_configured_attrs(&node, &mut recorder).unwrap();
    assert_eq!(format!("{:?}", recorder.calls), format!("{:?}", node.attrs));
}

#[test]
fn first_error_aborts_the_pass() {
    let node = ConfiguredNode {
        attrs: vec![
            ConfiguredAttr::Dep(provider_label("root//a:a")),
            ConfiguredAttr::Dep(provider_label("root//b:b")),
            ConfiguredAttr::Dep(provider_label("root//c:c")),
        ],
    };
    let mut visitor = DefaultDelegation::new(LimitedVisitor::new(2));
    let r = traverse_configured_attrs(&node, &mut visitor);
    assert!(r.is_err());
    let inner = visitor.into_inner();
    let seen: Vec<&str> = inner.accepted.iter().map(|l| l.text.as_str()).collect();
    assert_eq!(seen, vec!["root//a:a", "root//b:b"]);
}

#[test]
fn empty_node_traverses_without_calls() {
    let node = ConfiguredNode { attrs: vec![] };
    let mut visitor = DefaultDelegation::new(DepRecorder::new());
    traverse_configured_attrs(&node, &mut visitor).unwrap();
    assert!(visitor.into_inner().labels.is_empty());
}
