use transition_core::options::config_file_needs_resolution;
use transition_core::options::merge_config_overrides;
use transition_core::options::BuildReportOption;
use transition_core::options::CommonBuildConfigurationOptions;
use transition_core::options::CommonBuildOptions;
use transition_core::options::CommonOutputOptions;
use transition_core::options::ConfigType;
use transition_core::options::ExecutionStrategy;
use transition_core::options::HostArchOverride;
use transition_core::options::HostPlatformOverride;
use transition_core::options::PrintOutputsFormat;

fn base_build_options() -> CommonBuildOptions {
    CommonBuildOptions {
        build_report: None,
        build_report_options: vec![],
        print_build_report: false,
        num_threads: None,
        local_only: false,
        remote_only: false,
        prefer_local: false,
        prefer_remote: false,
        unstable_no_execution: false,
        no_remote_cache: false,
        write_to_cache_anyway: false,
        eager_dep_files: false,
        upload_all_actions: false,
        fail_fast: false,
        keep_going: false,
        skip_missing_targets: false,
        skip_incompatible_targets: false,
        materialize_failed_inputs: false,
    }
}

fn no_output_options() -> CommonOutputOptions {
    CommonOutputOptions {
        show_output: false,
        show_full_output: false,
        show_simple_output: false,
        show_full_simple_output: false,
        show_json_output: false,
        show_full_json_output: false,
    }
}

#[test]
fn output_format_selection() {
    assert_eq!(no_output_options().format(), None);
    assert!(!no_output_options().is_full());

    let plain = CommonOutputOptions {
        show_output: true,
        ..no_output_options()
    };
    assert_eq!(plain.format(), Some(PrintOutputsFormat::Plain));
    assert!(!plain.is_full());

    let full_simple = CommonOutputOptions {
        show_full_simple_output: true,
        ..no_output_options()
    };
    assert_eq!(full_simple.format(), Some(PrintOutputsFormat::Simple));
    assert!(full_simple.is_full());

    let json = CommonOutputOptions {
        show_full_json_output: true,
        ..no_output_options()
    };
    assert_eq!(json.format(), Some(PrintOutputsFormat::Json));
    assert!(json.is_full());
}

#[test]
fn build_report_destination() {
    let mut o = base_build_options();
    assert_eq!(o.build_report(), (false, "".to_string()));

    o.print_build_report = true;
    assert_eq!(o.build_report(), (true, "".to_string()));

    o.print_build_report = false;
    o.build_report = Some("-".to_string());
    assert_eq!(o.build_report(), (true, "".to_string()));

    o.build_report = Some("report.json".to_string());
    assert_eq!(o.build_report(), (true, "report.json".to_string()));
}

#[test]
fn execution_strategy_selection() {
    let mut o = base_build_options();
    assert_eq!(o.to_proto().execution_strategy, ExecutionStrategy::Default);

    o.prefer_remote = true;
    assert_eq!(
        o.to_proto().execution_strategy,
        ExecutionStrategy::HybridPreferRemote
    );

    o.local_only = true;
    assert_eq!(o.to_proto().execution_strategy, ExecutionStrategy::LocalOnly);
}

#[test]
fn to_proto_cache_and_report_flags() {
    let mut o = base_build_options();
    o.no_remote_cache = true;
    o.build_report_options = vec![
        BuildReportOption::from_str("fill-out-failures"),
        BuildReportOption::from_str("unknown-option"),
    ];
    let p = o.to_proto();
    assert!(p.skip_cache_read);
    assert!(p.skip_cache_write);
    assert!(p.unstable_include_failures_build_report);
    assert!(!p.unstable_include_package_project_relative_paths);

    o.write_to_cache_anyway = true;
    let p2 = o.to_proto();
    assert!(p2.skip_cache_read);
    assert!(!p2.skip_cache_write);
}

#[test]
fn to_proto_concurrency() {
    let mut o = base_build_options();
    o.num_threads = Some(8);
    let p = o.to_proto();
    assert_eq!(p.concurrency.unwrap().concurrency, 8);
    o.num_threads = None;
    assert!(o.to_proto().concurrency.is_none());
}

#[test]
fn build_report_option_parsing_is_case_insensitive() {
    let fill = BuildReportOption::from_str("FILL-OUT-FAILURES");
    assert!(fill.fill_out_failures);
    assert!(!fill.include_package_project_relative_paths);

    let paths = BuildReportOption::from_str("package-project-relative-paths");
    assert!(!paths.fill_out_failures);
    assert!(paths.include_package_project_relative_paths);

    let unknown = BuildReportOption::from_str("something-else");
    assert!(!unknown.fill_out_failures);
    assert!(!unknown.include_package_project_relative_paths);
}

#[test]
fn config_overrides_merge_in_command_line_order() {
    let files = vec![
        (0usize, "mode/dev".to_string()),
        (4usize, "mode/extra".to_string()),
    ];
    let values = vec![
        (2usize, "section.key=1".to_string()),
        (6usize, "section.other=2".to_string()),
    ];
    let merged = merge_config_overrides(&files, &values);
    let shaped: Vec<(&str, ConfigType)> = merged
        .iter()
        .map(|o| (o.config_override.as_str(), o.config_type))
        .collect();
    assert_eq!(
        shaped,
        vec![
            ("mode/dev", ConfigType::File),
            ("section.key=1", ConfigType::Value),
            ("mode/extra", ConfigType::File),
            ("section.other=2", ConfigType::Value),
        ]
    );
}

#[test]
fn config_overrides_merge_handles_empty_sides() {
    let merged = merge_config_overrides(&vec![], &vec![(0usize, "a=1".to_string())]);
    assert_eq!(merged.len(), 1);
    assert_eq!(merged[0].config_override, "a=1");
    assert_eq!(merged[0].config_type, ConfigType::Value);

    let none = merge_config_overrides(&vec![], &vec![]);
    assert!(none.is_empty());
}

#[test]
fn host_overrides_default_when_unset() {
    let o = CommonBuildConfigurationOptions::default();
    assert_eq!(o.host_platform_override(), HostPlatformOverride::Default);
    assert_eq!(o.host_arch_override(), HostArchOverride::Default);
    assert_eq!(o.host_xcode_version_override(), None);

    let mut with = CommonBuildConfigurationOptions::default();
    with.fake_host = Some(HostPlatformOverride::Linux);
    with.fake_arch = Some(HostArchOverride::AArch64);
    with.fake_xcode_version = Some("14.3.0-14C18".to_string());
    assert_eq!(with.host_platform_override(), HostPlatformOverride::Linux);
    assert_eq!(with.host_arch_override(), HostArchOverride::AArch64);
    assert_eq!(
        with.host_xcode_version_override(),
        Some("14.3.0-14C18".to_string())
    );
}

#[test]
fn target_cfg_collects_platform_and_modifiers() {
    let mut o = CommonBuildConfigurationOptions::default();
    o.target_platforms = Some("root//platforms:x86".to_string());
    o.cli_modifiers = vec!["value1".to_string(), "value2".to_string()];
    let cfg = o.target_cfg();
    assert_eq!(cfg.target_platform, "root//platforms:x86");
    assert_eq!(cfg.cli_modifiers, vec!["value1", "value2"]);

    let empty = CommonBuildConfigurationOptions::default().target_cfg();
    assert_eq!(empty.target_platform, "");
    assert!(empty.cli_modifiers.is_empty());
}

#[test]
fn config_file_resolution_decision() {
    // Cell-relative arguments and absolute paths pass through unchanged.
    assert!(!config_file_needs_resolution("cell//mode/dev", false));
    assert!(!config_file_needs_resolution("/abs/mode/dev", true));
    // A plain relative path is resolved against the working directory.
    assert!(config_file_needs_resolution("mode/dev", false));
    assert!(config_file_needs_resolution("", false));
}
