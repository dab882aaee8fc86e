//! The pure decision logic of the shared command-line options: which output
//! format was chosen, how the build-report flags combine, which execution
//! strategy the build flags select, and how configuration overrides from
//! two argument lists merge into one ordered list. Parsing the command line
//! itself is the caller's business; these types hold the parsed values.

use vstd::prelude::*;

verus! {

/// A host platform the build can pretend to run on.
#[derive(Debug, Clone, Copy, PartialEq, Eq, Structural)]
pub enum HostPlatformOverride {
    Default,
    Linux,
    MacOs,
    Windows,
}

/// A host architecture the build can pretend to run on.
#[derive(Debug, Clone, Copy, PartialEq, Eq, Structural)]
pub enum HostArchOverride {
    Default,
    AArch64,
    X86_64,
}

/// One comma-separated build-report option.
#[derive(Debug, Clone, Copy, PartialEq, Eq, Structural)]
pub struct BuildReportOption {
    /// Fill out the failures in the build report.
    pub fill_out_failures: bool,
    /// Include package project-relative paths in the output.
    pub include_package_project_relative_paths: bool,
}

/// What a build-report option name, already lower-cased, selects. An
/// unrecognized name selects nothing.
pub open spec fn build_report_option_of(lowered: Seq<char>) -> BuildReportOption {
    if lowered == "fill-out-failures"@ {
        BuildReportOption { fill_out_failures: true, include_package_project_relative_paths: false }
    } else if lowered == "package-project-relative-paths"@ {
        BuildReportOption { fill_out_failures: false, include_package_project_relative_paths: true }
    } else {
        BuildReportOption {
            fill_out_failures: false,
            include_package_project_relative_paths: false,
        }
    }
}

/// The lower-cased form of a string, as the standard library's case
/// folding computes it.
pub uninterp spec fn lower_of(s: Seq<char>) -> Seq<char>;

/// Relies on str::to_lowercase: the result is a function of the characters
/// alone.
#[verifier::external_body]
fn to_lowercase(s: &str) -> (r: String)
    ensures
        r@ == lower_of(s@),
{
    s.to_lowercase()
}

impl BuildReportOption {
    /// Which option an already lower-cased name selects.
    pub fn classify(lowered: &str) -> (r: BuildReportOption)
        ensures
            r == build_report_option_of(lowered@),
    {
        if lowered.to_owned().eq(&String::from_str("fill-out-failures")) {
            BuildReportOption {
                fill_out_failures: true,
                include_package_project_relative_paths: false,
            }
        } else if lowered.to_owned().eq(&String::from_str("package-project-relative-paths")) {
            BuildReportOption {
                fill_out_failures: false,
                include_package_project_relative_paths: true,
            }
        } else {
            BuildReportOption {
                fill_out_failures: false,
                include_package_project_relative_paths: false,
            }
        }
    }

    /// Parse a build-report option name, case-insensitively. An
    /// unrecognized name selects nothing; the caller may warn about it.
    pub fn from_str(s: &str) -> (r: BuildReportOption)
        ensures
            r == build_report_option_of(lower_of(s@)),
    {
        let lowered = to_lowercase(s);
        BuildReportOption::classify(lowered.as_str())
    }
}

/// The output-format choices shared by build-like commands.
#[derive(Debug, Clone, Copy, PartialEq, Eq, Structural)]
pub struct CommonOutputOptions {
    pub show_output: bool,
    pub show_full_output: bool,
    pub show_simple_output: bool,
    pub show_full_simple_output: bool,
    pub show_json_output: bool,
    pub show_full_json_output: bool,
}

/// How chosen outputs are printed.
#[derive(Debug, Clone, Copy, PartialEq, Eq, Structural)]
pub enum PrintOutputsFormat {
    Plain,
    Simple,
    Json,
}

impl CommonOutputOptions {
    /// The format the flags select, if any: plain wins over simple, simple
    /// over JSON.
    pub fn format(&self) -> (r: Option<PrintOutputsFormat>)
        ensures
            r == if self.show_output || self.show_full_output {
                Option::Some(PrintOutputsFormat::Plain)
            } else if self.show_simple_output || self.show_full_simple_output {
                Option::Some(PrintOutputsFormat::Simple)
            } else if self.show_json_output || self.show_full_json_output {
                Option::Some(PrintOutputsFormat::Json)
            } else {
                Option::<PrintOutputsFormat>::None
            },
    {
        if self.show_output || self.show_full_output {
            Option::Some(PrintOutputsFormat::Plain)
        } else if self.show_simple_output || self.show_full_simple_output {
            Option::Some(PrintOutputsFormat::Simple)
        } else if self.show_json_output || self.show_full_json_output {
            Option::Some(PrintOutputsFormat::Json)
        } else {
            Option::None
        }
    }

    /// Whether one of the absolute-path variants was chosen.
    pub fn is_full(&self) -> (r: bool)
        ensures
            r == (self.show_full_output || self.show_full_simple_output
                || self.show_full_json_output),
    {
        self.show_full_output || self.show_full_simple_output || self.show_full_json_output
    }
}

/// The target configuration a command was given.
#[derive(Debug)]
pub struct TargetCfg {
    pub target_platform: String,
    pub cli_modifiers: Vec<String>,
}

/// The configuration-related options shared by commands that touch the
/// build graph.
#[derive(Debug)]
pub struct CommonBuildConfigurationOptions {
    pub config_values: Vec<String>,
    pub config_files: Vec<String>,
    pub target_platforms: Option<String>,
    pub cli_modifiers: Vec<String>,
    pub fake_host: Option<HostPlatformOverride>,
    pub fake_arch: Option<HostArchOverride>,
    pub fake_xcode_version: Option<String>,
    pub disable_starlark_types: bool,
    pub unstable_typecheck: bool,
    pub target_call_stacks: bool,
    pub skip_targets_with_duplicate_names: bool,
    pub reuse_current_config: bool,
    pub exit_when_different_state: bool,
}

impl CommonBuildConfigurationOptions {
    /// The host platform to pretend to run on; `Default` when none was
    /// given.
    pub fn host_platform_override(&self) -> (r: HostPlatformOverride)
        ensures
            r == match self.fake_host {
                Option::Some(v) => v,
                Option::None => HostPlatformOverride::Default,
            },
    {
        match &self.fake_host {
            Option::Some(v) => *v,
            Option::None => HostPlatformOverride::Default,
        }
    }

    /// The host architecture to pretend to run on; `Default` when none was
    /// given.
    pub fn host_arch_override(&self) -> (r: HostArchOverride)
        ensures
            r == match self.fake_arch {
                Option::Some(v) => v,
                Option::None => HostArchOverride::Default,
            },
    {
        match &self.fake_arch {
            Option::Some(v) => *v,
            Option::None => HostArchOverride::Default,
        }
    }

    /// The pretended Xcode version, if one was given.
    pub fn host_xcode_version_override(&self) -> (r: Option<String>)
        ensures
            r == self.fake_xcode_version,
    {
        self.fake_xcode_version.clone()
    }

    /// The target configuration: the single target platform, empty when
    /// none was given, and the command-line modifiers.
    pub fn target_cfg(&self) -> (r: TargetCfg)
        ensures
            r.target_platform@ == match self.target_platforms.deep_view() {
                Option::Some(p) => p,
                Option::None => Seq::<char>::empty(),
            },
            r.cli_modifiers.deep_view() == self.cli_modifiers.deep_view(),
    {
        let target_platform = match &self.target_platforms {
            Option::Some(p) => p.clone(),
            Option::None => String::new(),
        };
        let cli_modifiers = self.cli_modifiers.clone();
        proof {
            assert(cli_modifiers.deep_view() =~= self.cli_modifiers.deep_view());
        }
        TargetCfg { target_platform, cli_modifiers }
    }
}

impl Default for CommonBuildConfigurationOptions {
    /// The options as an empty command line leaves them.
    fn default() -> (r: Self)
        ensures
            r.config_values.deep_view() == Seq::<Seq<char>>::empty(),
            r.config_files.deep_view() == Seq::<Seq<char>>::empty(),
            r.target_platforms is None,
            r.cli_modifiers.deep_view() == Seq::<Seq<char>>::empty(),
            r.fake_host is None,
            r.fake_arch is None,
            r.fake_xcode_version is None,
            !r.disable_starlark_types,
            !r.unstable_typecheck,
            !r.target_call_stacks,
            !r.skip_targets_with_duplicate_names,
            !r.reuse_current_config,
            !r.exit_when_different_state,
    {
        let r = CommonBuildConfigurationOptions {
            config_values: Vec::new(),
            config_files: Vec::new(),
            target_platforms: Option::None,
            cli_modifiers: Vec::new(),
            fake_host: Option::None,
            fake_arch: Option::None,
            fake_xcode_version: Option::None,
            disable_starlark_types: false,
            unstable_typecheck: false,
            target_call_stacks: false,
            skip_targets_with_duplicate_names: false,
            reuse_current_config: false,
            exit_when_different_state: false,
        };
        proof {
            assert(r.config_values.deep_view() =~= Seq::<Seq<char>>::empty());
            assert(r.config_files.deep_view() =~= Seq::<Seq<char>>::empty());
            assert(r.cli_modifiers.deep_view() =~= Seq::<Seq<char>>::empty());
        }
        r
    }
}

/// Whether a configuration override came from an inline value or from a
/// file.
#[derive(Debug, Clone, Copy, PartialEq, Eq, Structural)]
pub enum ConfigType {
    Value,
    File,
}

/// One configuration override, in command-line order.
#[derive(Debug)]
pub struct ConfigOverride {
    pub config_override: String,
    pub config_type: ConfigType,
}

impl View for ConfigOverride {
    type V = (Seq<char>, ConfigType);

    open spec fn view(&self) -> (Seq<char>, ConfigType) {
        (self.config_override@, self.config_type)
    }
}

impl DeepView for ConfigOverride {
    type V = (Seq<char>, ConfigType);

    open spec fn deep_view(&self) -> (Seq<char>, ConfigType) {
        self.view()
    }
}

/// An argument with the position it held on the command line.
pub open spec fn indexed_model(args: Seq<(usize, String)>) -> Seq<(usize, Seq<char>)> {
    args.map_values(|e: (usize, String)| (e.0, e.1@))
}

/// The single ordered override list two position-tagged argument lists
/// merge into: ordered by position, a file override winning a tie. The
/// parser hands each list in ascending position order, so the merge is the
/// full command-line order.
pub open spec fn merged_overrides(
    files: Seq<(usize, Seq<char>)>,
    values: Seq<(usize, Seq<char>)>,
) -> Seq<(Seq<char>, ConfigType)>
    decreases files.len() + values.len(),
{
    if files.len() == 0 && values.len() == 0 {
        Seq::empty()
    } else if values.len() == 0 || (files.len() > 0 && files[0].0 <= values[0].0) {
        seq![(files[0].1, ConfigType::File)] + merged_overrides(files.drop_first(), values)
    } else {
        seq![(values[0].1, ConfigType::Value)] + merged_overrides(files, values.drop_first())
    }
}

/// Merge the `--config-file` arguments and the `-c`/`--config` arguments,
/// each tagged with its command-line position and given in ascending
/// position order, into the single ordered override list. File paths are
/// expected already resolved by the caller.
pub fn merge_config_overrides(
    file_args: &Vec<(usize, String)>,
    value_args: &Vec<(usize, String)>,
) -> (r: Vec<ConfigOverride>)
    ensures
        r.deep_view() == merged_overrides(indexed_model(file_args@), indexed_model(value_args@)),
{
    let ghost fm = indexed_model(file_args@);
    let ghost vm = indexed_model(value_args@);
    let mut out: Vec<ConfigOverride> = Vec::new();
    let mut i: usize = 0;
    let mut j: usize = 0;
    proof {
        assert(fm.skip(0) =~= fm);
        assert(vm.skip(0) =~= vm);
        assert(out.deep_view() =~= Seq::<(Seq<char>, ConfigType)>::empty());
        assert(Seq::<(Seq<char>, ConfigType)>::empty() + merged_overrides(fm, vm)
            =~= merged_overrides(fm, vm));
    }
    while i < file_args.len() || j < value_args.len()
        invariant
            i <= file_args.len(),
            j <= value_args.len(),
            fm == indexed_model(file_args@),
            vm == indexed_model(value_args@),
            merged_overrides(fm, vm) == out.deep_view() + merged_overrides(
                fm.skip(i as int),
                vm.skip(j as int),
            ),
        decreases file_args.len() - i + value_args.len() - j,
    {
        let ghost fr = fm.skip(i as int);
        let ghost vr = vm.skip(j as int);
        let ghost before = out.deep_view();
        let take_file = if j >= value_args.len() {
            true
        } else if i >= file_args.len() {
            false
        } else {
            file_args[i].0 <= value_args[j].0
        };
        if take_file {
            out.push(
                ConfigOverride {
                    config_override: file_args[i].1.clone(),
                    config_type: ConfigType::File,
                },
            );
            proof {
                assert(fr[0] == fm[i as int]);
                assert(merged_overrides(fr, vr) == seq![(fm[i as int].1, ConfigType::File)]
                    + merged_overrides(fr.drop_first(), vr));
                assert(fr.drop_first() =~= fm.skip(i as int + 1));
                assert(out.deep_view() =~= before.push((fm[i as int].1, ConfigType::File)));
                assert(before + (seq![(fm[i as int].1, ConfigType::File)] + merged_overrides(
                    fm.skip(i as int + 1),
                    vr,
                )) =~= out.deep_view() + merged_overrides(fm.skip(i as int + 1), vr));
            }
            i += 1;
        } else {
            out.push(
                ConfigOverride {
                    config_override: value_args[j].1.clone(),
                    config_type: ConfigType::Value,
                },
            );
            proof {
                assert(vr[0] == vm[j as int]);
                assert(merged_overrides(fr, vr) == seq![(vm[j as int].1, ConfigType::Value)]
                    + merged_overrides(fr, vr.drop_first()));
                assert(vr.drop_first() =~= vm.skip(j as int + 1));
                assert(out.deep_view() =~= before.push((vm[j as int].1, ConfigType::Value)));
                assert(before + (seq![(vm[j as int].1, ConfigType::Value)] + merged_overrides(
                    fr,
                    vm.skip(j as int + 1),
                )) =~= out.deep_view() + merged_overrides(fr, vm.skip(j as int + 1)));
            }
            j += 1;
        }
    }
    proof {
        assert(fm.skip(file_args@.len() as int) =~= Seq::<(usize, Seq<char>)>::empty());
        assert(vm.skip(value_args@.len() as int) =~= Seq::<(usize, Seq<char>)>::empty());
        assert(out.deep_view() + merged_overrides(
            Seq::<(usize, Seq<char>)>::empty(),
            Seq::<(usize, Seq<char>)>::empty(),
        ) =~= out.deep_view());
    }
    out
}

/// Whether a string holds two adjacent slashes, the mark of a cell-relative
/// path.
pub open spec fn has_adjacent_slashes(s: Seq<char>) -> bool {
    exists|i: int| 0 <= i && i + 1 < s.len() && #[trigger] s[i] == '/' && s[i + 1] == '/'
}

/// Scan a string for two adjacent slashes.
fn contains_adjacent_slashes(arg: &str) -> (r: bool)
    ensures
        r == has_adjacent_slashes(arg@),
{
    let n = arg.unicode_len();
    let mut i: usize = 0;
    while i < n && i + 1 < n
        invariant
            n == arg@.len(),
            i <= n,
            forall|k: int| 0 <= k < i ==> !(#[trigger] arg@[k] == '/' && arg@[k + 1] == '/'),
        decreases n - i,
    {
        if arg.get_char(i) == '/' && arg.get_char(i + 1) == '/' {
            proof {
                assert(arg@[i as int] == '/' && arg@[i as int + 1] == '/');
            }
            return true;
        }
        i += 1;
    }
    false
}

/// Whether a config-file argument must still be resolved against the file
/// system. A cell-relative argument (one containing `//`) is resolved later
/// by the daemon, and an absolute path needs no resolution; both pass
/// through unchanged. The caller supplies whether the path is absolute,
/// which only the platform can tell.
pub fn config_file_needs_resolution(arg: &str, is_absolute: bool) -> (r: bool)
    ensures
        r == (!has_adjacent_slashes(arg@) && !is_absolute),
{
    !contains_adjacent_slashes(arg) && !is_absolute
}

/// The execution strategy the build flags select, the first set flag
/// winning.
#[derive(Debug, Clone, Copy, PartialEq, Eq, Structural)]
pub enum ExecutionStrategy {
    Default,
    LocalOnly,
    RemoteOnly,
    HybridPreferLocal,
    HybridPreferRemote,
    NoExecution,
}

/// The concurrency limit handed to the daemon.
#[derive(Debug, Clone, Copy, PartialEq, Eq, Structural)]
pub struct Concurrency {
    pub concurrency: u32,
}

/// Ghost model of [`BuildOptionsMessage`].
pub struct BuildOptionsMessageModel {
    pub concurrency: Option<Concurrency>,
    pub execution_strategy: ExecutionStrategy,
    pub unstable_print_build_report: bool,
    pub unstable_build_report_filename: Seq<char>,
    pub eager_dep_files: bool,
    pub upload_all_actions: bool,
    pub skip_cache_read: bool,
    pub skip_cache_write: bool,
    pub fail_fast: bool,
    pub keep_going: bool,
    pub skip_missing_targets: bool,
    pub skip_incompatible_targets: bool,
    pub materialize_failed_inputs: bool,
    pub unstable_include_failures_build_report: bool,
    pub unstable_include_package_project_relative_paths: bool,
}

/// The build options in the shape the daemon consumes.
#[derive(Debug)]
pub struct BuildOptionsMessage {
    pub concurrency: Option<Concurrency>,
    pub execution_strategy: ExecutionStrategy,
    pub unstable_print_build_report: bool,
    pub unstable_build_report_filename: String,
    pub eager_dep_files: bool,
    pub upload_all_actions: bool,
    pub skip_cache_read: bool,
    pub skip_cache_write: bool,
    pub fail_fast: bool,
    pub keep_going: bool,
    pub skip_missing_targets: bool,
    pub skip_incompatible_targets: bool,
    pub materialize_failed_inputs: bool,
    pub unstable_include_failures_build_report: bool,
    pub unstable_include_package_project_relative_paths: bool,
}

impl View for BuildOptionsMessage {
    type V = BuildOptionsMessageModel;

    open spec fn view(&self) -> BuildOptionsMessageModel {
        BuildOptionsMessageModel {
            concurrency: self.concurrency,
            execution_strategy: self.execution_strategy,
            unstable_print_build_report: self.unstable_print_build_report,
            unstable_build_report_filename: self.unstable_build_report_filename@,
            eager_dep_files: self.eager_dep_files,
            upload_all_actions: self.upload_all_actions,
            skip_cache_read: self.skip_cache_read,
            skip_cache_write: self.skip_cache_write,
            fail_fast: self.fail_fast,
            keep_going: self.keep_going,
            skip_missing_targets: self.skip_missing_targets,
            skip_incompatible_targets: self.skip_incompatible_targets,
            materialize_failed_inputs: self.materialize_failed_inputs,
            unstable_include_failures_build_report: self.unstable_include_failures_build_report,
            unstable_include_package_project_relative_paths:
                self.unstable_include_package_project_relative_paths,
        }
    }
}

/// The build-related options shared by build-like commands.
#[derive(Debug)]
pub struct CommonBuildOptions {
    pub build_report: Option<String>,
    pub build_report_options: Vec<BuildReportOption>,
    pub print_build_report: bool,
    pub num_threads: Option<u32>,
    pub local_only: bool,
    pub remote_only: bool,
    pub prefer_local: bool,
    pub prefer_remote: bool,
    pub unstable_no_execution: bool,
    pub no_remote_cache: bool,
    pub write_to_cache_anyway: bool,
    pub eager_dep_files: bool,
    pub upload_all_actions: bool,
    pub fail_fast: bool,
    pub keep_going: bool,
    pub skip_missing_targets: bool,
    pub skip_incompatible_targets: bool,
    pub materialize_failed_inputs: bool,
}

/// Whether a build report was requested, and to which file: an explicit
/// path other than `-` goes to that file; `-` or the deprecated print flag
/// goes to standard output, with an empty filename.
pub open spec fn build_report_spec(print: bool, path: Option<Seq<char>>) -> (bool, Seq<char>) {
    match path {
        Option::Some(p) => if p != "-"@ {
            (true, p)
        } else {
            (true, Seq::<char>::empty())
        },
        Option::None => if print {
            (true, Seq::<char>::empty())
        } else {
            (false, Seq::<char>::empty())
        },
    }
}

/// The execution strategy the flags select.
pub open spec fn execution_strategy_spec(o: CommonBuildOptionsStrategyFlags) -> ExecutionStrategy {
    if o.local_only {
        ExecutionStrategy::LocalOnly
    } else if o.remote_only {
        ExecutionStrategy::RemoteOnly
    } else if o.prefer_local {
        ExecutionStrategy::HybridPreferLocal
    } else if o.prefer_remote {
        ExecutionStrategy::HybridPreferRemote
    } else if o.unstable_no_execution {
        ExecutionStrategy::NoExecution
    } else {
        ExecutionStrategy::Default
    }
}

/// The mutually exclusive strategy flags, gathered for specification.
#[derive(Debug, Clone, Copy, PartialEq, Eq, Structural)]
pub struct CommonBuildOptionsStrategyFlags {
    pub local_only: bool,
    pub remote_only: bool,
    pub prefer_local: bool,
    pub prefer_remote: bool,
    pub unstable_no_execution: bool,
}

impl CommonBuildOptions {
    /// The strategy flags of these options.
    pub open spec fn strategy_flags(&self) -> CommonBuildOptionsStrategyFlags {
        CommonBuildOptionsStrategyFlags {
            local_only: self.local_only,
            remote_only: self.remote_only,
            prefer_local: self.prefer_local,
            prefer_remote: self.prefer_remote,
            unstable_no_execution: self.unstable_no_execution,
        }
    }

    /// Whether a build report was requested, and to which file.
    pub fn build_report(&self) -> (r: (bool, String))
        ensures
            (r.0, r.1@) == build_report_spec(self.print_build_report, self.build_report.deep_view()),
    {
        match &self.build_report {
            Option::Some(path) => {
                if !path.eq(&String::from_str("-")) {
                    (true, path.clone())
                } else {
                    (true, String::new())
                }
            },
            Option::None => {
                if self.print_build_report {
                    (true, String::new())
                } else {
                    (false, String::new())
                }
            },
        }
    }

    /// Assemble the shape the daemon consumes: the report flags combined,
    /// the execution strategy selected by the first set flag, and the
    /// cache-write flag derived from the cache flags.
    pub fn to_proto(&self) -> (r: BuildOptionsMessage)
        ensures
            (r@.unstable_print_build_report, r@.unstable_build_report_filename)
                == build_report_spec(self.print_build_report, self.build_report.deep_view()),
            r@.unstable_include_failures_build_report == exists|i: int|
                0 <= i < self.build_report_options@.len()
                    && self.build_report_options@[i].fill_out_failures,
            r@.unstable_include_package_project_relative_paths == exists|i: int|
                0 <= i < self.build_report_options@.len()
                    && self.build_report_options@[i].include_package_project_relative_paths,
            r@.concurrency == match self.num_threads {
                Option::Some(n) => Option::Some(Concurrency { concurrency: n }),
                Option::None => Option::<Concurrency>::None,
            },
            r@.execution_strategy == execution_strategy_spec(self.strategy_flags()),
            r@.eager_dep_files == self.eager_dep_files,
            r@.upload_all_actions == self.upload_all_actions,
            r@.skip_cache_read == self.no_remote_cache,
            r@.skip_cache_write == (self.no_remote_cache && !self.write_to_cache_anyway),
            r@.fail_fast == self.fail_fast,
            r@.keep_going == self.keep_going,
            r@.skip_missing_targets == self.skip_missing_targets,
            r@.skip_incompatible_targets == self.skip_incompatible_targets,
            r@.materialize_failed_inputs == self.materialize_failed_inputs,
    {
        let (unstable_print_build_report, unstable_build_report_filename) = self.build_report();
        let mut include_failures = false;
        let mut include_paths = false;
        let mut i: usize = 0;
        while i < self.build_report_options.len()
            invariant
                i <= self.build_report_options.len(),
                include_failures == exists|k: int|
                    0 <= k < i && self.build_report_options@[k].fill_out_failures,
                include_paths == exists|k: int|
                    0 <= k < i && self.build_report_options@[k].include_package_project_relative_paths,
            decreases self.build_report_options.len() - i,
        {
            if self.build_report_options[i].fill_out_failures {
                include_failures = true;
            }
            if self.build_report_options[i].include_package_project_relative_paths {
                include_paths = true;
            }
            i += 1;
        }
        let concurrency = match self.num_threads {
            Option::Some(num) => Option::Some(Concurrency { concurrency: num }),
            Option::None => Option::None,
        };
        let execution_strategy = if self.local_only {
            ExecutionStrategy::LocalOnly
        } else if self.remote_only {
            ExecutionStrategy::RemoteOnly
        } else if self.prefer_local {
            ExecutionStrategy::HybridPreferLocal
        } else if self.prefer_remote {
            ExecutionStrategy::HybridPreferRemote
        } else if self.unstable_no_execution {
            ExecutionStrategy::NoExecution
        } else {
            ExecutionStrategy::Default
        };
        BuildOptionsMessage {
            concurrency,
            execution_strategy,
            unstable_print_build_report,
            unstable_build_report_filename,
            eager_dep_files: self.eager_dep_files,
            upload_all_actions: self.upload_all_actions,
            skip_cache_read: self.no_remote_cache,
            skip_cache_write: self.no_remote_cache && !self.write_to_cache_anyway,
            fail_fast: self.fail_fast,
            keep_going: self.keep_going,
            skip_missing_targets: self.skip_missing_targets,
            skip_incompatible_targets: self.skip_incompatible_targets,
            materialize_failed_inputs: self.materialize_failed_inputs,
            unstable_include_failures_build_report: include_failures,
            unstable_include_package_project_relative_paths: include_paths,
        }
    }
}

} // verus!
