use toolchain_pipeline::config::{common_prelude, CommonConfigData, LauncherConfig};
use toolchain_pipeline::layout::{
    active_data_dir, bin_ext, copy_data_dir, copy_failure, default_source_dir,
    error_catalog_file, exec_location, get_data_dir, get_exec_location, join_path, print_path,
    toolchain_dir, versioned_data_dir,
};
use toolchain_pipeline::outcome::{enclosed, joined, same_text, CommandError, InstallStepOutput};
use toolchain_pipeline::pipeline::{
    extract_and_validate_iso, get_end_of_logs, gpu_result_file, launch_game, log_dir_failure,
    open_repl,
    probe_targets, run_compiler, run_decompiler, run_game_gpu_test, run_tool,
    update_data_directory, DiskFacts, NextMove, Operation,
};
use toolchain_pipeline::steps::ToolMode;

const REINSTALL: &str = "Tooling appears to be missing critical files. This may be caused by antivirus software. You will need to redownload the version and try again.";

fn strings(items: &[&str]) -> Vec<String> {
    items.iter().map(|s| s.to_string()).collect()
}

fn snapshot() -> CommonConfigData {
    CommonConfigData {
        install_path: "/games".to_string(),
        active_version: "v0.1.34".to_string(),
        active_version_folder: "official".to_string(),
    }
}

fn config() -> LauncherConfig {
    LauncherConfig {
        installation_dir: Some("/games".to_string()),
        active_version: Some("v0.1.34".to_string()),
        active_version_folder: Some("official".to_string()),
    }
}

fn facts() -> DiskFacts {
    DiskFacts { windows: false, data_dir_exists: true, executable_exists: true, source_is_dir: false }
}

#[test]
fn executable_name_by_platform() {
    assert_eq!(bin_ext("extractor", true), "extractor.exe");
    assert_eq!(bin_ext("extractor", false), "extractor");
    assert_eq!(bin_ext("", true), ".exe");
}

#[test]
fn text_helpers() {
    assert_eq!(joined("ab", "cd"), "abcd");
    assert_eq!(enclosed("<", "x", ">"), "<x>");
    assert!(same_text("msg", "msg"));
    assert!(!same_text("msg", "Msg"));
    assert!(!same_text("msg", "msg "));
}

#[test]
fn layout_paths() {
    let c = snapshot();
    assert_eq!(toolchain_dir(&c), strings(&["/games", "versions", "official", "v0.1.34"]));
    assert_eq!(
        versioned_data_dir(&c),
        strings(&["/games", "versions", "official", "v0.1.34", "data"])
    );
    assert_eq!(active_data_dir(&c, "jak1"), strings(&["/games", "active", "jak1", "data"]));
    assert_eq!(
        error_catalog_file(&c, "jak1"),
        strings(&["/games", "active", "jak1", "data", "launcher", "error-code-metadata.json"])
    );
    assert_eq!(
        default_source_dir(&c, "jak2"),
        strings(&["/games", "active", "jak2", "data", "iso_data", "jak2"])
    );
}

#[test]
fn executable_location() {
    let c = snapshot();
    let loc = exec_location(&c, "gk", true);
    assert_eq!(loc.executable_dir, strings(&["/games", "versions", "official", "v0.1.34"]));
    assert_eq!(
        loc.executable_path,
        strings(&["/games", "versions", "official", "v0.1.34", "gk.exe"])
    );
    let found = get_exec_location(&c, "gk", false, true).unwrap();
    assert_eq!(found.executable_path, strings(&["/games", "versions", "official", "v0.1.34", "gk"]));
}

#[test]
fn missing_executable_names_the_path() {
    let err = get_exec_location(&snapshot(), "gk", false, false).unwrap_err();
    assert!(matches!(err, CommandError::BinaryExecution(_)));
    assert!(!err.is_installation_error());
    assert_eq!(
        err.message(),
        "Could not find the required binary '/games/versions/official/v0.1.34/gk', can't perform operation"
    );
    let err = get_exec_location(&snapshot(), "gk", true, false).unwrap_err();
    assert_eq!(
        err.message(),
        "Could not find the required binary '/games\\versions\\official\\v0.1.34\\gk.exe', can't perform operation"
    );
}

#[test]
fn mirror_goes_from_versioned_to_active() {
    let job = copy_data_dir(&snapshot(), "jak1");
    assert_eq!(job.src_dir, strings(&["/games", "versions", "official", "v0.1.34", "data"]));
    assert_eq!(job.dst_dir, strings(&["/games", "active", "jak1", "data"]));
}

#[test]
fn mirror_failure_wraps_the_cause() {
    let err = copy_failure("permission denied");
    assert!(err.is_installation_error());
    assert!(matches!(err, CommandError::Installation(_)));
    assert_eq!(err.message(), "Unable to copy data directory: 'permission denied'");
}

#[test]
fn missing_data_directory_without_refresh_fails_and_plans_nothing() {
    let err = get_data_dir(&snapshot(), "jak1", false, false, false)
        .unwrap_err();
    assert!(matches!(err, CommandError::BinaryExecution(_)));
    assert_eq!(
        err.message(),
        "Could not locate relevant data directory '/games/active/jak1/data', can't perform operation"
    );
}

#[test]
fn existing_data_directory_without_refresh_is_left_alone() {
    let dir = get_data_dir(&snapshot(), "jak1", false, false, true).unwrap();
    assert_eq!(dir.path, strings(&["/games", "active", "jak1", "data"]));
    assert!(dir.refresh.is_none());
}

#[test]
fn refresh_is_planned_whether_or_not_the_directory_exists() {
    for exists in [false, true] {
        let dir = get_data_dir(&snapshot(), "jak1", true, false, exists).unwrap();
        let job = dir.refresh.unwrap();
        assert_eq!(job.src_dir, strings(&["/games", "versions", "official", "v0.1.34", "data"]));
        assert_eq!(job.dst_dir, dir.path);
    }
}

#[test]
fn prelude_takes_the_snapshot() {
    let data = common_prelude(&config()).unwrap();
    assert_eq!(data.install_path, "/games");
    assert_eq!(data.active_version, "v0.1.34");
    assert_eq!(data.active_version_folder, "official");
}

#[test]
fn prelude_names_the_first_unset_setting() {
    let mut c = config();
    c.active_version_folder = None;
    assert_eq!(
        common_prelude(&c).unwrap_err().message(),
        "No active version folder set, can't perform operation"
    );
    c.active_version = None;
    assert_eq!(
        common_prelude(&c).unwrap_err().message(),
        "No active version set, can't perform operation"
    );
    c.installation_dir = None;
    let err = common_prelude(&c).unwrap_err();
    assert!(matches!(err, CommandError::BinaryExecution(_)));
    assert_eq!(err.message(), "No installation directory set, can't perform operation");
}

#[test]
fn step_output_constructors() {
    let ok = InstallStepOutput::succeeded();
    assert!(ok.success && ok.msg.is_none());
    let failed = InstallStepOutput::failed("why".to_string());
    assert!(!failed.success);
    assert_eq!(failed.msg, Some("why".to_string()));
}

#[test]
fn extract_plan_refreshes_then_runs() {
    let mut f = facts();
    f.data_dir_exists = false;
    let plan = extract_and_validate_iso(&config(), "/isos/jak1.iso", "jak1", &f).unwrap();
    let job = plan.refresh.unwrap();
    assert_eq!(job.dst_dir, strings(&["/games", "active", "jak1", "data"]));
    match plan.next {
        NextMove::Run(inv) => {
            assert_eq!(
                inv.program,
                strings(&["/games", "versions", "official", "v0.1.34", "extractor"])
            );
            assert_eq!(inv.working_dir, strings(&["/games", "versions", "official", "v0.1.34"]));
            assert_eq!(
                inv.args,
                strings(&[
                    "/isos/jak1.iso",
                    "--extract",
                    "--validate",
                    "--proj-path",
                    "/games/active/jak1/data"
                ])
            );
            let log = inv.log.unwrap();
            assert_eq!(log.name, "extractor.log");
            assert!(!log.append);
            assert!(inv.wait);
        }
        NextMove::Finish(_) => panic!("the extractor exists"),
    }
}

#[test]
fn extract_plan_from_directory_source() {
    let mut f = facts();
    f.source_is_dir = true;
    f.windows = true;
    let plan = extract_and_validate_iso(&config(), "/isos/jak1", "jak1", &f).unwrap();
    match plan.next {
        NextMove::Run(inv) => {
            assert_eq!(inv.args.last().unwrap(), "--folder");
            assert_eq!(inv.args.len(), 6);
            assert_eq!(inv.program.last().unwrap(), "extractor.exe");
        }
        NextMove::Finish(_) => panic!("the extractor exists"),
    }
}

#[test]
fn extract_plan_without_executable_still_refreshes() {
    let mut f = facts();
    f.executable_exists = false;
    let plan = extract_and_validate_iso(&config(), "/isos/jak1.iso", "jak1", &f).unwrap();
    assert!(plan.refresh.is_some());
    match plan.next {
        NextMove::Finish(out) => {
            assert!(!out.success);
            assert_eq!(out.msg, Some(REINSTALL.to_string()));
        }
        NextMove::Run(_) => panic!("nothing can be run"),
    }
}

#[test]
fn extract_plan_needs_complete_configuration() {
    let mut c = config();
    c.installation_dir = None;
    let err = extract_and_validate_iso(&c, "/isos/jak1.iso", "jak1", &facts()).unwrap_err();
    assert_eq!(err.message(), "No installation directory set, can't perform operation");
}

#[test]
fn decompile_plan_defaults_source_and_appends() {
    let plan = run_decompiler(&config(), "", "jak1", false, &facts()).unwrap();
    assert!(plan.refresh.is_none());
    match plan.next {
        NextMove::Run(inv) => {
            assert_eq!(
                inv.args,
                strings(&[
                    "/games/active/jak1/data/iso_data/jak1",
                    "--decompile",
                    "--proj-path",
                    "/games/active/jak1/data"
                ])
            );
            let log = inv.log.unwrap();
            assert_eq!(log.name, "extractor.log");
            assert!(log.append);
            assert!(inv.wait);
        }
        NextMove::Finish(_) => panic!("the extractor exists"),
    }
}

#[test]
fn compile_plan_with_source_and_truncation() {
    let plan = run_compiler(&config(), "/given", "jak1", true, &facts()).unwrap();
    assert!(plan.refresh.is_none());
    match plan.next {
        NextMove::Run(inv) => {
            assert_eq!(
                inv.args,
                strings(&["/given", "--compile", "--proj-path", "/games/active/jak1/data"])
            );
            assert!(!inv.log.unwrap().append);
        }
        NextMove::Finish(_) => panic!("the extractor exists"),
    }
}

#[test]
fn tool_plan_needs_the_data_directory() {
    let mut f = facts();
    f.data_dir_exists = false;
    for mode in [ToolMode::Decompile, ToolMode::Compile] {
        let err = run_tool(&config(), "", "jak1", false, mode, &f).unwrap_err();
        assert_eq!(
            err.message(),
            "Could not locate relevant data directory '/games/active/jak1/data', can't perform operation"
        );
    }
}

#[test]
fn tool_plan_without_executable_reports_missing_tooling() {
    let mut f = facts();
    f.executable_exists = false;
    let plan = run_tool(&config(), "", "jak1", false, ToolMode::Compile, &f).unwrap();
    match plan.next {
        NextMove::Finish(out) => assert_eq!(out.msg, Some(REINSTALL.to_string())),
        NextMove::Run(_) => panic!("nothing can be run"),
    }
}

#[test]
fn launch_plan_for_legacy_version() {
    let inv = launch_game(&config(), "jak1", true, &facts()).unwrap();
    assert_eq!(inv.program, strings(&["/games", "versions", "official", "v0.1.34", "gk"]));
    assert_eq!(
        inv.args,
        strings(&["-boot", "-fakeiso", "-proj-path", "/games/active/jak1/data", "-debug"])
    );
    let log = inv.log.unwrap();
    assert_eq!(log.name, "game.log");
    assert!(!log.append);
    assert!(!inv.wait);
}

#[test]
fn launch_plan_for_current_and_unreadable_versions() {
    for version in ["v0.1.35", "0.2.0", "latest"] {
        let mut c = config();
        c.active_version = Some(version.to_string());
        let inv = launch_game(&c, "jak1", false, &facts()).unwrap();
        assert_eq!(
            inv.args,
            strings(&[
                "-v",
                "--game",
                "jak1",
                "--proj-path",
                "/games/active/jak1/data",
                "--",
                "-boot",
                "-fakeiso"
            ])
        );
        assert_eq!(inv.working_dir, strings(&["/games", "versions", "official", version]));
    }
}

#[test]
fn launch_plan_failures_in_order() {
    let mut f = facts();
    f.executable_exists = false;
    let err = launch_game(&config(), "jak1", false, &f).unwrap_err();
    assert_eq!(
        err.message(),
        "Could not find the required binary '/games/versions/official/v0.1.34/gk', can't perform operation"
    );
    f.data_dir_exists = false;
    let err = launch_game(&config(), "jak1", false, &f).unwrap_err();
    assert_eq!(
        err.message(),
        "Could not locate relevant data directory '/games/active/jak1/data', can't perform operation"
    );
    let mut c = config();
    c.active_version = None;
    let err = launch_game(&c, "jak1", false, &f).unwrap_err();
    assert_eq!(err.message(), "No active version set, can't perform operation");
}

#[test]
fn repl_plan_opens_a_console() {
    let mut f = facts();
    f.windows = true;
    let inv = open_repl(&config(), "jak1", &f).unwrap();
    assert_eq!(inv.program, strings(&["cmd"]));
    assert_eq!(inv.working_dir, strings(&["/games", "versions", "official", "v0.1.34"]));
    assert_eq!(
        inv.args,
        strings(&["/K", "start", "goalc.exe", "--proj-path", "/games\\active\\jak1\\data"])
    );
    assert!(inv.log.is_none());
    assert!(!inv.wait);
    f.executable_exists = false;
    assert_eq!(
        open_repl(&config(), "jak1", &f).unwrap_err().message(),
        "Could not find the required binary '/games\\versions\\official\\v0.1.34\\goalc.exe', can't perform operation"
    );
}

#[test]
fn gpu_probe_plan() {
    let inv = run_game_gpu_test(&config(), Some("/app/gpu-test-result.json"), &facts()).unwrap();
    assert_eq!(inv.program, strings(&["/games", "versions", "official", "v0.1.34", "gk"]));
    assert_eq!(
        inv.args,
        strings(&["-v", "--gpu-test", "opengl", "--gpu-test-out-path", "/app/gpu-test-result.json"])
    );
    assert!(inv.log.is_none());
    assert!(inv.wait);
}

#[test]
fn gpu_probe_plan_failures() {
    let err = run_game_gpu_test(&config(), None, &facts()).unwrap_err();
    assert_eq!(err.message(), "Could not determine path to save GPU test results");
    let mut f = facts();
    f.executable_exists = false;
    let err = run_game_gpu_test(&config(), None, &f).unwrap_err();
    assert_eq!(
        err.message(),
        "Could not find the required binary '/games/versions/official/v0.1.34/gk', can't perform operation"
    );
    let mut c = config();
    c.active_version_folder = None;
    let err = run_game_gpu_test(&c, Some("/x"), &f).unwrap_err();
    assert_eq!(err.message(), "No active version folder set, can't perform operation");
}

#[test]
fn data_directory_update_plan() {
    let job = update_data_directory(&config(), "jak2").unwrap();
    assert_eq!(job.src_dir, strings(&["/games", "versions", "official", "v0.1.34", "data"]));
    assert_eq!(job.dst_dir, strings(&["/games", "active", "jak2", "data"]));
    let mut c = config();
    c.installation_dir = None;
    assert!(update_data_directory(&c, "jak2").is_err());
}

#[test]
fn probe_targets_by_operation() {
    let c = snapshot();
    for (operation, name) in [
        (Operation::Extract, "extractor"),
        (Operation::Decompile, "extractor"),
        (Operation::Compile, "extractor"),
        (Operation::Launch, "gk"),
        (Operation::Repl, "goalc"),
        (Operation::GpuTest, "gk"),
    ] {
        let targets = probe_targets(&c, "jak1", operation, false);
        assert_eq!(targets.data_dir, strings(&["/games", "active", "jak1", "data"]));
        assert_eq!(
            targets.executable,
            strings(&["/games", "versions", "official", "v0.1.34", name])
        );
        assert_eq!(
            targets.default_source,
            strings(&["/games", "active", "jak1", "data", "iso_data", "jak1"])
        );
    }
    let targets = probe_targets(&c, "jak1", Operation::Launch, true);
    assert_eq!(targets.executable.last().unwrap(), "gk.exe");
}

#[test]
fn log_tail_and_result_file_names() {
    let tail = get_end_of_logs();
    assert_eq!(tail.name, "extractor.log");
    assert_eq!(tail.lines, 250);
    assert_eq!(gpu_result_file(), "gpu-test-result.json");
    let err = log_dir_failure();
    assert!(err.is_installation_error());
    assert_eq!(err.message(), "Could not determine path to save installation logs");
}

#[test]
fn paths_are_printed_with_the_platform_separator() {
    let parts = strings(&["/games", "active", "jak1", "data"]);
    assert_eq!(print_path(&parts, false), "/games/active/jak1/data");
    assert_eq!(print_path(&parts, true), "/games\\active\\jak1\\data");
    let parts = strings(&["C:\\games", "versions", "official", "v0.1.34", "gk.exe"]);
    assert_eq!(print_path(&parts, true), "C:\\games\\versions\\official\\v0.1.34\\gk.exe");
    assert_eq!(print_path(&strings(&[]), false), "");
    assert_eq!(print_path(&strings(&["only"]), false), "only");
}

#[test]
fn no_separator_is_doubled_or_put_first() {
    assert_eq!(print_path(&strings(&["/games/", "active"]), false), "/games/active");
    assert_eq!(print_path(&strings(&["C:\\", "games"]), true), "C:\\games");
    assert_eq!(print_path(&strings(&["C:/games/", "active"]), true), "C:/games/active");
    assert_eq!(print_path(&strings(&["a\\", "b"]), false), "a\\/b");
    assert_eq!(print_path(&strings(&["", "active"]), false), "active");
    assert_eq!(print_path(&strings(&["/", "active"]), false), "/active");
    assert_eq!(print_path(&strings(&["a", "", "b"]), false), "a/b");
    assert_eq!(join_path("a".to_string(), "b", false), "a/b");
    assert_eq!(join_path("a".to_string(), "b", true), "a\\b");
    assert_eq!(join_path("".to_string(), "b", true), "b");
    assert_eq!(join_path("a/".to_string(), "", false), "a/");
}

#[test]
fn printed_paths_agree_with_the_standard_library_on_this_platform() {
    let windows = std::path::MAIN_SEPARATOR == '\\';
    for parts in [
        strings(&["/games", "active", "jak1", "data"]),
        strings(&["/games/", "versions", "official", "v0.1.34", "extractor"]),
        strings(&["relative", "dir", "file.json"]),
        strings(&["", "active"]),
        strings(&["/", "active", "x"]),
        strings(&["a", "", "b"]),
    ] {
        let expected: std::path::PathBuf = parts.iter().collect();
        assert_eq!(print_path(&parts, windows), expected.to_string_lossy(), "{parts:?}");
    }
}

#[test]
fn plans_print_the_paths_of_the_game_they_are_for() {
    let plan = run_decompiler(&config(), "", "jak2", false, &facts()).unwrap();
    match plan.next {
        NextMove::Run(inv) => assert_eq!(
            inv.args,
            strings(&[
                "/games/active/jak2/data/iso_data/jak2",
                "--decompile",
                "--proj-path",
                "/games/active/jak2/data"
            ])
        ),
        NextMove::Finish(_) => panic!("the extractor exists"),
    }
    let mut f = facts();
    f.data_dir_exists = false;
    f.windows = true;
    let err = run_compiler(&config(), "", "jak3", false, &f).unwrap_err();
    assert_eq!(
        err.message(),
        "Could not locate relevant data directory '/games\\active\\jak3\\data', can't perform operation"
    );
}
