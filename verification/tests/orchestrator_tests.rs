use zig_bootstrap::error::{BuildError, TripleError};
use zig_bootstrap::orchestrator::{
    interpret_child_result, is_terminal_stage, next_stage, resolve_target, BuildInvocation,
    BuildStage, CargoRunner,
};
use zig_bootstrap::triple::ZigTriple;

#[test]
fn explicit_cli_triple_is_preferred_over_the_host() {
    let (zig, _) = resolve_target("aarch64-macos", "x86_64-linux-musl").unwrap();
    assert_eq!(zig.str(), "aarch64-macos-none");
    let (zig, _) = resolve_target("", "x86_64-linux-musl").unwrap();
    assert_eq!(zig.str(), "x86_64-linux-musl");
    let err = resolve_target("riscv-linux", "x86_64-linux-musl").unwrap_err();
    assert_eq!(
        err,
        TripleError::UnrecognizedArchitecture(String::from("riscv"))
    );
}

#[test]
fn passthrough_build_command_is_exact() {
    let runner = CargoRunner::new("/usr/bin/cargo", "zig_toolchain");
    let (zig, _) = ZigTriple::new("x86_64-linux-musl").unwrap();
    let command = runner.build("/ws", &BuildInvocation::Passthrough { target: zig });
    assert_eq!(command.program, "/usr/bin/cargo");
    assert_eq!(command.current_dir, "/ws");
    assert_eq!(command.env.len(), 1);
    assert_eq!(command.env[0].name, "ZIG_TRIPLE");
    assert_eq!(command.env[0].value, "x86_64-linux-musl");
    assert_eq!(
        command.args,
        vec![
            "build",
            "-p",
            "zig_passthrough",
            "--release",
            "--target-dir",
            "zig_toolchain"
        ]
    );
}

#[test]
fn cross_build_command_is_exact() {
    let runner = CargoRunner::new("/usr/bin/cargo", "zig_toolchain");
    let (_, rust) = ZigTriple::new("aarch64-windows-gnu").unwrap();
    let command = runner.build(
        "/ws",
        &BuildInvocation::CrossProject {
            rust_target: rust,
            destination_dir: String::from("/ws/zig_toolchain/dist/aarch64-windows-gnu"),
        },
    );
    assert_eq!(command.program, "/usr/bin/cargo");
    assert_eq!(command.current_dir, "/ws");
    assert_eq!(command.env.len(), 2);
    assert_eq!(command.env[0].name, "CMAKE_TOOLCHAIN_FILE");
    assert_eq!(command.env[0].value, "/ws/toolchain.cmake");
    assert_eq!(command.env[1].name, "TOOLCHAIN_DIR");
    assert_eq!(
        command.env[1].value,
        "/ws/zig_toolchain/dist/aarch64-windows-gnu"
    );
    assert_eq!(
        command.args,
        vec![
            "build",
            "-p",
            "simba",
            "--release",
            "--target",
            "aarch64-pc-windows-gnullvm"
        ]
    );
}

#[test]
fn init_directories_computes_layout_and_plan() {
    let runner = CargoRunner::new("cargo", "zig_toolchain");
    let (layout, plan) = runner.init_directories("/ws", "x86_64-linux-musl", false, false);
    assert_eq!(
        layout.destination_dir,
        "/ws/zig_toolchain/dist/x86_64-linux-musl"
    );
    assert_eq!(
        plan,
        vec![
            "/ws/zig_toolchain/dist",
            "/ws/zig_toolchain/dist/x86_64-linux-musl"
        ]
    );
    let (_, nothing) = runner.init_directories("/ws", "x86_64-linux-musl", true, false);
    assert!(nothing.is_empty());
}

#[test]
fn stages_advance_in_order_on_success() {
    let mut stage = BuildStage::Start;
    let expected = [
        BuildStage::ResolveTarget,
        BuildStage::BuildPassthroughToolchain,
        BuildStage::StageToolchainArtifacts,
        BuildStage::CrossBuildProject,
        BuildStage::Done,
    ];
    for next in expected {
        assert!(!is_terminal_stage(&stage));
        stage = next_stage(&stage, true);
        assert_eq!(stage, next);
    }
    assert!(is_terminal_stage(&stage));
    assert_eq!(next_stage(&stage, true), BuildStage::Done);
}

#[test]
fn any_failing_stage_is_fatal() {
    for stage in [
        BuildStage::Start,
        BuildStage::ResolveTarget,
        BuildStage::BuildPassthroughToolchain,
        BuildStage::StageToolchainArtifacts,
        BuildStage::CrossBuildProject,
    ] {
        assert_eq!(next_stage(&stage, false), BuildStage::Failed);
    }
    assert!(is_terminal_stage(&BuildStage::Failed));
    assert_eq!(next_stage(&BuildStage::Failed, true), BuildStage::Failed);
}

#[test]
fn child_results_map_to_build_errors() {
    assert!(interpret_child_result(true, true, Some(0)).is_ok());
    assert_eq!(
        interpret_child_result(false, false, None).unwrap_err(),
        BuildError::ChildSpawnFailure
    );
    assert_eq!(
        interpret_child_result(true, false, Some(101)).unwrap_err(),
        BuildError::ChildProcessFailure(101)
    );
    assert_eq!(
        interpret_child_result(true, false, None).unwrap_err(),
        BuildError::ChildProcessFailure(1)
    );
}

#[test]
fn format_diagnostics_explain_the_vendor_style_rejection() {
    let err = ZigTriple::new("x86_64-pc-windows-gnu").unwrap_err();
    assert_eq!(err, TripleError::IncorrectTripleFormat);
    let lines = err.diagnostic_lines("x86_64-pc-windows-gnu");
    assert_eq!(
        lines,
        vec![
            "The bootstrapper expects a target triple in the form of arch-os-abi or arch-os.",
            "The presence of 'pc' in 'x86_64-pc-windows-gnu' implies usage of the rustup format.",
            "Please use the zig style triple.",
            "The bootstrapper will handle translation for rust.",
        ]
    );
}

#[test]
fn short_input_diagnostics_ask_for_arch_and_os() {
    let err = ZigTriple::new("x86_64").unwrap_err();
    let lines = err.diagnostic_lines("x86_64");
    assert_eq!(
        lines,
        vec!["target 'x86_64' must have at least an arch and OS tag."]
    );
}

#[test]
fn token_diagnostics_name_the_token() {
    let err = ZigTriple::new("riscv-linux-gnu").unwrap_err();
    let lines = err.diagnostic_lines("riscv-linux-gnu");
    assert_eq!(lines, vec!["Unrecognized Arch in triple: riscv"]);

    let err = ZigTriple::new("aarch64-apple-darwin").unwrap_err();
    let lines = err.diagnostic_lines("aarch64-apple-darwin");
    assert_eq!(lines.len(), 2);
    assert_eq!(lines[0], "Unrecognized OS in triple: apple");

    let err = ZigTriple::new("arm-macos-none").unwrap_err();
    let lines = err.diagnostic_lines("arm-macos-none");
    assert_eq!(
        lines,
        vec!["Valid but disallowed triple encountered: arm-macos-none"]
    );
}
