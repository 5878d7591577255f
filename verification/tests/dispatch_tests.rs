use zig_bootstrap::dispatch::{
    child_exit_code, relay_plan, ChildOutcome, DispatchRequest, ToolRole,
};

fn strings(items: &[&str]) -> Vec<String> {
    items.iter().map(|s| String::from(*s)).collect()
}

#[test]
fn archiver_forwards_without_target_flag() {
    let request = DispatchRequest {
        role: ToolRole::Archiver,
        supplied_arguments: strings(&["rcs", "lib.a", "o1.o", "o2.o"]),
        embedded_triple: String::from("x86_64-linux-musl"),
    };
    assert_eq!(
        request.assemble_arguments(),
        strings(&["ar", "rcs", "lib.a", "o1.o", "o2.o"])
    );
}

#[test]
fn c_compiler_appends_target_flag_pair() {
    let request = DispatchRequest {
        role: ToolRole::CCompiler,
        supplied_arguments: strings(&["-c", "f.c", "-o", "f.o"]),
        embedded_triple: String::from("x86_64-linux-musl"),
    };
    assert_eq!(
        request.assemble_arguments(),
        strings(&["cc", "-c", "f.c", "-o", "f.o", "-target", "x86_64-linux-musl"])
    );
}

#[test]
fn object_copy_forwards_without_target_flag() {
    let request = DispatchRequest {
        role: ToolRole::ObjectCopy,
        supplied_arguments: strings(&["in.o", "out.bin"]),
        embedded_triple: String::from("aarch64-macos-none"),
    };
    assert_eq!(
        request.assemble_arguments(),
        strings(&["objcopy", "in.o", "out.bin"])
    );
}

#[test]
fn cpp_compiler_and_resource_compiler_need_the_flag() {
    let request = DispatchRequest {
        role: ToolRole::CppCompiler,
        supplied_arguments: strings(&[]),
        embedded_triple: String::from("aarch64-windows-gnu"),
    };
    assert_eq!(
        request.assemble_arguments(),
        strings(&["c++", "-target", "aarch64-windows-gnu"])
    );
    let request = DispatchRequest {
        role: ToolRole::ResourceCompiler,
        supplied_arguments: strings(&["app.rc"]),
        embedded_triple: String::from("aarch64-windows-gnu"),
    };
    assert_eq!(
        request.assemble_arguments(),
        strings(&["rc", "app.rc", "-target", "aarch64-windows-gnu"])
    );
}

#[test]
fn child_exit_code_42_is_propagated() {
    assert_eq!(child_exit_code(false, Some(42)), 42);
}

#[test]
fn dispatcher_exits_with_childs_code() {
    let plan = relay_plan(ChildOutcome {
        success: false,
        code: Some(42),
        stdout: b"out".to_vec(),
        stderr: b"err".to_vec(),
    });
    assert_eq!(plan.exit_code, 42);
    assert!(plan.to_stderr);
    assert_eq!(plan.output, b"err".to_vec());
}

#[test]
fn successful_child_relays_stdout_and_exits_zero() {
    let plan = relay_plan(ChildOutcome {
        success: true,
        code: Some(0),
        stdout: b"compiled fine\n".to_vec(),
        stderr: Vec::new(),
    });
    assert_eq!(plan.exit_code, 0);
    assert!(!plan.to_stderr);
    assert_eq!(plan.output, b"compiled fine\n".to_vec());
}

#[test]
fn missing_exit_code_falls_back_to_one() {
    assert_eq!(child_exit_code(false, None), 1);
    let plan = relay_plan(ChildOutcome {
        success: false,
        code: None,
        stdout: Vec::new(),
        stderr: b"killed".to_vec(),
    });
    assert_eq!(plan.exit_code, 1);
}

#[test]
fn out_of_range_exit_code_is_truncated() {
    // An i32 code outside 0..=255 keeps only its low byte, as a process
    // exit status does.
    assert_eq!(child_exit_code(false, Some(300)), 44);
    assert_eq!(child_exit_code(false, Some(256)), 0);
}

#[test]
fn binary_identity_selects_the_role() {
    assert_eq!(
        ToolRole::from_program_name("zig-cc"),
        Some(ToolRole::CCompiler)
    );
    assert_eq!(
        ToolRole::from_program_name("zig-c++"),
        Some(ToolRole::CppCompiler)
    );
    assert_eq!(
        ToolRole::from_program_name("zig-ar"),
        Some(ToolRole::Archiver)
    );
    assert_eq!(
        ToolRole::from_program_name("zig-objcopy"),
        Some(ToolRole::ObjectCopy)
    );
    assert_eq!(
        ToolRole::from_program_name("zig-rc"),
        Some(ToolRole::ResourceCompiler)
    );
    assert_eq!(ToolRole::from_program_name("zig"), None);
    assert_eq!(ToolRole::from_program_name("bootstrap"), None);
}

#[test]
fn role_configuration_is_data() {
    assert_eq!(ToolRole::CCompiler.subcommand(), "cc");
    assert_eq!(ToolRole::CppCompiler.subcommand(), "c++");
    assert_eq!(ToolRole::Archiver.subcommand(), "ar");
    assert_eq!(ToolRole::ObjectCopy.subcommand(), "objcopy");
    assert_eq!(ToolRole::ResourceCompiler.subcommand(), "rc");
    assert!(ToolRole::CCompiler.needs_target_flag());
    assert!(ToolRole::CppCompiler.needs_target_flag());
    assert!(!ToolRole::Archiver.needs_target_flag());
    assert!(!ToolRole::ObjectCopy.needs_target_flag());
    assert!(ToolRole::ResourceCompiler.needs_target_flag());
}
