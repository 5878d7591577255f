use zig_bootstrap::error::TripleError;
use zig_bootstrap::triple::{Abi, Arch, Os, ZigTriple};

fn expect_native(input: &str, native: &str) {
    let (zig, rust) = ZigTriple::new(input).unwrap();
    assert_eq!(rust.str(), native);
    let _ = zig;
}

#[test]
fn canonical_triples_map_to_expected_native_strings() {
    expect_native("x86-windows-gnu", "i686-pc-windows-gnu");
    expect_native("x86_64-windows-gnu", "x86_64-pc-windows-gnu");
    expect_native("aarch64-windows-gnu", "aarch64-pc-windows-gnullvm");
    expect_native("x86_64-macos-none", "x86_64-apple-darwin");
    expect_native("aarch64-macos-none", "aarch64-apple-darwin");
    expect_native("x86-linux-gnu", "i686-unknown-linux-gnu");
    expect_native("x86_64-linux-gnu", "x86_64-unknown-linux-gnu");
    expect_native("arm-linux-gnu", "arm-unknown-linux-gnu");
    expect_native("aarch64-linux-gnu", "aarch64-unknown-linux-gnu");
    expect_native("x86-linux-musl", "i686-unknown-linux-musl");
    expect_native("x86_64-linux-musl", "x86_64-unknown-linux-musl");
    expect_native("arm-linux-musl", "arm-unknown-linux-musl");
    expect_native("aarch64-linux-musl", "aarch64-unknown-linux-musl");
}

#[test]
fn parsing_returns_the_table_pairing() {
    let (zig, _) = ZigTriple::new("x86_64-linux-gnu").unwrap();
    assert_eq!(zig.arch, Arch::X64);
    assert_eq!(zig.os, Os::Linux);
    assert_eq!(zig.abi, Abi::Gnu);
    assert_eq!(zig.str(), "x86_64-linux-gnu");
}

#[test]
fn two_piece_macos_defaults_to_none_abi() {
    let (zig, rust) = ZigTriple::new("aarch64-macos").unwrap();
    assert_eq!(zig.abi, Abi::NoneAbi);
    assert_eq!(zig.str(), "aarch64-macos-none");
    assert_eq!(rust.str(), "aarch64-apple-darwin");
}

#[test]
fn two_piece_linux_defaults_to_musl_abi() {
    let (zig, rust) = ZigTriple::new("x86_64-linux").unwrap();
    assert_eq!(zig.abi, Abi::Musl);
    assert_eq!(zig.str(), "x86_64-linux-musl");
    assert_eq!(rust.str(), "x86_64-unknown-linux-musl");
}

#[test]
fn two_piece_windows_defaults_to_gnu_abi() {
    let (zig, rust) = ZigTriple::new("x86_64-windows").unwrap();
    assert_eq!(zig.abi, Abi::Gnu);
    assert_eq!(zig.str(), "x86_64-windows-gnu");
    assert_eq!(rust.str(), "x86_64-pc-windows-gnu");
}

#[test]
fn four_piece_vendor_style_input_is_rejected() {
    let err = ZigTriple::new("x86_64-pc-windows-gnu").unwrap_err();
    assert_eq!(err, TripleError::IncorrectTripleFormat);
}

#[test]
fn one_piece_and_empty_inputs_are_rejected() {
    assert_eq!(
        ZigTriple::new("x86_64").unwrap_err(),
        TripleError::IncorrectTripleFormat
    );
    assert_eq!(
        ZigTriple::new("").unwrap_err(),
        TripleError::IncorrectTripleFormat
    );
}

#[test]
fn five_piece_input_is_rejected() {
    assert_eq!(
        ZigTriple::new("a-b-c-d-e").unwrap_err(),
        TripleError::IncorrectTripleFormat
    );
}

#[test]
fn valid_but_unsupported_combination_is_disallowed() {
    let err = ZigTriple::new("arm-macos-none").unwrap_err();
    assert_eq!(err, TripleError::DisallowedTriple);
}

#[test]
fn another_unsupported_combination_is_disallowed() {
    assert_eq!(
        ZigTriple::new("arm-windows-gnu").unwrap_err(),
        TripleError::DisallowedTriple
    );
    assert_eq!(
        ZigTriple::new("x86-macos-none").unwrap_err(),
        TripleError::DisallowedTriple
    );
}

#[test]
fn unknown_architecture_token_is_named_exactly() {
    let err = ZigTriple::new("riscv-linux-gnu").unwrap_err();
    assert_eq!(
        err,
        TripleError::UnrecognizedArchitecture(String::from("riscv"))
    );
}

#[test]
fn unknown_os_token_is_named_exactly() {
    let err = ZigTriple::new("x86_64-freebsd-gnu").unwrap_err();
    assert_eq!(err, TripleError::UnrecognizedOS(String::from("freebsd")));
}

#[test]
fn unknown_abi_token_is_named_exactly() {
    let err = ZigTriple::new("x86_64-linux-msvc").unwrap_err();
    assert_eq!(err, TripleError::UnrecognizedAbi(String::from("msvc")));
}

#[test]
fn unknown_tokens_in_two_piece_input_are_named() {
    assert_eq!(
        ZigTriple::new("riscv-linux").unwrap_err(),
        TripleError::UnrecognizedArchitecture(String::from("riscv"))
    );
    assert_eq!(
        ZigTriple::new("x86_64-solaris").unwrap_err(),
        TripleError::UnrecognizedOS(String::from("solaris"))
    );
}

#[test]
fn architecture_errors_take_precedence_over_later_fields() {
    assert_eq!(
        ZigTriple::new("riscv-foo-bar").unwrap_err(),
        TripleError::UnrecognizedArchitecture(String::from("riscv"))
    );
    assert_eq!(
        ZigTriple::new("x86_64-foo-bar").unwrap_err(),
        TripleError::UnrecognizedOS(String::from("foo"))
    );
}

#[test]
fn rustup_style_os_name_is_not_recognized() {
    assert_eq!(
        ZigTriple::new("aarch64-apple-darwin").unwrap_err(),
        TripleError::UnrecognizedOS(String::from("apple"))
    );
}

#[test]
fn native_runs_the_same_pipeline() {
    let (zig, rust) = ZigTriple::native("x86_64-linux-musl").unwrap();
    assert_eq!(zig.str(), "x86_64-linux-musl");
    assert_eq!(rust.str(), "x86_64-unknown-linux-musl");
}

#[test]
fn field_parsers_accept_their_vocabularies() {
    assert_eq!(Arch::new("x86").unwrap(), Arch::X86);
    assert_eq!(Arch::new("x86_64").unwrap(), Arch::X64);
    assert_eq!(Arch::new("arm").unwrap(), Arch::Arm);
    assert_eq!(Arch::new("aarch64").unwrap(), Arch::Aarch64);
    assert_eq!(Os::from_zig("linux").unwrap(), Os::Linux);
    assert_eq!(Os::from_zig("macos").unwrap(), Os::MacOS);
    assert_eq!(Os::from_zig("windows").unwrap(), Os::Windows);
    assert_eq!(Abi::new("gnu").unwrap(), Abi::Gnu);
    assert_eq!(Abi::new("musl").unwrap(), Abi::Musl);
    assert_eq!(Abi::new("none").unwrap(), Abi::NoneAbi);
}

#[test]
fn field_parsers_name_the_offending_token() {
    assert_eq!(
        Arch::new("mips").unwrap_err(),
        TripleError::UnrecognizedArchitecture(String::from("mips"))
    );
    assert_eq!(
        Os::from_zig("haiku").unwrap_err(),
        TripleError::UnrecognizedOS(String::from("haiku"))
    );
    assert_eq!(
        Abi::new("eabi").unwrap_err(),
        TripleError::UnrecognizedAbi(String::from("eabi"))
    );
}

#[test]
fn names_are_case_sensitive() {
    assert_eq!(
        ZigTriple::new("X86_64-linux-gnu").unwrap_err(),
        TripleError::UnrecognizedArchitecture(String::from("X86_64"))
    );
}
