use std::collections::HashSet;

use zig_bootstrap::layout::{plan_copies, StagedEntry, ToolchainLayout};

fn entry(name: &str, is_dir: bool) -> StagedEntry {
    StagedEntry {
        name: String::from(name),
        is_dir,
    }
}

#[test]
fn layout_paths_are_exact() {
    let layout = ToolchainLayout::new("/ws", "zig_toolchain", "x86_64-linux-musl");
    assert_eq!(layout.build_dir, "/ws/zig_toolchain/release");
    assert_eq!(layout.distribution_root, "/ws/zig_toolchain/dist");
    assert_eq!(
        layout.destination_dir,
        "/ws/zig_toolchain/dist/x86_64-linux-musl"
    );
}

#[test]
fn creation_plan_is_empty_when_destination_exists() {
    let layout = ToolchainLayout::new("/ws", "out", "t");
    assert!(layout.creation_plan(true, true).is_empty());
    assert!(layout.creation_plan(true, false).is_empty());
}

#[test]
fn creation_plan_creates_destination_when_root_exists() {
    let layout = ToolchainLayout::new("/ws", "out", "t");
    assert_eq!(layout.creation_plan(false, true), vec!["/ws/out/dist/t"]);
}

#[test]
fn creation_plan_creates_root_first_when_both_missing() {
    let layout = ToolchainLayout::new("/ws", "out", "t");
    assert_eq!(
        layout.creation_plan(false, false),
        vec!["/ws/out/dist", "/ws/out/dist/t"]
    );
}

#[test]
fn copy_plan_keeps_files_and_skips_directories() {
    let entries = vec![
        entry("zig-cc", false),
        entry("deps", true),
        entry("zig-ar", false),
        entry("incremental", true),
        entry("zig-objcopy", false),
    ];
    let names = plan_copies(&entries);
    assert_eq!(names, vec!["zig-cc", "zig-ar", "zig-objcopy"]);
}

#[test]
fn copy_plan_of_only_directories_is_empty() {
    let entries = vec![entry("deps", true), entry("build", true)];
    assert!(plan_copies(&entries).is_empty());
}

#[test]
fn copying_twice_leaves_the_same_file_set() {
    let entries = vec![
        entry("zig-cc", false),
        entry("deps", true),
        entry("zig-ar", false),
    ];
    // The destination already holds a stale file and one of the outputs.
    let mut destination: HashSet<String> = HashSet::new();
    destination.insert(String::from("stale-tool"));
    destination.insert(String::from("zig-ar"));

    let mut once = destination.clone();
    for name in plan_copies(&entries) {
        once.insert(name);
    }
    let mut twice = once.clone();
    for name in plan_copies(&entries) {
        twice.insert(name);
    }
    assert_eq!(once, twice);

    // Overwritten in place, stale files kept, directories never copied.
    let expected: HashSet<String> = ["stale-tool", "zig-ar", "zig-cc"]
        .iter()
        .map(|s| String::from(*s))
        .collect();
    assert_eq!(once, expected);
    assert!(!once.contains("deps"));
}
