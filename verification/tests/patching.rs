use nix_fix_rustup::command::{CommandLine, CommandOutput, RunOutcome};
use nix_fix_rustup::error::Error;
use nix_fix_rustup::fsmeta::{FileMeta, FileType};
use nix_fix_rustup::nix::{
    apply, patch_toolchain, patch_toolchain_with_options, plan_entry, validate_toolchain,
    DirListing, EntryEvent, NixObservations, PatchAction, ToolchainObs,
};

fn ran(code: i32) -> RunOutcome {
    RunOutcome::Ran {
        output: CommandOutput { code: Some(code), stdout: Vec::new(), stderr: Vec::new() },
    }
}

fn exec_meta() -> Option<FileMeta> {
    Some(FileMeta { file_type: FileType::Regular, mode: 0o755 })
}

fn plain_meta() -> Option<FileMeta> {
    Some(FileMeta { file_type: FileType::Regular, mode: 0o644 })
}

fn found(path: &str, meta: Option<FileMeta>) -> EntryEvent {
    EntryEvent::Found { path: path.to_owned(), file_type: FileType::Regular, meta }
}

fn interpreter_action() -> PatchAction {
    PatchAction::SetInterpreter {
        patchelf: "/opt/patchelf/bin/patchelf".to_owned(),
        linker: "/lib/ld-linux.so.2".to_owned(),
    }
}

fn rpath_action() -> PatchAction {
    PatchAction::SetRpath {
        patchelf: "/opt/patchelf/bin/patchelf".to_owned(),
        rpath: "$ORIGIN/../lib:/nix/store/zlib/lib".to_owned(),
    }
}

fn words(c: &CommandLine) -> Vec<String> {
    let mut w = vec![c.program.clone()];
    for a in &c.args {
        w.push(a.clone());
    }
    w
}

#[test]
fn toolchain_validation_rejects_missing_lib() {
    // A root whose `lib` is not a directory fails as a whole, and no
    // subprocess is planned at all.
    let obs = ToolchainObs {
        root: "/toolchain".to_owned(),
        root_is_dir: true,
        bin_is_dir: true,
        lib_is_dir: false,
        bin_listing: DirListing::Opened { entries: vec![found("/toolchain/bin/rustc", exec_meta())] },
        lib_listing: DirListing::Opened { entries: Vec::new() },
    };
    let outcomes = vec![ran(0)];
    let mut invocations: Vec<CommandLine> = Vec::new();
    let r = patch_toolchain_with_options(
        &obs,
        &"/opt/patchelf/bin/patchelf".to_owned(),
        &"/lib/ld-linux.so.2".to_owned(),
        &"$ORIGIN/../lib:/nix/store/zlib/lib".to_owned(),
        &outcomes,
        &mut invocations,
    );
    match r {
        Err(Error::InvalidToolchainPath { path }) => assert_eq!(path, "/toolchain"),
        other => panic!("expected InvalidToolchainPath, got {:?}", other),
    }
    assert_eq!(invocations.len(), 0);
}

#[test]
fn toolchain_validation_rejects_non_directory_root() {
    let r = validate_toolchain(&"/missing".to_owned(), false, false, false);
    assert!(matches!(r, Err(Error::InvalidToolchainPath { .. })));
    let ok = validate_toolchain(&"/toolchain".to_owned(), true, true, true);
    assert!(ok.is_ok());
}

#[test]
fn bin_pass_patches_only_executables() {
    // Two regular files; only the executable one gets --set-interpreter.
    let action = interpreter_action();
    let listing = DirListing::Opened {
        entries: vec![found("/t/bin/a", exec_meta()), found("/t/bin/b", plain_meta())],
    };
    let outcomes = vec![ran(0), ran(0)];
    let mut invocations: Vec<CommandLine> = Vec::new();
    let r = apply(&action, &"/t/bin".to_owned(), &listing, &outcomes, 0, &mut invocations);
    assert!(r.is_ok());
    assert_eq!(invocations.len(), 1);
    assert_eq!(
        words(&invocations[0]),
        vec![
            "/opt/patchelf/bin/patchelf".to_owned(),
            "--set-interpreter".to_owned(),
            "/lib/ld-linux.so.2".to_owned(),
            "/t/bin/a".to_owned(),
        ]
    );
}

#[test]
fn walk_skips_directories_and_other_entries() {
    let action = rpath_action();
    let listing = DirListing::Opened {
        entries: vec![
            EntryEvent::Found {
                path: "/t/lib/sub".to_owned(),
                file_type: FileType::Directory,
                meta: None,
            },
            EntryEvent::Found {
                path: "/t/lib/link".to_owned(),
                file_type: FileType::Other,
                meta: None,
            },
            found("/t/lib/libz.so", plain_meta()),
        ],
    };
    let outcomes = vec![ran(0)];
    let mut invocations: Vec<CommandLine> = Vec::new();
    let r = apply(&action, &"/t/lib".to_owned(), &listing, &outcomes, 0, &mut invocations);
    assert!(r.is_ok());
    assert_eq!(invocations.len(), 1);
    assert_eq!(words(&invocations[0])[3], "/t/lib/libz.so");
}

#[test]
fn full_success_issues_exactly_two_invocations() {
    // bin/rustc (executable) and lib/librustc.so (plain regular file), a
    // patch tool that always exits zero: one interpreter rewrite, one
    // rpath rewrite, success.
    let obs = ToolchainObs {
        root: "/toolchain".to_owned(),
        root_is_dir: true,
        bin_is_dir: true,
        lib_is_dir: true,
        bin_listing: DirListing::Opened {
            entries: vec![found("/toolchain/bin/rustc", exec_meta())],
        },
        lib_listing: DirListing::Opened {
            entries: vec![found("/toolchain/lib/librustc.so", plain_meta())],
        },
    };
    let outcomes = vec![ran(0), ran(0)];
    let mut invocations: Vec<CommandLine> = Vec::new();
    let r = patch_toolchain_with_options(
        &obs,
        &"/opt/patchelf/bin/patchelf".to_owned(),
        &"/lib/ld-linux.so.2".to_owned(),
        &"$ORIGIN/../lib:/nix/store/zlib/lib".to_owned(),
        &outcomes,
        &mut invocations,
    );
    assert!(r.is_ok());
    assert_eq!(invocations.len(), 2);
    assert_eq!(
        words(&invocations[0]),
        vec![
            "/opt/patchelf/bin/patchelf".to_owned(),
            "--set-interpreter".to_owned(),
            "/lib/ld-linux.so.2".to_owned(),
            "/toolchain/bin/rustc".to_owned(),
        ]
    );
    assert_eq!(
        words(&invocations[1]),
        vec![
            "/opt/patchelf/bin/patchelf".to_owned(),
            "--set-rpath".to_owned(),
            "$ORIGIN/../lib:/nix/store/zlib/lib".to_owned(),
            "/toolchain/lib/librustc.so".to_owned(),
        ]
    );
}

#[test]
fn failing_patch_aborts_remaining_walk() {
    // Two lib files; the patch tool exits non-zero on the first, so the
    // pass fails with CommandNotSuccess and the second is never patched.
    let action = rpath_action();
    let listing = DirListing::Opened {
        entries: vec![found("/t/lib/liba.so", plain_meta()), found("/t/lib/libb.so", plain_meta())],
    };
    let failing = RunOutcome::Ran {
        output: CommandOutput {
            code: Some(1),
            stdout: Vec::new(),
            stderr: b"cannot patch".to_vec(),
        },
    };
    let outcomes = vec![failing, ran(0)];
    let mut invocations: Vec<CommandLine> = Vec::new();
    let r = apply(&action, &"/t/lib".to_owned(), &listing, &outcomes, 0, &mut invocations);
    match r {
        Err(Error::CommandNotSuccess { command, code, stderr }) => {
            assert!(command.ends_with("/t/lib/liba.so"));
            assert_eq!(code, Some(1));
            assert_eq!(stderr, "cannot patch");
        },
        other => panic!("expected CommandNotSuccess, got {:?}", other),
    }
    assert_eq!(invocations.len(), 1);
    assert_eq!(words(&invocations[0])[3], "/t/lib/liba.so");
}

#[test]
fn spawn_failure_aborts_walk_with_spawn_error() {
    let action = rpath_action();
    let listing = DirListing::Opened { entries: vec![found("/t/lib/liba.so", plain_meta())] };
    let outcomes = vec![RunOutcome::SpawnFailed { os_error: "No such file".to_owned() }];
    let mut invocations: Vec<CommandLine> = Vec::new();
    let r = apply(&action, &"/t/lib".to_owned(), &listing, &outcomes, 0, &mut invocations);
    match r {
        Err(Error::SpawnChildProcess { command, os_error }) => {
            assert!(command.starts_with("/opt/patchelf/bin/patchelf --set-rpath"));
            assert_eq!(os_error, "No such file");
        },
        other => panic!("expected SpawnChildProcess, got {:?}", other),
    }
    assert_eq!(invocations.len(), 1);
}

#[test]
fn enumeration_failures_become_io_errors() {
    let action = rpath_action();
    let open_failed = DirListing::OpenFailed { os_error: "Permission denied".to_owned() };
    let outcomes: Vec<RunOutcome> = Vec::new();
    let mut invocations: Vec<CommandLine> = Vec::new();
    let r = apply(&action, &"/t/lib".to_owned(), &open_failed, &outcomes, 0, &mut invocations);
    match r {
        Err(Error::Io { actions, os_error }) => {
            assert_eq!(actions, "`opendir` for /t/lib");
            assert_eq!(os_error, "Permission denied");
        },
        other => panic!("expected Io, got {:?}", other),
    }
    assert_eq!(invocations.len(), 0);

    let read_failed = EntryEvent::ReadFailed { os_error: "boom".to_owned() };
    let r2 = plan_entry(&action, &"/t/lib".to_owned(), &read_failed);
    match r2 {
        Err(Error::Io { actions, os_error }) => {
            assert_eq!(actions, "`readdir` for /t/lib");
            assert_eq!(os_error, "boom");
        },
        other => panic!("expected Io, got {:?}", other),
    }

    let type_failed =
        EntryEvent::TypeFailed { path: "/t/lib/x".to_owned(), os_error: "gone".to_owned() };
    let r3 = plan_entry(&action, &"/t/lib".to_owned(), &type_failed);
    match r3 {
        Err(Error::Io { actions, os_error }) => {
            assert_eq!(actions, "`lstat` /t/lib/x");
            assert_eq!(os_error, "gone");
        },
        other => panic!("expected Io, got {:?}", other),
    }
}

#[test]
fn automatic_resolution_drives_both_passes() {
    let out = |bytes: &[u8]| RunOutcome::Ran {
        output: CommandOutput { code: Some(0), stdout: bytes.to_vec(), stderr: Vec::new() },
    };
    let nix = NixObservations {
        patchelf_outcome: out(b"/nix/store/patchelf\n"),
        patchelf_meta: exec_meta(),
        linker_outcome: out(b"/nix/store/glibc/lib/ld-linux.so.2"),
        linker_meta: exec_meta(),
        zlib_outcome: out(b"/nix/store/zlib\n"),
        zlib_lib_is_dir: true,
    };
    let obs = ToolchainObs {
        root: "/toolchain".to_owned(),
        root_is_dir: true,
        bin_is_dir: true,
        lib_is_dir: true,
        bin_listing: DirListing::Opened {
            entries: vec![found("/toolchain/bin/rustc", exec_meta())],
        },
        lib_listing: DirListing::Opened {
            entries: vec![found("/toolchain/lib/librustc.so", plain_meta())],
        },
    };
    let outcomes = vec![ran(0), ran(0)];
    let mut invocations: Vec<CommandLine> = Vec::new();
    let r = patch_toolchain(nix, &obs, &outcomes, &mut invocations);
    assert!(r.is_ok());
    assert_eq!(invocations.len(), 2);
    assert_eq!(
        words(&invocations[0]),
        vec![
            "/nix/store/patchelf/bin/patchelf".to_owned(),
            "--set-interpreter".to_owned(),
            "/nix/store/glibc/lib/ld-linux.so.2".to_owned(),
            "/toolchain/bin/rustc".to_owned(),
        ]
    );
    assert_eq!(
        words(&invocations[1]),
        vec![
            "/nix/store/patchelf/bin/patchelf".to_owned(),
            "--set-rpath".to_owned(),
            "$ORIGIN/../lib:/nix/store/zlib/lib".to_owned(),
            "/toolchain/lib/librustc.so".to_owned(),
        ]
    );
}

#[test]
fn automatic_resolution_rejects_non_executable_patch_tool() {
    let out = |bytes: &[u8]| RunOutcome::Ran {
        output: CommandOutput { code: Some(0), stdout: bytes.to_vec(), stderr: Vec::new() },
    };
    let nix = NixObservations {
        patchelf_outcome: out(b"/nix/store/patchelf\n"),
        patchelf_meta: plain_meta(),
        linker_outcome: out(b"/nix/store/glibc/lib/ld-linux.so.2"),
        linker_meta: exec_meta(),
        zlib_outcome: out(b"/nix/store/zlib\n"),
        zlib_lib_is_dir: true,
    };
    let obs = ToolchainObs {
        root: "/toolchain".to_owned(),
        root_is_dir: true,
        bin_is_dir: true,
        lib_is_dir: true,
        bin_listing: DirListing::Opened { entries: Vec::new() },
        lib_listing: DirListing::Opened { entries: Vec::new() },
    };
    let outcomes: Vec<RunOutcome> = Vec::new();
    let mut invocations: Vec<CommandLine> = Vec::new();
    let r = patch_toolchain(nix, &obs, &outcomes, &mut invocations);
    match r {
        Err(Error::Nix { message }) => {
            assert_eq!(message, "/nix/store/patchelf/bin/patchelf is not executable");
        },
        other => panic!("expected Nix, got {:?}", other),
    }
    assert_eq!(invocations.len(), 0);
}
