use ebpf_build::arch::Architecture;
use ebpf_build::options::Options;
use ebpf_build::pipeline::{build_ebpf, Action, BuildError, Event, Phase, Pipeline};

fn opts(target: Architecture, compile_rust_ebpf: bool) -> Options {
    Options {
        target,
        release: true,
        compile_rust_ebpf,
        libbpf_dir: "/libbpf".to_string(),
    }
}

fn start(compile_rust_ebpf: bool) -> Pipeline {
    build_ebpf(
        opts(Architecture::BpfEl, compile_rust_ebpf),
        "/w".to_string(),
        None,
        "x86_64".to_string(),
    )
}

fn listing(v: &[&str]) -> Event {
    Event::Listed { names: v.iter().map(|s| s.to_string()).collect() }
}

fn ok() -> Event {
    Event::Finished { success: true }
}

fn compiled(success: bool) -> Event {
    Event::FinishedCaptured {
        success,
        stdout: "out".to_string(),
        stderr: "err".to_string(),
    }
}

#[test]
fn without_the_flag_the_rust_builder_is_never_invoked() {
    let mut p = start(false);
    let mut programs: Vec<String> = Vec::new();
    // drive the whole pipeline to completion, recording every command
    for _ in 0..16 {
        match p.next_action() {
            None => break,
            Some(Action::CreateDir { path }) => {
                assert_eq!(path, "/w/target/bpfel-unknown-none/release/include");
                p = p.step(ok());
            }
            Some(Action::ReadDir { path }) => {
                assert_eq!(path, "/w/bpfd-ebpf/src/bpf");
                p = p.step(listing(&["probe.c", "probe.h"]));
            }
            Some(Action::Run { command }) => {
                programs.push(command.program.clone());
                p = p.step(ok());
            }
            Some(Action::RunCaptured { command }) => {
                programs.push(command.program.clone());
                p = p.step(compiled(true));
            }
        }
    }
    assert!(matches!(p.phase, Phase::Done));
    // header install ran, one C compilation ran, and cargo never did
    assert_eq!(programs, vec!["make", "/usr/bin/clang"]);
}

#[test]
fn with_the_flag_the_rust_builder_runs_first() {
    let p = start(true);
    match p.next_action() {
        Some(Action::Run { command }) => {
            assert_eq!(command.program, "cargo");
            assert_eq!(command.cwd.as_deref(), Some("/w/bpfd-ebpf"));
            assert_eq!(
                command.args,
                vec![
                    "+nightly",
                    "build",
                    "--verbose",
                    "--release",
                    "--target=bpfel-unknown-none",
                    "-Z",
                    "build-std=core",
                ]
            );
        }
        other => panic!("expected the Rust build, got {:?}", other),
    }
}

#[test]
fn a_failed_rust_build_stops_everything() {
    let p = start(true).step(Event::Finished { success: false });
    assert!(matches!(p.error(), Some(BuildError::RustBuildFailed)));
    assert!(p.next_action().is_none());
}

#[test]
fn a_failed_header_install_stops_all_compilation() {
    let mut p = start(false);
    p = p.step(ok()); // include directory created
    match p.next_action() {
        Some(Action::Run { command }) => assert_eq!(command.program, "make"),
        other => panic!("expected the header install, got {:?}", other),
    }
    p = p.step(Event::Finished { success: false });
    assert!(matches!(p.error(), Some(BuildError::HeaderInstallFailed)));
    // no compiler invocation occurs afterward, whatever is reported
    assert!(p.next_action().is_none());
    p = p.step(compiled(true));
    assert!(p.next_action().is_none());
    p = p.step(listing(&["probe.c"]));
    assert!(p.next_action().is_none());
}

#[test]
fn each_c_file_is_compiled_in_order_and_others_are_skipped() {
    let mut p = start(false);
    p = p.step(ok());
    p = p.step(ok());
    p = p.step(listing(&["a.c", "b.h", "c.c", "Makefile"]));
    let first = match p.next_action() {
        Some(Action::RunCaptured { command }) => command,
        other => panic!("expected a compilation, got {:?}", other),
    };
    assert_eq!(first.program, "/usr/bin/clang");
    assert_eq!(
        first.args,
        vec![
            "-I/w/target/bpfel-unknown-none/release/include",
            "-g",
            "-O2",
            "-target",
            "bpf",
            "-c",
            "-D__TARGET_ARCH_x86",
            "/w/bpfd-ebpf/src/bpf/a.c",
            "-o",
            "/w/target/bpfel-unknown-none/release/a.o",
        ]
    );
    p = p.step(compiled(true));
    let second = match p.next_action() {
        Some(Action::RunCaptured { command }) => command,
        other => panic!("expected a second compilation, got {:?}", other),
    };
    assert_eq!(second.args[7], "/w/bpfd-ebpf/src/bpf/c.c");
    assert_eq!(second.args[9], "/w/target/bpfel-unknown-none/release/c.o");
    p = p.step(compiled(true));
    assert!(matches!(p.phase, Phase::Done));
    assert!(p.next_action().is_none());
}

#[test]
fn a_compiler_failure_carries_its_output_verbatim() {
    let mut p = start(false);
    p = p.step(ok());
    p = p.step(ok());
    p = p.step(listing(&["bad.c"]));
    p = p.step(Event::FinishedCaptured {
        success: false,
        stdout: "warning: odd".to_string(),
        stderr: "error: bad type".to_string(),
    });
    match p.error() {
        Some(BuildError::CompileFailed { source, stdout, stderr }) => {
            assert_eq!(source.as_str(), "/w/bpfd-ebpf/src/bpf/bad.c");
            assert_eq!(stdout.as_str(), "warning: odd");
            assert_eq!(stderr.as_str(), "error: bad type");
            let msg = p.error().unwrap().message();
            assert!(msg.contains("warning: odd"));
            assert!(msg.contains("error: bad type"));
        }
        other => panic!("expected a compile failure, got {:?}", other),
    }
    assert!(p.next_action().is_none());
}

#[test]
fn an_empty_source_directory_completes_without_compiling() {
    let mut p = start(false);
    p = p.step(ok());
    p = p.step(ok());
    p = p.step(listing(&["readme.md"]));
    assert!(matches!(p.phase, Phase::Done));
    assert!(p.next_action().is_none());
}

#[test]
fn the_big_endian_target_shapes_the_output_paths() {
    let mut p = build_ebpf(
        opts(Architecture::BpfEb, false),
        "/w".to_string(),
        None,
        "aarch64".to_string(),
    );
    match p.next_action() {
        Some(Action::CreateDir { path }) => {
            assert_eq!(path, "/w/target/bpfeb-unknown-none/release/include");
        }
        other => panic!("expected the include directory, got {:?}", other),
    }
    p = p.step(ok());
    p = p.step(ok());
    p = p.step(listing(&["probe.c"]));
    match p.next_action() {
        Some(Action::RunCaptured { command }) => {
            assert_eq!(command.args[6], "-D__TARGET_ARCH_arm64");
            assert_eq!(command.args[9], "/w/target/bpfeb-unknown-none/release/probe.o");
        }
        other => panic!("expected a compilation, got {:?}", other),
    }
}

#[test]
fn the_compiler_override_replaces_the_default() {
    let mut p = build_ebpf(
        opts(Architecture::BpfEl, false),
        "/w".to_string(),
        Some("/opt/llvm/bin/clang".to_string()),
        "x86_64".to_string(),
    );
    p = p.step(ok());
    p = p.step(ok());
    p = p.step(listing(&["probe.c"]));
    match p.next_action() {
        Some(Action::RunCaptured { command }) => {
            assert_eq!(command.program, "/opt/llvm/bin/clang");
        }
        other => panic!("expected a compilation, got {:?}", other),
    }
}
