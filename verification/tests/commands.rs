use ebpf_build::arch::Architecture;
use ebpf_build::cmd::{arch_macro_suffix, clang_command, header_install_command, rust_build_command};
use ebpf_build::paths::{include_dir, output_dir, path_join};

#[test]
fn host_architecture_macro_translation_is_exact() {
    assert_eq!(arch_macro_suffix("x86_64"), "x86");
    assert_eq!(arch_macro_suffix("aarch64"), "arm64");
    assert_eq!(arch_macro_suffix("riscv64"), "riscv64");
    assert_eq!(arch_macro_suffix("powerpc64"), "powerpc64");
    assert_eq!(arch_macro_suffix(""), "");
}

#[test]
fn paths_derive_from_root_and_target() {
    assert_eq!(path_join("/w", "x.c"), "/w/x.c");
    assert_eq!(
        output_dir("/w", Architecture::BpfEl),
        "/w/target/bpfel-unknown-none/release"
    );
    assert_eq!(
        output_dir("/w", Architecture::BpfEb),
        "/w/target/bpfeb-unknown-none/release"
    );
    assert_eq!(
        include_dir("/w", Architecture::BpfEl),
        "/w/target/bpfel-unknown-none/release/include"
    );
}

#[test]
fn rust_build_command_is_the_nightly_cross_build() {
    let c = rust_build_command("/w/bpfd-ebpf", Architecture::BpfEb);
    assert_eq!(c.program, "cargo");
    assert_eq!(c.cwd.as_deref(), Some("/w/bpfd-ebpf"));
    assert_eq!(
        c.args,
        vec![
            "+nightly",
            "build",
            "--verbose",
            "--release",
            "--target=bpfeb-unknown-none",
            "-Z",
            "build-std=core",
        ]
    );
}

#[test]
fn header_install_command_redirects_the_include_dir() {
    let c = header_install_command("/libbpf", "/w/target/bpfel-unknown-none/release/include");
    assert_eq!(c.program, "make");
    assert_eq!(c.cwd.as_deref(), Some("/libbpf/src"));
    assert_eq!(
        c.args,
        vec![
            "INCLUDEDIR=/w/target/bpfel-unknown-none/release/include",
            "install_headers",
        ]
    );
}

#[test]
fn clang_command_targets_the_generic_bpf_backend() {
    let c = clang_command("/usr/bin/clang", "x86_64", "/inc", "/src/probe.c", "/out/probe.o");
    assert_eq!(c.program, "/usr/bin/clang");
    assert!(c.cwd.is_none());
    assert_eq!(
        c.args,
        vec![
            "-I/inc",
            "-g",
            "-O2",
            "-target",
            "bpf",
            "-c",
            "-D__TARGET_ARCH_x86",
            "/src/probe.c",
            "-o",
            "/out/probe.o",
        ]
    );
}

#[test]
fn clang_command_passes_unknown_hosts_through() {
    let c = clang_command("/opt/clang", "mips64", "/inc", "/s/a.c", "/o/a.o");
    assert_eq!(c.args[6], "-D__TARGET_ARCH_mips64");
}
