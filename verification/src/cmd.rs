//! External command lines, computed exactly: the pipeline never invokes a
//! process itself, it hands the caller a fully determined `Cmd` to run.

use vstd::prelude::*;
use vstd::string::StringExecFns;
use crate::arch::{Architecture, spec_canonical};
use crate::paths::{spec_libbpf_src_dir, libbpf_src_dir};

verus! {

/// One external process invocation: a program, its arguments in order, and
/// an optional working directory.
#[derive(Debug)]
pub struct Cmd {
    pub program: String,
    pub args: Vec<String>,
    pub cwd: Option<String>,
}

/// The preprocessor macro suffix identifying the host architecture family:
/// `x86_64` maps to `x86`, `aarch64` to `arm64`, and any other host
/// architecture name passes through unchanged.
pub open spec fn spec_arch_suffix(host: Seq<char>) -> Seq<char> {
    if host == "x86_64"@ {
        "x86"@
    } else if host == "aarch64"@ {
        "arm64"@
    } else {
        host
    }
}

/// Translates the host architecture name to the macro suffix the BPF
/// headers recognize.
pub fn arch_macro_suffix(host: &str) -> (r: String)
    ensures
        r@ == spec_arch_suffix(host@),
{
    let owned = host.to_owned();
    if owned == String::from_str("x86_64") {
        String::from_str("x86")
    } else if owned == String::from_str("aarch64") {
        String::from_str("arm64")
    } else {
        owned
    }
}

/// The architecture-macro translation is exact: the two known hosts map to
/// their BPF family names, every other name is its own suffix.
pub proof fn lemma_arch_macro_translation()
    ensures
        spec_arch_suffix("x86_64"@) == "x86"@,
        spec_arch_suffix("aarch64"@) == "arm64"@,
        forall|host: Seq<char>|
            host != "x86_64"@ && host != "aarch64"@ ==> #[trigger] spec_arch_suffix(host) == host,
{
    reveal_strlit("x86_64");
    reveal_strlit("aarch64");
    assert("x86_64"@.len() == 6);
    assert("aarch64"@.len() == 7);
}

/// The C compiler executable: an override if one was given, else the fixed
/// default location.
pub open spec fn spec_clang_executable(over: Option<Seq<char>>) -> Seq<char> {
    match over {
        Some(path) => path,
        None => "/usr/bin/clang"@,
    }
}

/// Resolves the C compiler executable from an optional override.
pub fn clang_executable(over: Option<String>) -> (r: String)
    ensures
        r@ == spec_clang_executable(match over {
            Some(path) => Some(path@),
            None => None,
        }),
{
    match over {
        Some(path) => path,
        None => String::from_str("/usr/bin/clang"),
    }
}

/// The argument list of the Rust eBPF cross-build: nightly channel,
/// verbose, release profile, the selected target triple, and a rebuilt
/// core library for the bare-metal target.
pub open spec fn spec_rust_build_args(target: Architecture) -> Seq<Seq<char>> {
    seq![
        "+nightly"@,
        "build"@,
        "--verbose"@,
        "--release"@,
        "--target="@ + spec_canonical(target),
        "-Z"@,
        "build-std=core"@,
    ]
}

/// The command that cross-builds the Rust eBPF dispatcher, run inside the
/// dispatcher's project directory.
pub fn rust_build_command(rust_dir: &str, target: Architecture) -> (c: Cmd)
    ensures
        c.program@ == "cargo"@,
        c.args.deep_view() == spec_rust_build_args(target),
        c.cwd matches Some(d) && d@ == rust_dir@,
{
    let mut args: Vec<String> = Vec::new();
    args.push(String::from_str("+nightly"));
    args.push(String::from_str("build"));
    args.push(String::from_str("--verbose"));
    args.push(String::from_str("--release"));
    args.push(String::from_str("--target=").concat(target.as_str()));
    args.push(String::from_str("-Z"));
    args.push(String::from_str("build-std=core"));
    proof {
        assert(args.deep_view() =~= spec_rust_build_args(target));
    }
    Cmd { program: String::from_str("cargo"), args, cwd: Some(rust_dir.to_owned()) }
}

/// The argument list of the libbpf header install: the redirected include
/// directory and the install target.
pub open spec fn spec_header_install_args(include_dir: Seq<char>) -> Seq<Seq<char>> {
    seq!["INCLUDEDIR="@ + include_dir, "install_headers"@]
}

/// The command that installs the libbpf headers into the include
/// directory, run inside the library's `src` directory.
pub fn header_install_command(libbpf_dir: &str, include_dir: &str) -> (c: Cmd)
    ensures
        c.program@ == "make"@,
        c.args.deep_view() == spec_header_install_args(include_dir@),
        c.cwd matches Some(d) && d@ == spec_libbpf_src_dir(libbpf_dir@),
{
    let mut args: Vec<String> = Vec::new();
    args.push(String::from_str("INCLUDEDIR=").concat(include_dir));
    args.push(String::from_str("install_headers"));
    proof {
        assert(args.deep_view() =~= spec_header_install_args(include_dir@));
    }
    Cmd { program: String::from_str("make"), args, cwd: Some(libbpf_src_dir(libbpf_dir)) }
}

/// The argument list of one C compilation: the include path, debug info,
/// optimization level 2, the generic BPF backend, the host-architecture
/// macro, the source file and the output path.  The compiler's target is
/// always the generic BPF backend, whatever endianness was selected: the
/// endianness choice only affects the Rust build's target triple.
pub open spec fn spec_clang_args(
    host: Seq<char>,
    include_dir: Seq<char>,
    source: Seq<char>,
    object: Seq<char>,
) -> Seq<Seq<char>> {
    seq![
        "-I"@ + include_dir,
        "-g"@,
        "-O2"@,
        "-target"@,
        "bpf"@,
        "-c"@,
        "-D__TARGET_ARCH_"@ + spec_arch_suffix(host),
        source,
        "-o"@,
        object,
    ]
}

/// The command that compiles one C source to one eBPF object.
pub fn clang_command(
    clang: &str,
    host: &str,
    include_dir: &str,
    source: &str,
    object: &str,
) -> (c: Cmd)
    ensures
        c.program@ == clang@,
        c.args.deep_view() == spec_clang_args(host@, include_dir@, source@, object@),
        c.cwd is None,
{
    let mut args: Vec<String> = Vec::new();
    args.push(String::from_str("-I").concat(include_dir));
    args.push(String::from_str("-g"));
    args.push(String::from_str("-O2"));
    args.push(String::from_str("-target"));
    args.push(String::from_str("bpf"));
    args.push(String::from_str("-c"));
    args.push(String::from_str("-D__TARGET_ARCH_").concat(arch_macro_suffix(host).as_str()));
    args.push(source.to_owned());
    args.push(String::from_str("-o"));
    args.push(object.to_owned());
    proof {
        assert(args.deep_view() =~= spec_clang_args(host@, include_dir@, source@, object@));
    }
    Cmd { program: clang.to_owned(), args, cwd: None }
}

} // verus!
