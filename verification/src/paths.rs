//! Path construction for the build tree: every directory the pipeline
//! touches is derived from the workspace root and the chosen target.

use vstd::prelude::*;
use vstd::string::StringExecFns;
use crate::arch::{Architecture, spec_canonical};

verus! {

/// `a` and `b` joined by a single path separator.
pub open spec fn spec_path_join(a: Seq<char>, b: Seq<char>) -> Seq<char> {
    a + "/"@ + b
}

/// Joins two path fragments with a separator.
pub fn path_join(a: &str, b: &str) -> (r: String)
    ensures
        r@ == spec_path_join(a@, b@),
{
    let mut s = a.to_owned();
    s.append("/");
    s.append(b);
    s
}

/// The sub-project holding the Rust eBPF dispatcher.
pub open spec fn spec_rust_project_dir(root: Seq<char>) -> Seq<char> {
    spec_path_join(root, "bpfd-ebpf"@)
}

/// The directory scanned for C eBPF sources.
pub open spec fn spec_c_source_dir(root: Seq<char>) -> Seq<char> {
    spec_path_join(root, "bpfd-ebpf/src/bpf"@)
}

/// The output directory for compiled objects: qualified by the target
/// triple and the release profile.
pub open spec fn spec_output_dir(root: Seq<char>, target: Architecture) -> Seq<char> {
    spec_path_join(spec_path_join(spec_path_join(root, "target"@), spec_canonical(target)), "release"@)
}

/// The directory the libbpf headers are installed into, inside the output
/// directory.
pub open spec fn spec_include_dir(root: Seq<char>, target: Architecture) -> Seq<char> {
    spec_path_join(spec_output_dir(root, target), "include"@)
}

/// The directory in which the libbpf header-install target runs.
pub open spec fn spec_libbpf_src_dir(libbpf_dir: Seq<char>) -> Seq<char> {
    spec_path_join(libbpf_dir, "src"@)
}

pub fn rust_project_dir(root: &str) -> (r: String)
    ensures
        r@ == spec_rust_project_dir(root@),
{
    path_join(root, "bpfd-ebpf")
}

pub fn c_source_dir(root: &str) -> (r: String)
    ensures
        r@ == spec_c_source_dir(root@),
{
    path_join(root, "bpfd-ebpf/src/bpf")
}

pub fn output_dir(root: &str, target: Architecture) -> (r: String)
    ensures
        r@ == spec_output_dir(root@, target),
{
    let t = path_join(root, "target");
    let tt = path_join(t.as_str(), target.as_str());
    path_join(tt.as_str(), "release")
}

pub fn include_dir(root: &str, target: Architecture) -> (r: String)
    ensures
        r@ == spec_include_dir(root@, target),
{
    let out = output_dir(root, target);
    path_join(out.as_str(), "include")
}

pub fn libbpf_src_dir(libbpf_dir: &str) -> (r: String)
    ensures
        r@ == spec_libbpf_src_dir(libbpf_dir@),
{
    path_join(libbpf_dir, "src")
}

} // verus!
