//! The build configuration: created once from command-line input and read
//! by every later stage of the pipeline.

use vstd::prelude::*;
use crate::arch::Architecture;

verus! {

/// Configuration of one build run.
#[derive(Debug)]
pub struct Options {
    /// Endianness of the BPF target.
    pub target: Architecture,
    /// Build the release target.
    pub release: bool,
    /// Compile the Rust eBPF dispatcher before the C pipeline.
    pub compile_rust_ebpf: bool,
    /// Directory of the libbpf source tree, required for compiling C code.
    pub libbpf_dir: String,
}

} // verus!
