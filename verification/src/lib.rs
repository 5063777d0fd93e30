//! Verified build orchestration for eBPF object files.
//!
//! The library plans and tracks a build pipeline that compiles C and Rust
//! sources to eBPF objects: it parses the target architecture, computes the
//! exact command lines for the external toolchain (`cargo`, `make`, a C
//! compiler), selects the compilation units from a directory listing, and
//! drives the whole build as a state machine.  Running the external
//! processes themselves is left to the caller, which feeds each outcome
//! back into the state machine.

pub mod arch;
pub mod cmd;
pub mod metadata;
pub mod options;
pub mod paths;
pub mod pipeline;
pub mod units;

pub use arch::Architecture;
pub use options::Options;
pub use pipeline::build_ebpf;
