//! Toolchain resolution for an LLVM/Clang installation, and the export
//! bridge that registers native functions in a host-visible module.
pub mod bridge;
pub mod paths;
pub mod toolchain;
