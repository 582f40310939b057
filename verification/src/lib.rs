//! A compile-time expander for two annotations, `constructor` and
//! `destructor`, that register a function to run automatically around the
//! program's entry point: before it (or at load time of a dynamic library)
//! for a constructor, after it (or at unload time) for a destructor.
//!
//! Applied to a function definition, each annotation expands to the
//! function itself, untouched, followed by a hidden scope holding one
//! static symbol aliased to the function and placed in the linker section
//! that the compilation target's loader scans for such hooks. The expander
//! does no work at run time: its whole output is the fragment handed back
//! to the compiler.
//!
//! The expansion logic lives in [`expander`], over the library's own model
//! of an annotation invocation; [`tokens`] turns the token streams of an
//! invocation into that model and back out of it.

pub mod expander;
pub mod tokens;
