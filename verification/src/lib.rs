//! Compile-time code-generation logic for two attribute-driven transformers.
//!
//! `generic_tests` rewrites a test module: it strips test markers from the
//! generic test functions and plans a companion macro that re-declares each
//! of them, non-generic, for caller-supplied type arguments.
//!
//! `ser_test` plans round-trip serialization tests for an annotated struct or
//! enum: one synthesized test per requested type instantiation and enabled
//! serialization format.
//!
//! Both transformers work on a plain model of the annotated syntax; a thin
//! token-stream front end converts to and from the host compiler's trees.

pub mod args;
pub mod text;
