//! The lint rules.  Each rule reads a [`crate::engine::LintContext`] and
//! returns its diagnostics in node order.
pub mod no_explicit_any;


pub mod universal_security;
pub mod no_wrong_arg_count;
pub mod no_missing_return;
pub mod no_unused_vars;
pub mod react;
pub mod js_performance;
pub mod server;
