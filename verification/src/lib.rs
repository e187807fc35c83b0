//! A programmatic builder and text emitter for Verilog: callers construct
//! an abstract syntax tree of a hardware module and render it to source
//! text with consistent indentation, through the `pretty` layout engine.
//! Every rendering function carries a contract pinning the exact text it
//! produces.

pub mod common;
pub mod layout;
pub mod v05;
