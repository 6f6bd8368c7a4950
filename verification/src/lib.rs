//! Verified core of an interactive shell front-end that accepts either
//! literal commands or natural-language requests, resolves the latter into
//! an executable command through an external language-model service, and
//! executes the result in a persistent working-directory context.
//!
//! The library owns the logic: directory-state bookkeeping, input
//! classification, `cd` target resolution, outcome classification under
//! timeout and signal semantics, the strict `COMMAND:`/`EXPLANATION:`
//! response parser, and the confirm/retry session protocol. All I/O (the
//! shell spawn, the HTTP transport, the line editor, signal delivery)
//! stays outside, handing this library plain values.

pub mod dirstate;
pub mod errors;
pub mod executor;
pub mod oracle;
pub mod parser;
pub mod plugin;
pub mod session;
pub mod text;
