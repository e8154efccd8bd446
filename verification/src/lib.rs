//! Request routing and script execution rules of a small HTTP origin server.
//!
//! The server sends files from below a root directory and runs the files of
//! its `scripts` subdirectory, handing each script the request as
//! environment variables and standard input. This library holds the rules:
//! which paths may be served, what a script sees, and which response each
//! outcome gets. It does no input or output of its own. A caller drives an
//! [`dispatch::Exchange`] and does the outside work that each step asks for.
//!
//! - [`path`]: segments, components, containment and joining of paths
//! - [`resolve`]: static file, script, forbidden or not found
//! - [`environment`]: the variables that a script sees
//! - [`query`]: decoding of the query string
//! - [`media`]: content types by file name
//! - [`response`]: the responses and the log record
//! - [`dispatch`]: one exchange, step by step
//! - [`laws`]: what holds of every exchange
//! - [`text`]: conversions between text, characters and numerals

pub mod dispatch;
pub mod environment;
pub mod laws;
pub mod media;
pub mod path;
pub mod query;
pub mod resolve;
pub mod response;
pub mod text;
