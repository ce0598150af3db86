//! Argonaut bridges a deployment server and a code-review server: it builds
//! the command line that asks the deployment CLI for a diff between the live
//! application state and a proposed revision, turns the captured output into
//! trimmed diff text, and prepares the URL and the request body that post that
//! text as a new discussion on a merge request.
//!
//! The library holds everything that can be stated and proved: configuration
//! resolution, the exact argument sequence of the subprocess, the decoding and
//! trimming of its output, and the exact shape of the URL and the comment
//! body. Running the subprocess and issuing the HTTP request are left to the
//! surrounding binary.

pub mod config;
pub mod diff;
pub mod publish;
pub mod text;
