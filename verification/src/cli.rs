//! The shape of the command line: one subcommand to encrypt a file and one
//! to decrypt it, each with an input path, an output path and a password.

use std::path::PathBuf;
use vstd::prelude::*;

verus! {

/// `std::path::PathBuf`, carried through without being looked into.
#[verifier::external_type_specification]
#[verifier::external_body]
pub struct ExPathBuf(std::path::PathBuf);

/// The parsed command line.
pub struct Cli {
    pub command: Commands,
}

/// What the user asks for.
pub enum Commands {
    /// Encrypt `input` into `output` under `password`.
    Encrypt { input: PathBuf, output: PathBuf, password: String },
    /// Decrypt `input` into `output` under `password`.
    Decrypt { input: PathBuf, output: PathBuf, password: String },
}

} // verus!
