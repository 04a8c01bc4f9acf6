//! Validation of the inputs a run needs before any work is attempted.
//!
//! A run takes three pieces of configuration: the label that selects the
//! pull requests, the name of the destination branch to (re)create, and the
//! bearer token for the remote API. Each may be absent — a missing
//! command-line argument or a missing configuration key — and any absence
//! is fatal before a single network or git operation is performed.

use vstd::prelude::*;

verus! {

/// The validated inputs of one run: the label that selects the pull
/// requests, the destination branch to create, and the bearer token
/// used to authenticate against the remote API.
#[derive(Debug)]
pub struct RunConfig {
    pub label: String,
    pub dest_branch: String,
    pub credential: String,
}

/// Why a run could not begin: one of the required inputs was absent.
#[derive(Clone, Copy, Debug, PartialEq, Eq, Structural)]
pub enum ConfigurationError {
    /// No label was supplied on the command line.
    MissingLabel,
    /// No destination branch name was supplied on the command line.
    MissingDestBranch,
    /// The configuration store holds no credential under the expected key.
    MissingCredential,
}

/// Assemble the configuration of a run from its three optional sources,
/// reporting the first absent one (label, then destination branch, then
/// credential — the order in which the operator supplies them).
pub fn build_config(
    label: Option<String>,
    dest_branch: Option<String>,
    credential: Option<String>,
) -> (r: Result<RunConfig, ConfigurationError>)
    ensures
        match r {
            Ok(c) => label == Some(c.label) && dest_branch == Some(c.dest_branch)
                && credential == Some(c.credential),
            Err(e) => (label is None || dest_branch is None || credential is None)
                && e == (if label is None {
                    ConfigurationError::MissingLabel
                } else if dest_branch is None {
                    ConfigurationError::MissingDestBranch
                } else {
                    ConfigurationError::MissingCredential
                }),
        },
{
    let label = match label {
        Some(l) => l,
        None => {
            return Err(ConfigurationError::MissingLabel);
        },
    };
    let dest_branch = match dest_branch {
        Some(d) => d,
        None => {
            return Err(ConfigurationError::MissingDestBranch);
        },
    };
    let credential = match credential {
        Some(c) => c,
        None => {
            return Err(ConfigurationError::MissingCredential);
        },
    };
    Ok(RunConfig { label, dest_branch, credential })
}

} // verus!
