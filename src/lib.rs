//! Provisioning rules for two JavaScript-based language servers: which
//! version to install, what work brings a container directory up to date,
//! and where an earlier install left its entry script. The file system,
//! network and package-manager work stays with the caller, which hands the
//! outcome of each step to these functions.
use vstd::prelude::*;

pub mod binary;
pub mod error;
pub mod eslint;
pub mod laws;
pub mod paths;
pub mod typescript;

verus! {

} // verus!
