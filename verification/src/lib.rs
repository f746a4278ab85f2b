//! Workspace configuration discovery: a strictly validated option schema and
//! a nearest-ancestor search that picks exactly one configuration source.

use vstd::prelude::*;

pub mod document;
pub mod settings;
pub mod values;
pub mod workspace;

pub use settings::InstallerOptions;
pub use settings::Options;
pub use settings::PipOptions;
pub use settings::ResolverOptions;
pub use workspace::Workspace;
pub use workspace::WorkspaceError;

verus! {

/// Compares two string slices by their character sequences.
pub fn str_eq(a: &str, b: &str) -> (r: bool)
    ensures
        r == (a@ == b@),
{
    let sa: String = a.to_owned();
    let sb: String = b.to_owned();
    sa == sb
}

} // verus!
