//! The configuration a server is started with.

use crate::resolver::CanonicalPath;
use vstd::prelude::*;

verus! {

/// Start-up configuration, fixed for the lifetime of the process and shared
/// read-only by every connection.
#[derive(Clone, Debug, PartialEq, Eq)]
pub struct Args {
    /// The canonical directory outside of which nothing is ever served.
    pub root: CanonicalPath,
    /// The address and port pair to listen on.
    pub bind: String,
    /// The suffix appended to requested file names.
    pub suffix: String,
}

/// The mathematical content of [`Args`].
pub struct ArgsView {
    pub root: Seq<Seq<u8>>,
    pub bind: Seq<char>,
    pub suffix: Seq<char>,
}

impl View for Args {
    type V = ArgsView;

    open spec fn view(&self) -> ArgsView {
        ArgsView { root: self.root@, bind: self.bind@, suffix: self.suffix@ }
    }
}

} // verus!
