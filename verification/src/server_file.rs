use vstd::prelude::*;

verus! {

/// A signed file as the server stores it, with the version the server gave
/// it.
#[derive(Clone, Debug, PartialEq)]
pub struct ServerFile<F> {
    pub file: F,
    pub version: u64,
}

/// Stamping a signed file with the server's version.
pub trait IntoServerFile: Sized {
    fn add_time(self, version: u64) -> (stamped: ServerFile<Self>)
        ensures
            stamped.file == self,
            stamped.version == version,
    ;
}

impl<F> IntoServerFile for F {
    fn add_time(self, version: u64) -> (stamped: ServerFile<F>) {
        ServerFile { file: self, version }
    }
}

} // verus!
