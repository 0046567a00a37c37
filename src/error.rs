use vstd::prelude::*;

verus! {

/// Why the plugin could not start or a reading could not be taken.
#[derive(Clone, Copy, Debug, PartialEq, Eq, Structural)]
pub enum Error {
    /// A sensor name held a null byte.
    NullInName,
    /// The host has no sensor field by that name.
    NotFound,
    /// The sensor field exists but cannot be written.
    NotWritable,
    /// The sensor field exists with another type.
    WrongType,
    /// A shared handle set could not be locked.
    UnableToGetLock,
}

} // verus!
