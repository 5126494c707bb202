//! The kinds of keyring backends.
use vstd::prelude::*;

verus! {

/// Where a keyring keeps its keys.
#[derive(Clone, Copy, Debug)]
pub enum KeyRingType {
    File,
}

impl Default for KeyRingType {
    /// Keys are kept in files unless said otherwise.
    fn default() -> (r: KeyRingType)
        ensures
            r == KeyRingType::File,
    {
        KeyRingType::File
    }
}

} // verus!
