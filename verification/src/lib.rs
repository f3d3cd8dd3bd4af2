pub mod archive;
pub mod bytes;
pub mod decode;
pub mod errors;
pub mod extract;
pub mod filename;
pub mod layout;
pub mod quirks;
pub mod sniff;
pub mod source;

use vstd::prelude::*;

verus! {

/// True exactly when the effective user id is the administrator's; the
/// surrounding program refuses to run otherwise.
pub fn has_root_privileges(euid: u32) -> (r: bool)
    ensures
        r == (euid == 0),
{
    euid == 0
}

} // verus!
