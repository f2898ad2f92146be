//! Default values used for server configuration in the absence of detected
//! settings or command line parameters.

use vstd::prelude::*;

verus! {

pub const SWEPH_PATH_DEFAULT: &'static str = "/usr/share/libswe/ephe";

pub const DEFAULT_PORT: u32 = 8087;

/// An empty owned string, handy as a default value.
pub fn empty_string() -> (r: String)
    ensures
        r@ == Seq::<char>::empty(),
{
    String::new()
}

} // verus!
