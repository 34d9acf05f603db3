//! Well-known directories on the Mac platforms, from a home directory.

use vstd::prelude::*;
use vstd::string::StringSliceAdditionalSpecFns;
use crate::text::append_all;

verus! {

/// The application support directory under the given home directory.
pub fn app_support_dir(home: &[u8]) -> (r: Vec<u8>)
    ensures
        r@ == home@ + "/Library/Application Support/iDeinterlace".spec_bytes(),
{
    let mut out: Vec<u8> = Vec::new();
    append_all(&mut out, home);
    append_all(&mut out, "/Library/Application Support/iDeinterlace".as_bytes());
    out
}

/// The cache directory under the given home directory.
pub fn cache_dir(home: &[u8]) -> (r: Vec<u8>)
    ensures
        r@ == home@ + "/Library/Caches/iDeinterlace".spec_bytes(),
{
    let mut out: Vec<u8> = Vec::new();
    append_all(&mut out, home);
    append_all(&mut out, "/Library/Caches/iDeinterlace".as_bytes());
    out
}

} // verus!
