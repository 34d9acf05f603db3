//! Well-known directories on the Windows platforms, from the local
//! application data directory.

use vstd::prelude::*;
use vstd::string::StringSliceAdditionalSpecFns;
use crate::text::append_all;

verus! {

/// The application data directory under the given local data directory.
pub fn app_data_dir(local_app_data: &[u8]) -> (r: Vec<u8>)
    ensures
        r@ == local_app_data@ + "\\VapourBox".spec_bytes(),
{
    let mut out: Vec<u8> = Vec::new();
    append_all(&mut out, local_app_data);
    append_all(&mut out, "\\VapourBox".as_bytes());
    out
}

/// The cache directory under the given local data directory.
pub fn cache_dir(local_app_data: &[u8]) -> (r: Vec<u8>)
    ensures
        r@ == local_app_data@ + "\\VapourBox\\Cache".spec_bytes(),
{
    let mut out: Vec<u8> = Vec::new();
    append_all(&mut out, local_app_data);
    append_all(&mut out, "\\VapourBox\\Cache".as_bytes());
    out
}

} // verus!
