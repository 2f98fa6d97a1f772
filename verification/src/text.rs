use vstd::prelude::*;
use vstd::utf8::valid_utf8;

verus! {

/// Relies on `std::str::from_utf8`: it returns `Ok` exactly when the bytes
/// are a valid UTF-8 encoding.
#[verifier::external_body]
pub(crate) fn is_utf8(bytes: &Vec<u8>) -> (r: bool)
    ensures
        r == valid_utf8(bytes@),
{
    std::str::from_utf8(bytes.as_slice()).is_ok()
}

} // verus!
