use rand::rngs::OsRng;
use rand::RngCore;
use vstd::prelude::*;

use crate::error::NsmError;

verus! {

#[verifier::external_type_specification]
#[verifier::external_body]
pub struct ExRandError(rand::Error);

/// Relies on rand's `OsRng::try_fill_bytes`: it fills the buffer from the
/// operating system's entropy source or reports that source's error; the
/// buffer keeps its length either way.
#[verifier::external_body]
fn os_fill_bytes(buf: &mut Vec<u8>) -> (r: Result<(), rand::Error>)
    ensures
        final(buf)@.len() == old(buf)@.len(),
{
    OsRng.try_fill_bytes(buf.as_mut_slice())
}

/// `length` bytes from the operating system's entropy source.
pub fn random_bytes(length: usize) -> (r: Result<Vec<u8>, NsmError>)
    ensures
        r matches Ok(v) ==> v@.len() == length,
        r matches Err(e) ==> e is RandomFailure,
{
    let mut buf: Vec<u8> = vec![0u8; length];
    match os_fill_bytes(&mut buf) {
        Ok(()) => Ok(buf),
        Err(err) => Err(NsmError::RandomFailure(err.to_string())),
    }
}

} // verus!
