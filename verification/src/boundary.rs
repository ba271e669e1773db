use vstd::prelude::*;
use crate::errors::TunnelError;

verus! {

/// Liveness probe answer: callers check the fixed text to verify the
/// native library is loaded and callable.
pub fn ping() -> (r: String)
    ensures
        r@ == "wireguard_tunnel_jni OK"@,
{
    "wireguard_tunnel_jni OK".to_owned()
}

/// Sentinel for connect: operations with a natural sentinel both
/// raise the boundary failure signal and return it, so callers that
/// inspect only the return value still get a safe-to-check answer.
/// A successful connect hands its handle through; any failure is the
/// invalid handle value.
pub fn connect_code(r: &Result<i64, TunnelError>) -> (code: i64)
    ensures
        r matches Ok(h) ==> code == h,
        r is Err ==> code == -1,
{
    match r {
        Ok(h) => *h,
        Err(_) => -1,
    }
}

/// Sentinel for read: the byte count as the boundary's narrower
/// integer — zero is end-of-stream, distinct from error — and the
/// error sentinel for any failure. The count never exceeds the
/// caller's buffer capacity, which the boundary type bounds.
pub fn read_code(r: &Result<usize, String>) -> (code: i32)
    requires
        r matches Ok(n) ==> n <= i32::MAX,
    ensures
        r matches Ok(n) ==> code == n,
        r is Err ==> code == -1,
{
    match r {
        Ok(n) => *n as i32,
        Err(_) => -1,
    }
}

/// Sentinel for write: bytes written, or the error sentinel. The
/// count never exceeds the caller's buffer length, which the boundary
/// type bounds.
pub fn write_code(r: &Result<usize, String>) -> (code: i32)
    requires
        r matches Ok(n) ==> n <= i32::MAX,
    ensures
        r matches Ok(n) ==> code == n,
        r is Err ==> code == -1,
{
    match r {
        Ok(n) => *n as i32,
        Err(_) => -1,
    }
}

/// Sentinel for flush: success carries no payload, so the code is
/// zero on success and the error sentinel otherwise.
pub fn flush_code(r: &Result<(), TunnelError>) -> (code: i32)
    ensures
        r is Ok ==> code == 0,
        r is Err ==> code == -1,
{
    match r {
        Ok(_) => 0,
        Err(_) => -1,
    }
}

} // verus!
