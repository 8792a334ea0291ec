//! One-time codes for e-mail verification.

use vstd::prelude::*;
use rand::Rng;
use crate::text::{decimal, decimal_string};

verus! {

/// Minutes a one-time code stays valid.
pub const OTP_EXPIRATION_MINUTES: i64 = 10;

/// Relies on `rand::rng` and `Rng::random_range`: a value drawn from
/// `low..high`. It panics on an empty range, which the precondition rules out.
#[verifier::external_body]
fn random_in(low: u32, high: u32) -> (r: u32)
    requires
        low < high,
    ensures
        low <= r < high,
{
    rand::rng().random_range(low..high)
}

/// A random six-digit code, from 100000 to 999998.
pub fn generate_otp_code() -> (r: String)
    ensures
        exists|n: nat| 100000 <= n < 999999 && r@ == decimal(n),
{
    let code = random_in(100000, 999999);
    decimal_string(code as u64)
}

} // verus!
