//! Cryptographically secure random bytes from the platform generator.

use vstd::prelude::*;
use crate::error::AppError;
use crate::text::concat;

verus! {

/// The error type of the `rand` crate.
#[verifier::external_type_specification]
#[verifier::external_body]
pub struct ExRandError(rand::Error);

/// Fills a fresh buffer of `n` bytes from the operating system's CSPRNG
/// (`rand::rngs::OsRng::try_fill_bytes`). The contract claims only the
/// length: the bytes themselves are random.
#[verifier::external_body]
fn os_random_bytes(n: usize) -> (r: Result<Vec<u8>, rand::Error>)
    ensures
        r matches Ok(v) ==> v@.len() == n,
{
    let mut buf = vec![0u8; n];
    match rand::RngCore::try_fill_bytes(&mut rand::rngs::OsRng, &mut buf) {
        Ok(()) => Ok(buf),
        Err(e) => Err(e),
    }
}

/// The `Debug` rendering of a generator error (`format!("{e:?}")`).
#[verifier::external_body]
fn describe_random_error(e: &rand::Error) -> String {
    format!("{e:?}")
}

/// The internal error a failed random generator is answered with, naming
/// the generator's error.
pub open spec fn is_random_failure(e: AppError) -> bool {
    e matches AppError::Internal(m) && exists|detail: Seq<char>| m@ == "getRandomValues failed: "@ + detail
}

/// The text of a random-generator failure as `AppError::describe` gives
/// it: `Internal error: getRandomValues failed: ` and the generator's error.
pub open spec fn is_random_failure_text(m: Seq<char>) -> bool {
    exists|detail: Seq<char>| m == "Internal error: getRandomValues failed: "@ + detail
}

/// The text of a random-generator failure.
pub fn describe_random_failure(e: &AppError) -> (r: String)
    requires
        is_random_failure(*e),
    ensures
        is_random_failure_text(r@),
{
    let r = e.describe();
    proof {
        reveal_strlit("Internal error: ");
        reveal_strlit("getRandomValues failed: ");
        reveal_strlit("Internal error: getRandomValues failed: ");
        if let AppError::Internal(m) = e {
            let detail = choose|detail: Seq<char>| m@ == "getRandomValues failed: "@ + detail;
            assert(r@ =~= "Internal error: getRandomValues failed: "@ + detail);
        }
    }
    r
}

/// `n` random bytes, or an internal error when the generator fails.
pub fn random_bytes(n: usize) -> (r: Result<Vec<u8>, AppError>)
    ensures
        r matches Ok(v) ==> v@.len() == n,
        r matches Err(e) ==> is_random_failure(e),
{
    match os_random_bytes(n) {
        Ok(v) => Ok(v),
        Err(e) => {
            let detail = describe_random_error(&e);
            Err(AppError::Internal(concat("getRandomValues failed: ", detail.as_str())))
        },
    }
}

} // verus!
