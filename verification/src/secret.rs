//! The secret number and how it is drawn.

use vstd::prelude::*;

verus! {

/// The smallest number that can be the secret.
pub const SECRET_MIN: u32 = 1;

/// The largest number that can be the secret.
pub const SECRET_MAX: u32 = 100;

/// Whether `n` can be the secret of a game.
pub open spec fn is_secret(n: u32) -> bool {
    SECRET_MIN <= n <= SECRET_MAX
}

/// Calls `gen_range(low..=high)` on `rand::thread_rng()`.
///
/// Trusted, not proved: the number that comes back lies between `low` and
/// `high`, both included. Nothing more is claimed of it, since it is drawn at
/// random. `rand` panics on an empty range, which `requires` leaves out.
#[verifier::external_body]
fn random_between(low: u32, high: u32) -> (n: u32)
    requires
        low <= high,
    ensures
        low <= n <= high,
{
    rand::Rng::gen_range(&mut rand::thread_rng(), low..=high)
}

/// Tells whether `n` can be the secret of a game.
pub fn in_secret_range(n: u32) -> (b: bool)
    ensures
        b == is_secret(n),
{
    SECRET_MIN <= n && n <= SECRET_MAX
}

/// Draws a secret number at random.
pub fn draw_secret() -> (secret: u32)
    ensures
        is_secret(secret),
{
    random_between(SECRET_MIN, SECRET_MAX)
}

} // verus!
