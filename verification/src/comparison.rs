//! Comparing a guess with the secret number.

use std::cmp::Ordering;
use vstd::prelude::*;

verus! {

/// How `input` stands to `secret_number` in the usual order of the integers:
/// `Less` when the guess is below the secret, `Greater` when it is above,
/// `Equal` when it hits.
pub open spec fn ordering_of_guess(secret_number: u32, input: u32) -> Ordering {
    if input < secret_number {
        Ordering::Less
    } else if input > secret_number {
        Ordering::Greater
    } else {
        Ordering::Equal
    }
}

/// Whether a comparison result ends the game: only `Equal` does.
pub open spec fn is_hit(comparison: Ordering) -> bool {
    comparison == Ordering::Equal
}

/// Compares the guess `input` with `secret_number`.
pub fn get_ordering(secret_number: u32, input: u32) -> (result: Ordering)
    ensures
        result == ordering_of_guess(secret_number, input),
        result == Ordering::Equal <==> input == secret_number,
        result == Ordering::Greater <==> input > secret_number,
        result == Ordering::Less <==> input < secret_number,
{
    input.cmp(&secret_number)
}

/// Tells whether the player has found the number.
pub fn has_found(comparison: Ordering) -> (found: bool)
    ensures
        found == is_hit(comparison),
        found <==> comparison == Ordering::Equal,
        comparison == Ordering::Less ==> !found,
        comparison == Ordering::Greater ==> !found,
{
    matches!(comparison, Ordering::Equal)
}

/// Comparing is a function of its two arguments: whatever two calls of
/// `get_ordering` on the same secret and the same guess return, they return
/// the same.
pub proof fn get_ordering_is_repeatable(
    secret_number: u32,
    input: u32,
    first: Ordering,
    second: Ordering,
)
    requires
        call_ensures(get_ordering, (secret_number, input), first),
        call_ensures(get_ordering, (secret_number, input), second),
    ensures
        first == second,
{
}

/// Deciding the end of the game is a function of the comparison result:
/// whatever two calls of `has_found` on the same result return, they return
/// the same.
pub proof fn has_found_is_repeatable(comparison: Ordering, first: bool, second: bool)
    requires
        call_ensures(has_found, (comparison,), first),
        call_ensures(has_found, (comparison,), second),
    ensures
        first == second,
{
}

} // verus!
