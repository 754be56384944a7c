//! Tenant ratings: a house is rated from one to ten when it is staked, and
//! the better the rating the less often a claim meets damage.

use vstd::prelude::*;
use crate::keystream::draw_u64;
use crate::keystream::first_draw;

verus! {

/// The rating that a draw gives: from one to ten.
pub open spec fn rating_of(draw: u64) -> u8 {
    (draw % 10 + 1) as u8
}

/// The roll that a draw gives: from one to a hundred.
pub open spec fn roll_of(draw: u64) -> u64 {
    (draw % 100 + 1) as u64
}

/// Whether a roll brings damage under a rating: it does when the roll is
/// above ten times the rating.
pub open spec fn damage_applies(rating: u8, roll: u64) -> bool {
    roll > rating * 10
}

/// The rating that `draw` gives.
pub fn rating_from_draw(draw: u64) -> (rating: u8)
    ensures
        rating == rating_of(draw),
        1 <= rating <= 10,
{
    (draw % 10 + 1) as u8
}

/// The roll that `draw` gives.
pub fn roll_from_draw(draw: u64) -> (roll: u64)
    ensures
        roll == roll_of(draw),
        1 <= roll <= 100,
{
    draw % 100 + 1
}

/// Whether `roll` brings damage under `rating`. Between one and a hundred,
/// a roll never brings damage under a rating of ten or more, and always
/// under a rating of zero.
pub fn damage_triggered(rating: u8, roll: u64) -> (damage: bool)
    ensures
        damage == damage_applies(rating, roll),
        rating >= 10 && roll <= 100 ==> !damage,
        rating == 0 && roll >= 1 ==> damage,
{
    roll > rating as u64 * 10
}

/// The rating drawn from `random_seed`: that of the first value of the key
/// stream that the seed opens.
pub fn assign_rating(random_seed: &[u8; 32]) -> (rating: u8)
    ensures
        rating == rating_of(first_draw(random_seed@)),
        1 <= rating <= 10,
{
    rating_from_draw(draw_u64(random_seed))
}

/// Whether the roll drawn from `random_seed` brings damage under `rating`.
pub fn resolve_damage_roll(rating: u8, random_seed: &[u8; 32]) -> (damage: bool)
    ensures
        damage == damage_applies(rating, roll_of(first_draw(random_seed@))),
        rating >= 10 ==> !damage,
        rating == 0 ==> damage,
{
    damage_triggered(rating, roll_from_draw(draw_u64(random_seed)))
}

} // verus!
