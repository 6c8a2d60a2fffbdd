use crate::elevator::Direction;
use crate::passenger::{Passenger, PassengerState};
use crate::queues::{LevelQueue, PendingRequestQueue};
use rand::rngs::ThreadRng;
use rand::Rng;
use vstd::prelude::*;

verus! {

/// `rand::rngs::ThreadRng`, the handle to the generator of the running
/// thread. Nothing is known of what is inside it.
#[verifier::external_type_specification]
#[verifier::external_body]
pub struct ExThreadRng(ThreadRng);

/// Draws a floor with `rand::Rng::gen_range`, called on the inclusive range
/// from `low` to `high`. That call panics on an empty range, which
/// `low <= high` rules out, and returns a value of the range. Which value is
/// up to the generator: nothing more is claimed.
#[verifier::external_body]
fn draw_level(rng: &mut ThreadRng, low: usize, high: usize) -> (level: usize)
    requires
        low <= high,
    ensures
        low <= level <= high,
{
    rng.gen_range(low..=high)
}

/// Flips a fair coin with `rand::Rng::gen_ratio`, called for one chance in
/// two. That call panics on a zero denominator or a numerator above it,
/// neither of which is passed. Nothing is claimed of the outcome.
#[verifier::external_body]
fn flip_coin(rng: &mut ThreadRng) -> bool {
    rng.gen_ratio(1, 2)
}

/// The direction that a floor leaves no choice about: up from the ground
/// floor, down from the top floor, and none in between.
pub open spec fn forced(level: usize, levels: usize) -> Option<Direction> {
    if level == 0 {
        Some(Direction::Up)
    } else if level + 1 == levels {
        Some(Direction::Down)
    } else {
        None
    }
}

/// Whether a passenger on `level` of a building with `levels` floors has a
/// floor to go to in `direction`.
pub open spec fn can_travel(level: usize, levels: usize, direction: Direction) -> bool {
    &&& level < levels
    &&& match direction {
        Direction::Up => level + 1 < levels,
        Direction::Down => level > 0,
    }
}

/// The lowest and the highest floor that a passenger on `level` going
/// `direction` may ask for.
pub open spec fn destinations(level: usize, levels: usize, direction: Direction) -> (int, int) {
    match direction {
        Direction::Up => (level + 1, levels - 1),
        Direction::Down => (0, level - 1),
    }
}

/// The direction of a passenger that appears on `level`, where the floor
/// decides it.
pub fn forced_direction(level: usize, levels: usize) -> (direction: Option<Direction>)
    requires
        level < levels,
    ensures
        direction == forced(level, levels),
{
    if level == 0 {
        Some(Direction::Up)
    } else if level == levels - 1 {
        Some(Direction::Down)
    } else {
        None
    }
}

/// The lowest and the highest floor that a passenger on `level` going
/// `direction` may ask for. Every floor between them lies strictly on the
/// side of `level` that `direction` names.
pub fn destination_range(level: usize, levels: usize, direction: Direction) -> (range: (
    usize,
    usize,
))
    requires
        can_travel(level, levels, direction),
    ensures
        (range.0 as int, range.1 as int) == destinations(level, levels, direction),
        range.0 <= range.1 < levels,
{
    match direction {
        Direction::Up => (level + 1, levels - 1),
        Direction::Down => (0, level - 1),
    }
}

/// Makes up passenger `id` for a building of `levels` floors: a floor drawn
/// from all of them, the direction that the floor forces or else a coin
/// flip, and a destination drawn from the floors that lie that way. Whatever
/// is drawn, the passenger waits on a floor of the building for a ride to
/// another floor of it, in the direction it declares.
pub fn spawn_passenger(rng: &mut ThreadRng, id: usize, levels: usize) -> (passenger: Passenger)
    requires
        levels >= 2,
    ensures
        passenger@.id == id,
        passenger@.state == PassengerState::Idle,
        passenger@.valid_for(levels),
        forced(passenger@.level, levels) matches Some(direction) ==> passenger@.direction
            == direction,
{
    let level = draw_level(rng, 0, levels - 1);
    let direction = match forced_direction(level, levels) {
        Some(direction) => direction,
        None => if flip_coin(rng) {
            Direction::Up
        } else {
            Direction::Down
        },
    };
    let (lowest, highest) = destination_range(level, levels, direction);
    let destination = draw_level(rng, lowest, highest);
    let mut passenger = Passenger::new(id, direction, destination, level);
    passenger.wait_for_elevator();
    passenger
}

/// Hands a waiting passenger to the building: it joins the queue of its
/// floor, `floor`, and its request joins the backlog, as the newest entry of
/// each.
pub fn deposit(passenger: Passenger, floor: &mut LevelQueue, pending: &mut PendingRequestQueue)
    requires
        passenger@.state == PassengerState::Idle,
    ensures
        final(floor)@ == old(floor)@.with_added(passenger@),
        final(pending)@ == old(pending)@.push(passenger@),
{
    let request = passenger.clone();
    floor.add_passenger(passenger);
    pending.add_request(request);
}

} // verus!
