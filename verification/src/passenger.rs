use crate::elevator::Direction;
use vstd::prelude::*;

verus! {

/// Where a passenger is in its ride. The only legal order is
/// `Idle`, `EnteringElevator`, `InElevator`, `ExitingElevator`, `Idle`.
#[derive(Clone, Copy, Debug, PartialEq, Eq, Structural)]
pub enum PassengerState {
    Idle,
    InElevator,
    EnteringElevator,
    ExitingElevator,
}

/// What a passenger is, as a plain record for contracts.
pub struct PassengerView {
    pub id: usize,
    pub direction: Direction,
    pub destination: usize,
    pub state: PassengerState,
    pub level: usize,
}

impl PassengerView {
    /// The destination lies strictly on the side of `level` that `direction` names.
    pub open spec fn heads_to_destination(self) -> bool {
        match self.direction {
            Direction::Up => self.destination > self.level,
            Direction::Down => self.destination < self.level,
        }
    }

    /// The passenger stands on, and wants to reach, a floor of a building with
    /// `levels` floors, and its direction leads to its destination.
    pub open spec fn valid_for(self, levels: usize) -> bool {
        &&& self.level < levels
        &&& self.destination < levels
        &&& self.heads_to_destination()
    }

    /// The two records are of one request: the same passenger, direction and
    /// destination.
    pub open spec fn same_request(self, other: PassengerView) -> bool {
        &&& self.id == other.id
        &&& self.direction == other.direction
        &&& self.destination == other.destination
    }

    /// The same passenger standing on floor `level`.
    pub open spec fn at_level(self, level: usize) -> PassengerView {
        PassengerView { level, ..self }
    }

    /// The same passenger in state `state`.
    pub open spec fn in_state(self, state: PassengerState) -> PassengerView {
        PassengerView { state, ..self }
    }
}

/// What a passenger asks for is fixed when it is made: being carried to
/// another floor or passing to another state changes neither who it is, nor
/// the direction it declared, nor its destination.
pub proof fn lemma_request_is_fixed(passenger: PassengerView, level: usize, state: PassengerState)
    ensures
        passenger.at_level(level).same_request(passenger),
        passenger.in_state(state).same_request(passenger),
{
}

/// The records of a run of passengers, in the same order.
pub open spec fn views(passengers: Seq<Passenger>) -> Seq<PassengerView> {
    passengers.map_values(|p: Passenger| p@)
}

/// Appending a passenger appends its record.
pub proof fn lemma_views_push(passengers: Seq<Passenger>, passenger: Passenger)
    ensures
        views(passengers.push(passenger)) == views(passengers).push(passenger@),
{
    assert(views(passengers.push(passenger)) =~= views(passengers).push(passenger@));
}

/// Removing the last passenger removes the last record, which is its own.
pub proof fn lemma_views_drop_last(passengers: Seq<Passenger>)
    requires
        passengers.len() > 0,
    ensures
        views(passengers.drop_last()) == views(passengers).drop_last(),
        views(passengers).last() == passengers.last()@,
{
    assert(views(passengers.drop_last()) =~= views(passengers).drop_last());
}

/// A request for a ride, and then the rider.
#[derive(Debug)]
pub struct Passenger {
    id: usize,
    direction: Direction,
    destination: usize,
    passenger_state: PassengerState,
    current_level: usize,
}

impl View for Passenger {
    type V = PassengerView;

    closed spec fn view(&self) -> PassengerView {
        PassengerView {
            id: self.id,
            direction: self.direction,
            destination: self.destination,
            state: self.passenger_state,
            level: self.current_level,
        }
    }
}

impl Clone for Passenger {
    fn clone(&self) -> (copy: Self)
        ensures
            copy@ == self@,
    {
        Passenger {
            id: self.id,
            direction: self.direction,
            destination: self.destination,
            passenger_state: self.passenger_state,
            current_level: self.current_level,
        }
    }
}

impl Passenger {
    /// A passenger waiting on `current_level`.
    pub fn new(
        id: usize,
        direction: Direction,
        destination: usize,
        current_level: usize,
    ) -> (passenger: Self)
        ensures
            passenger@ == (PassengerView {
                id,
                direction,
                destination,
                state: PassengerState::Idle,
                level: current_level,
            }),
    {
        Self { id, direction, destination, passenger_state: PassengerState::Idle, current_level }
    }

    /// Records that the car carrying the passenger has reached `new_level`.
    pub fn update_current_level(&mut self, new_level: usize)
        ensures
            final(self)@ == old(self)@.at_level(new_level),
    {
        self.current_level = new_level;
    }

    /// Boards: `Idle`, through `EnteringElevator`, to `InElevator`.
    pub fn enter_elevator(&mut self)
        requires
            old(self)@.state == PassengerState::Idle,
        ensures
            final(self)@ == old(self)@.in_state(PassengerState::InElevator),
    {
        self.passenger_state = PassengerState::EnteringElevator;
        self.passenger_state = PassengerState::InElevator;
    }

    /// Settles on the floor to wait; legal for a passenger that is not in a car.
    pub fn wait_for_elevator(&mut self)
        requires
            old(self)@.state == PassengerState::Idle || old(self)@.state
                == PassengerState::ExitingElevator,
        ensures
            final(self)@ == old(self)@.in_state(PassengerState::Idle),
    {
        self.passenger_state = PassengerState::Idle;
    }

    /// Leaves the car short of the destination: `InElevator`, through
    /// `ExitingElevator`, to `Idle`.
    pub fn exit_elevator(&mut self)
        requires
            old(self)@.state == PassengerState::InElevator,
        ensures
            final(self)@ == old(self)@.in_state(PassengerState::Idle),
    {
        self.passenger_state = PassengerState::ExitingElevator;
        self.passenger_state = PassengerState::Idle;
    }

    pub fn get_direction(&self) -> (direction: &Direction)
        ensures
            *direction == self@.direction,
    {
        &self.direction
    }

    pub fn get_current_level(&self) -> (level: &usize)
        ensures
            *level == self@.level,
    {
        &self.current_level
    }

    pub fn get_destination(&self) -> (destination: &usize)
        ensures
            *destination == self@.destination,
    {
        &self.destination
    }

    pub fn get_id(&self) -> (id: &usize)
        ensures
            *id == self@.id,
    {
        &self.id
    }

    pub fn get_state(&self) -> (state: &PassengerState)
        ensures
            *state == self@.state,
    {
        &self.passenger_state
    }
}

} // verus!
