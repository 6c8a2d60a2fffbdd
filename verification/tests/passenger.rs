use elevator_bank::elevator::Direction;
use elevator_bank::passenger::{Passenger, PassengerState};

#[test]
fn new_passenger_waits_where_it_was_made() {
    let passenger = Passenger::new(4, Direction::Down, 0, 2);
    assert_eq!(*passenger.get_id(), 4);
    assert_eq!(*passenger.get_direction(), Direction::Down);
    assert_eq!(*passenger.get_destination(), 0);
    assert_eq!(*passenger.get_current_level(), 2);
    assert_eq!(*passenger.get_state(), PassengerState::Idle);
}

#[test]
fn entering_makes_a_rider() {
    let mut passenger = Passenger::new(1, Direction::Up, 2, 0);
    passenger.enter_elevator();
    assert_eq!(*passenger.get_state(), PassengerState::InElevator);
}

#[test]
fn exiting_short_of_the_destination_waits_again() {
    let mut passenger = Passenger::new(1, Direction::Up, 2, 0);
    passenger.enter_elevator();
    passenger.update_current_level(1);
    passenger.exit_elevator();
    assert_eq!(*passenger.get_state(), PassengerState::Idle);
    assert_eq!(*passenger.get_current_level(), 1);
}

#[test]
fn waiting_again_changes_nothing() {
    let mut passenger = Passenger::new(8, Direction::Down, 1, 2);
    passenger.wait_for_elevator();
    passenger.wait_for_elevator();
    assert_eq!(*passenger.get_state(), PassengerState::Idle);
    assert_eq!(*passenger.get_current_level(), 2);
    assert_eq!(*passenger.get_destination(), 1);
}

#[test]
fn a_whole_ride_never_changes_the_request() {
    let mut passenger = Passenger::new(12, Direction::Up, 5, 1);
    passenger.wait_for_elevator();
    passenger.enter_elevator();
    passenger.update_current_level(2);
    passenger.update_current_level(3);
    passenger.exit_elevator();
    passenger.wait_for_elevator();
    assert_eq!(*passenger.get_id(), 12);
    assert_eq!(*passenger.get_direction(), Direction::Up);
    assert_eq!(*passenger.get_destination(), 5);
    assert_eq!(*passenger.get_current_level(), 3);
}

#[test]
fn update_current_level_moves_only_the_level() {
    let mut passenger = Passenger::new(3, Direction::Down, 0, 9);
    passenger.update_current_level(6);
    assert_eq!(*passenger.get_current_level(), 6);
    assert_eq!(*passenger.get_state(), PassengerState::Idle);
    assert_eq!(*passenger.get_direction(), Direction::Down);
}

#[test]
fn a_clone_is_the_same_passenger() {
    let mut passenger = Passenger::new(21, Direction::Up, 4, 3);
    passenger.enter_elevator();
    let copy = passenger.clone();
    assert_eq!(*copy.get_id(), 21);
    assert_eq!(*copy.get_direction(), Direction::Up);
    assert_eq!(*copy.get_destination(), 4);
    assert_eq!(*copy.get_current_level(), 3);
    assert_eq!(*copy.get_state(), PassengerState::InElevator);
}
