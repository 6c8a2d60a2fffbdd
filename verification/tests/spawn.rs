use elevator_bank::elevator::Direction;
use elevator_bank::passenger::PassengerState;
use elevator_bank::queues::{LevelQueue, PendingRequestQueue};
use elevator_bank::spawn::{deposit, destination_range, forced_direction, spawn_passenger};

#[test]
fn the_ends_of_the_building_force_the_direction() {
    assert_eq!(forced_direction(0, 3), Some(Direction::Up));
    assert_eq!(forced_direction(1, 3), None);
    assert_eq!(forced_direction(2, 3), Some(Direction::Down));
    assert_eq!(forced_direction(0, 2), Some(Direction::Up));
    assert_eq!(forced_direction(1, 2), Some(Direction::Down));
    assert_eq!(forced_direction(0, 1), Some(Direction::Up));
}

#[test]
fn destinations_lie_on_the_side_of_the_direction() {
    assert_eq!(destination_range(0, 3, Direction::Up), (1, 2));
    assert_eq!(destination_range(1, 3, Direction::Up), (2, 2));
    assert_eq!(destination_range(1, 3, Direction::Down), (0, 0));
    assert_eq!(destination_range(2, 3, Direction::Down), (0, 1));
    assert_eq!(destination_range(4, 10, Direction::Up), (5, 9));
    assert_eq!(destination_range(4, 10, Direction::Down), (0, 3));
}

#[test]
fn spawned_passengers_ask_for_a_ride_that_exists() {
    let mut rng = rand::thread_rng();
    for levels in 2..7usize {
        for id in 0..200usize {
            let passenger = spawn_passenger(&mut rng, id, levels);
            let level: usize = *passenger.get_current_level();
            let destination: usize = *passenger.get_destination();
            assert_eq!(*passenger.get_id(), id);
            assert_eq!(*passenger.get_state(), PassengerState::Idle);
            assert!(level < levels);
            assert!(destination < levels);
            match *passenger.get_direction() {
                Direction::Up => assert!(destination > level),
                Direction::Down => assert!(destination < level),
            }
            if level == 0 {
                assert_eq!(*passenger.get_direction(), Direction::Up);
            }
            if level == levels - 1 {
                assert_eq!(*passenger.get_direction(), Direction::Down);
            }
        }
    }
}

#[test]
fn spawned_passengers_come_from_every_floor_and_go_both_ways() {
    let mut rng = rand::thread_rng();
    let mut origins = [false; 5];
    let mut destinations = [false; 5];
    let mut up_from_the_middle = false;
    let mut down_from_the_middle = false;
    for id in 0..2000usize {
        let passenger = spawn_passenger(&mut rng, id, 5);
        origins[*passenger.get_current_level()] = true;
        destinations[*passenger.get_destination()] = true;
        if *passenger.get_current_level() == 2 {
            match *passenger.get_direction() {
                Direction::Up => up_from_the_middle = true,
                Direction::Down => down_from_the_middle = true,
            }
        }
    }
    assert_eq!(origins, [true; 5]);
    assert_eq!(destinations, [true; 5]);
    assert!(up_from_the_middle);
    assert!(down_from_the_middle);
}

#[test]
fn a_deposited_passenger_is_in_both_queues() {
    let mut rng = rand::thread_rng();
    let mut floor = LevelQueue::new();
    let mut pending = PendingRequestQueue::new();
    let first = spawn_passenger(&mut rng, 1, 3);
    let direction = *first.get_direction();
    let destination: usize = *first.get_destination();
    deposit(first, &mut floor, &mut pending);
    let queued = floor.get_passenger(direction).unwrap();
    let request = pending.get_request().unwrap();
    assert_eq!(*queued.get_id(), 1);
    assert_eq!(*request.get_id(), 1);
    assert_eq!(*queued.get_destination(), destination);
    assert_eq!(*request.get_destination(), destination);
    assert_eq!(*request.get_direction(), direction);
    assert!(floor.get_passenger(direction).is_none());
    assert!(pending.get_request().is_none());
}
