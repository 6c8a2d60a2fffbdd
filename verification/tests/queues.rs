use elevator_bank::elevator::Direction;
use elevator_bank::passenger::Passenger;
use elevator_bank::queues::{LevelQueue, PendingRequestQueue};

fn taken_id(taken: Option<Passenger>) -> Option<usize> {
    taken.map(|passenger| *passenger.get_id())
}

#[test]
fn level_queue_takes_last_in_first_out() {
    let mut queue = LevelQueue::new();
    queue.add_passenger(Passenger::new(1, Direction::Up, 2, 0));
    queue.add_passenger(Passenger::new(2, Direction::Up, 1, 0));
    queue.add_passenger(Passenger::new(3, Direction::Up, 2, 0));
    assert_eq!(taken_id(queue.get_passenger(Direction::Up)), Some(3));
    assert_eq!(taken_id(queue.get_passenger(Direction::Up)), Some(2));
    assert_eq!(taken_id(queue.get_passenger(Direction::Up)), Some(1));
    assert_eq!(taken_id(queue.get_passenger(Direction::Up)), None);
}

#[test]
fn level_queue_down_side_takes_last_in_first_out() {
    let mut queue = LevelQueue::new();
    queue.add_passenger(Passenger::new(1, Direction::Down, 0, 2));
    queue.add_passenger(Passenger::new(2, Direction::Down, 1, 2));
    queue.add_passenger(Passenger::new(3, Direction::Down, 0, 2));
    assert_eq!(taken_id(queue.get_passenger(Direction::Down)), Some(3));
    assert_eq!(taken_id(queue.get_passenger(Direction::Down)), Some(2));
    assert_eq!(taken_id(queue.get_passenger(Direction::Down)), Some(1));
    assert_eq!(taken_id(queue.get_passenger(Direction::Down)), None);
}

#[test]
fn pending_queue_takes_last_in_first_out() {
    let mut pending = PendingRequestQueue::new();
    pending.add_request(Passenger::new(1, Direction::Up, 2, 0));
    pending.add_request(Passenger::new(2, Direction::Down, 0, 1));
    pending.add_request(Passenger::new(3, Direction::Up, 2, 1));
    assert_eq!(taken_id(pending.get_request()), Some(3));
    assert_eq!(taken_id(pending.get_request()), Some(2));
    assert_eq!(taken_id(pending.get_request()), Some(1));
    assert_eq!(taken_id(pending.get_request()), None);
}

#[test]
fn empty_queues_give_nothing() {
    let mut queue = LevelQueue::new();
    assert!(queue.get_passenger(Direction::Up).is_none());
    assert!(queue.get_passenger(Direction::Down).is_none());
    assert!(queue.get_up_queue().is_empty());
    assert!(queue.get_down_queue().is_empty());
    let mut pending = PendingRequestQueue::new();
    assert!(pending.get_request().is_none());
}

#[test]
fn a_passenger_joins_the_side_of_its_direction() {
    let mut queue = LevelQueue::new();
    queue.add_passenger(Passenger::new(1, Direction::Up, 2, 1));
    queue.add_passenger(Passenger::new(2, Direction::Down, 0, 1));
    queue.add_passenger(Passenger::new(3, Direction::Up, 2, 1));
    let up: Vec<usize> = queue.get_up_queue().iter().map(|p| *p.get_id()).collect();
    let down: Vec<usize> = queue.get_down_queue().iter().map(|p| *p.get_id()).collect();
    assert_eq!(up, vec![1, 3]);
    assert_eq!(down, vec![2]);
}

#[test]
fn taking_from_one_side_leaves_the_other() {
    let mut queue = LevelQueue::new();
    queue.add_passenger(Passenger::new(1, Direction::Up, 2, 1));
    queue.add_passenger(Passenger::new(2, Direction::Down, 0, 1));
    assert_eq!(taken_id(queue.get_passenger(Direction::Down)), Some(2));
    assert_eq!(taken_id(queue.get_passenger(Direction::Down)), None);
    assert_eq!(queue.get_up_queue().len(), 1);
    assert_eq!(taken_id(queue.get_passenger(Direction::Up)), Some(1));
}

#[test]
fn a_taken_passenger_is_the_one_that_was_added() {
    let mut queue = LevelQueue::new();
    queue.add_passenger(Passenger::new(5, Direction::Down, 1, 3));
    let taken = queue.get_passenger(Direction::Down).unwrap();
    assert_eq!(*taken.get_id(), 5);
    assert_eq!(*taken.get_direction(), Direction::Down);
    assert_eq!(*taken.get_destination(), 1);
    assert_eq!(*taken.get_current_level(), 3);
}

#[test]
fn add_after_take_is_taken_next() {
    let mut pending = PendingRequestQueue::new();
    pending.add_request(Passenger::new(1, Direction::Up, 2, 0));
    pending.add_request(Passenger::new(2, Direction::Up, 2, 0));
    assert_eq!(taken_id(pending.get_request()), Some(2));
    pending.add_request(Passenger::new(3, Direction::Up, 2, 0));
    assert_eq!(taken_id(pending.get_request()), Some(3));
    assert_eq!(taken_id(pending.get_request()), Some(1));
}

#[test]
fn all_within_tells_whether_every_request_is_in_the_building() {
    let mut pending = PendingRequestQueue::new();
    assert!(pending.all_within(0));
    pending.add_request(Passenger::new(1, Direction::Up, 2, 0));
    pending.add_request(Passenger::new(2, Direction::Down, 0, 2));
    assert!(pending.all_within(3));
    assert!(!pending.all_within(2));
    pending.add_request(Passenger::new(3, Direction::Down, 0, 3));
    assert!(!pending.all_within(3));
    assert!(pending.all_within(4));
}
