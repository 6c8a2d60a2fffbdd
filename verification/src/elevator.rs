use crate::passenger::{lemma_views_push, views, Passenger, PassengerState, PassengerView};
use crate::queues::{
    newest, within, without_newest, LevelQueue, LevelQueueView, PendingRequestQueue,
};
use crate::LEVELS;
use vstd::prelude::*;

verus! {

/// The most passengers a car carries at once.
pub const MAX_CAPACITY: usize = 2;

/// The way a passenger wants to go, or a car is heading.
#[derive(Clone, Copy, Debug, PartialEq, Eq, Structural)]
pub enum Direction {
    Up,
    Down,
}

/// The doors of a car. The only legal order is `Closed`, `Opening`, `Open`,
/// `Closing`, `Closed`.
#[derive(Clone, Copy, Debug, PartialEq, Eq, Structural)]
pub enum DoorState {
    Closed,
    Closing,
    Open,
    Opening,
}

/// Whether a passenger leaves a car standing on `level`: it does where that
/// is its destination.
pub open spec fn arrives_at(level: usize) -> spec_fn(PassengerView) -> bool {
    |p: PassengerView| p.destination == level
}

/// Whether a passenger stays in a car standing on `level`: it does where it
/// is bound for another floor.
pub open spec fn rides_past(level: usize) -> spec_fn(PassengerView) -> bool {
    |p: PassengerView| p.destination != level
}

/// The identities of a run of passengers, in the same order.
pub open spec fn ids(passengers: Seq<PassengerView>) -> Seq<usize> {
    passengers.map_values(|p: PassengerView| p.id)
}

/// The number of floors between two floors.
pub open spec fn distance(from: usize, to: usize) -> int {
    if to >= from {
        to - from
    } else {
        from - to
    }
}

/// What a car did once its doors had closed.
#[derive(Clone, Copy, Debug, PartialEq, Eq, Structural)]
pub enum Dispatch {
    /// With passengers aboard, the car moved one floor.
    Advanced,
    /// Empty, the car claimed the request of passenger `passenger` and drove
    /// `steps` floors to where that passenger waits.
    Summoned { passenger: usize, steps: usize },
    /// Empty and with nothing pending, the car stayed where it was.
    Idle,
}

/// What happened in one cycle of a car.
#[derive(Debug)]
pub struct CycleReport {
    /// The identities of the passengers let out, in boarding order.
    pub delivered: Vec<usize>,
    /// How many passengers boarded.
    pub boarded: usize,
    pub dispatch: Dispatch,
}

/// What a car is, as a plain record for contracts.
pub struct ElevatorView {
    pub id: usize,
    /// The floor the car is on.
    pub level: usize,
    /// Where the car intends to travel, if anywhere.
    pub direction: Option<Direction>,
    pub door: DoorState,
    /// The passengers in the car, in boarding order.
    pub onboard: Seq<PassengerView>,
    /// The number of floors the car serves: floors `0` to `levels - 1`.
    pub levels: usize,
}

impl ElevatorView {
    /// The car is on one of its floors, which are at least two, it carries no
    /// more than `MAX_CAPACITY` passengers, and each of them is riding.
    pub open spec fn wf(self) -> bool {
        &&& self.levels >= 2
        &&& self.level < self.levels
        &&& self.onboard.len() <= MAX_CAPACITY
        &&& forall|i: int|
            0 <= i < self.onboard.len() ==> (#[trigger] self.onboard[i]).state
                == PassengerState::InElevator
    }

    /// The same car with its doors in state `door`.
    pub open spec fn with_door(self, door: DoorState) -> ElevatorView {
        ElevatorView { door, ..self }
    }

    /// The identities of the passengers that have reached their destination,
    /// in boarding order.
    pub open spec fn delivered(self) -> Seq<usize> {
        ids(self.onboard.filter(arrives_at(self.level)))
    }

    /// The car once everyone bound for its floor has left; the others keep
    /// their places.
    pub open spec fn discharged(self) -> ElevatorView {
        ElevatorView { onboard: self.onboard.filter(rides_past(self.level)), ..self }
    }

    /// The free places in the car.
    pub open spec fn room(self) -> int {
        MAX_CAPACITY - self.onboard.len()
    }

    /// How many passengers board from `floor`: as many as wait for the car's
    /// direction, up to the free places; none for a car without a direction.
    pub open spec fn boarding(self, floor: LevelQueueView) -> int {
        match self.direction {
            Some(direction) => {
                let waiting = floor.side(direction).len() as int;
                if waiting <= self.room() {
                    waiting
                } else {
                    self.room()
                }
            },
            None => 0,
        }
    }

    /// The passengers that board from `floor`, in boarding order: the one
    /// that joined the queue last boards first. Each is now riding.
    pub open spec fn boarders(self, floor: LevelQueueView) -> Seq<PassengerView> {
        match self.direction {
            Some(direction) => {
                let side = floor.side(direction);
                Seq::new(
                    self.boarding(floor) as nat,
                    |i: int| side[side.len() - 1 - i].in_state(PassengerState::InElevator),
                )
            },
            None => Seq::empty(),
        }
    }

    /// The car once the passengers from `floor` have boarded behind those
    /// already in it.
    pub open spec fn boarded(self, floor: LevelQueueView) -> ElevatorView {
        ElevatorView { onboard: self.onboard + self.boarders(floor), ..self }
    }

    /// `floor` once the car has taken its boarders: the side of the car's
    /// direction loses its newest entries, the other side is untouched.
    pub open spec fn left_waiting(self, floor: LevelQueueView) -> LevelQueueView {
        match self.direction {
            Some(direction) => {
                let side = floor.side(direction);
                floor.with_side(direction, side.take(side.len() - self.boarding(floor)))
            },
            None => floor,
        }
    }

    /// The car once it has driven to the floor of `request` and taken over
    /// its direction.
    pub open spec fn summoned(self, request: PassengerView) -> ElevatorView {
        ElevatorView { level: request.level, direction: Some(request.direction), ..self }
    }

    /// The car after the stop at its floor: arrivals out, boarders from
    /// `floor` in.
    pub open spec fn served(self, floor: LevelQueueView) -> ElevatorView {
        self.discharged().boarded(floor)
    }

    /// What the car does after a stop, given the backlog `pending`: it
    /// advances if anybody is aboard, else answers the newest request, else
    /// idles.
    pub open spec fn dispatch(self, pending: Seq<PassengerView>) -> Dispatch {
        if self.onboard.len() > 0 {
            Dispatch::Advanced
        } else {
            match newest(pending) {
                Some(request) => Dispatch::Summoned {
                    passenger: request.id,
                    steps: distance(self.level, request.level) as usize,
                },
                None => Dispatch::Idle,
            }
        }
    }

    /// The car after doing what `dispatch` names.
    pub open spec fn dispatched(self, pending: Seq<PassengerView>) -> ElevatorView {
        if self.onboard.len() > 0 {
            self.moved()
        } else {
            match newest(pending) {
                Some(request) => self.summoned(request),
                None => self,
            }
        }
    }

    /// The backlog after the car's dispatch: an empty car claims the newest
    /// request, a carrying car leaves the backlog alone.
    pub open spec fn backlog(self, pending: Seq<PassengerView>) -> Seq<PassengerView> {
        if self.onboard.len() > 0 {
            pending
        } else {
            without_newest(pending)
        }
    }

    /// The car after one whole cycle at `floor` with backlog `pending`.
    pub open spec fn cycled(
        self,
        floor: LevelQueueView,
        pending: Seq<PassengerView>,
    ) -> ElevatorView {
        self.served(floor).dispatched(pending)
    }

    /// The direction the next step is taken in: a passenger riding alone
    /// decides it, otherwise the car's own intent does.
    pub open spec fn heading(self) -> Option<Direction> {
        if self.onboard.len() == 1 {
            Some(self.onboard[0].direction)
        } else {
            self.direction
        }
    }

    /// Whether the next step turns around, because the heading leads off the
    /// top or the bottom floor.
    pub open spec fn bounces(self) -> bool {
        match self.heading() {
            Some(Direction::Up) => self.level + 1 >= self.levels,
            Some(Direction::Down) => self.level == 0,
            None => false,
        }
    }

    /// The car's intent after the next step.
    pub open spec fn next_direction(self) -> Option<Direction> {
        match self.heading() {
            Some(Direction::Up) => if self.bounces() {
                Some(Direction::Down)
            } else {
                Some(Direction::Up)
            },
            Some(Direction::Down) => if self.bounces() {
                Some(Direction::Up)
            } else {
                Some(Direction::Down)
            },
            None => None,
        }
    }

    /// The floor the car is on after the next step: one floor along
    /// `next_direction`, or the same floor for a car without a heading.
    pub open spec fn next_level(self) -> int {
        match self.next_direction() {
            Some(Direction::Up) => self.level + 1,
            Some(Direction::Down) => self.level - 1,
            None => self.level as int,
        }
    }

    /// The car after one movement step, its passengers carried along.
    pub open spec fn moved(self) -> ElevatorView {
        let level = self.next_level() as usize;
        ElevatorView {
            level,
            direction: self.next_direction(),
            onboard: self.onboard.map_values(|p: PassengerView| p.at_level(level)),
            ..self
        }
    }
}

/// One car of the bank.
pub struct Elevator {
    id: usize,
    current_level: usize,
    passengers: Vec<Passenger>,
    direction: Option<Direction>,
    door_state: DoorState,
    levels: usize,
}

impl View for Elevator {
    type V = ElevatorView;

    closed spec fn view(&self) -> ElevatorView {
        ElevatorView {
            id: self.id,
            level: self.current_level,
            direction: self.direction,
            door: self.door_state,
            onboard: views(self.passengers@),
            levels: self.levels,
        }
    }
}

impl Elevator {
    #[verifier::type_invariant]
    closed spec fn well_formed(&self) -> bool {
        self@.wf()
    }

    /// An empty car with closed doors on the ground floor of a building of
    /// `LEVELS` floors, intending to go up.
    pub fn new(id: usize) -> (car: Self)
        ensures
            car@ == (ElevatorView {
                id,
                level: 0,
                direction: Some(Direction::Up),
                door: DoorState::Closed,
                onboard: Seq::empty(),
                levels: LEVELS,
            }),
            car@.wf(),
    {
        Self::with_levels(id, LEVELS)
    }

    /// As `new`, for a building of `levels` floors.
    pub fn with_levels(id: usize, levels: usize) -> (car: Self)
        requires
            levels >= 2,
        ensures
            car@ == (ElevatorView {
                id,
                level: 0,
                direction: Some(Direction::Up),
                door: DoorState::Closed,
                onboard: Seq::empty(),
                levels,
            }),
            car@.wf(),
    {
        let car = Self {
            id,
            current_level: 0,
            passengers: Vec::new(),
            direction: Some(Direction::Up),
            door_state: DoorState::Closed,
            levels,
        };
        assert(car@.onboard =~= Seq::empty());
        car
    }

    pub fn get_id(&self) -> (id: usize)
        ensures
            id == self@.id,
    {
        self.id
    }

    /// The floor the car is on, which is always one of its floors.
    pub fn get_current_level(&self) -> (level: usize)
        ensures
            level == self@.level,
            level < self@.levels,
    {
        proof {
            use_type_invariant(self);
        }
        self.current_level
    }

    pub fn get_direction(&self) -> (direction: Option<Direction>)
        ensures
            direction == self@.direction,
    {
        self.direction
    }

    pub fn get_door_state(&self) -> (door: DoorState)
        ensures
            door == self@.door,
    {
        self.door_state
    }

    /// The number of floors the car serves, which is at least two.
    pub fn get_levels(&self) -> (levels: usize)
        ensures
            levels == self@.levels,
            levels >= 2,
    {
        proof {
            use_type_invariant(self);
        }
        self.levels
    }

    /// The passengers in the car, in boarding order. Whenever a car is looked
    /// at it is well formed: on one of its floors, with never more than
    /// `MAX_CAPACITY` passengers, each of them riding.
    pub fn get_passengers(&self) -> (passengers: &Vec<Passenger>)
        ensures
            views(passengers@) == self@.onboard,
            passengers@.len() <= MAX_CAPACITY,
            self@.wf(),
    {
        proof {
            use_type_invariant(self);
        }
        &self.passengers
    }

    /// Opens the doors: `Closed`, through `Opening`, to `Open`.
    fn open_door(&mut self)
        requires
            old(self)@.door == DoorState::Closed,
        ensures
            final(self)@ == old(self)@.with_door(DoorState::Open),
    {
        proof {
            use_type_invariant(&*self);
        }
        self.door_state = DoorState::Opening;
        self.door_state = DoorState::Open;
    }

    /// Closes the doors: `Open`, through `Closing`, to `Closed`.
    fn close_door(&mut self)
        requires
            old(self)@.door == DoorState::Open,
        ensures
            final(self)@ == old(self)@.with_door(DoorState::Closed),
    {
        proof {
            use_type_invariant(&*self);
        }
        self.door_state = DoorState::Closing;
        self.door_state = DoorState::Closed;
    }

    /// Lets out every passenger whose destination is the car's floor, and
    /// returns their identities. They are gone for good: nothing hands them
    /// back.
    pub fn discharge(&mut self) -> (delivered: Vec<usize>)
        ensures
            final(self)@ == old(self)@.discharged(),
            delivered@ == old(self)@.delivered(),
            final(self)@.wf(),
    {
        proof {
            use_type_invariant(&*self);
        }
        let level = self.current_level;
        let mut riders: Vec<Passenger> = Vec::new();
        core::mem::swap(&mut self.passengers, &mut riders);
        let mut kept: Vec<Passenger> = Vec::new();
        let mut delivered: Vec<usize> = Vec::new();
        let mut i: usize = 0;
        assert forall|j: int| 0 <= j < riders.len() implies (#[trigger] riders@[j])@.state
            == PassengerState::InElevator by {
            assert(views(riders@)[j].state == PassengerState::InElevator);
        }
        while i < riders.len()
            invariant
                i <= riders.len(),
                kept.len() <= i,
                forall|j: int|
                    0 <= j < riders.len() ==> (#[trigger] riders@[j])@.state
                        == PassengerState::InElevator,
                forall|j: int|
                    0 <= j < kept.len() ==> (#[trigger] kept@[j])@.state
                        == PassengerState::InElevator,
                views(kept@) == views(riders@).take(i as int).filter(rides_past(level)),
                delivered@ == ids(views(riders@).take(i as int).filter(arrives_at(level))),
            decreases riders.len() - i,
        {
            proof {
                let seen = views(riders@).take(i + 1);
                assert(seen.drop_last() =~= views(riders@).take(i as int));
                assert(seen.last() == riders@[i as int]@);
                reveal(Seq::filter);
            }
            if *riders[i].get_destination() == level {
                proof {
                    let left = views(riders@).take(i as int).filter(arrives_at(level));
                    assert(ids(left.push(riders@[i as int]@)) =~= ids(left).push(
                        riders@[i as int]@.id,
                    ));
                }
                delivered.push(*riders[i].get_id());
            } else {
                let rider = riders[i].clone();
                proof {
                    lemma_views_push(kept@, rider);
                }
                kept.push(rider);
            }
            i += 1;
        }
        assert(views(riders@).take(i as int) =~= views(riders@));
        self.passengers = kept;
        proof {
            use_type_invariant(&*self);
        }
        delivered
    }

    /// Takes in passengers from `floor` while there is room and somebody
    /// waits for the car's direction, newest first, and returns how many
    /// boarded. Those waiting for the other direction are left alone.
    pub fn board(&mut self, floor: &mut LevelQueue) -> (count: usize)
        ensures
            final(self)@ == old(self)@.boarded(old(floor)@),
            final(floor)@ == old(self)@.left_waiting(old(floor)@),
            count == old(self)@.boarding(old(floor)@),
            final(self)@.wf(),
    {
        proof {
            use_type_invariant(&*self);
        }
        let ghost car = self@;
        let ghost before = floor@;
        let mut count: usize = 0;
        match self.direction {
            Some(direction) => {
                let ghost side = before.side(direction);
                let mut riders: Vec<Passenger> = Vec::new();
                core::mem::swap(&mut self.passengers, &mut riders);
                let mut more = true;
                proof {
                    assert(side.take(side.len() as int) =~= side);
                    assert(views(riders@) =~= car.onboard + Seq::new(
                        0nat,
                        |i: int| side[side.len() - 1 - i].in_state(PassengerState::InElevator),
                    ));
                }
                while more && riders.len() < MAX_CAPACITY
                    invariant
                        car.wf(),
                        car.direction == Some(direction),
                        side == before.side(direction),
                        count <= side.len(),
                        riders.len() == car.onboard.len() + count,
                        riders.len() <= MAX_CAPACITY,
                        !more ==> count == side.len(),
                        floor@ == before.with_side(direction, side.take(side.len() - count)),
                        views(riders@) == car.onboard + Seq::new(
                            count as nat,
                            |i: int| side[side.len() - 1 - i].in_state(PassengerState::InElevator),
                        ),
                    decreases MAX_CAPACITY - riders.len() + (if more { 1int } else { 0int }),
                {
                    let ghost waiting = floor@.side(direction);
                    match floor.get_passenger(direction) {
                        Some(passenger) => {
                            let mut passenger = passenger;
                            passenger.enter_elevator();
                            proof {
                                lemma_views_push(riders@, passenger);
                                assert(waiting =~= side.take(side.len() - count));
                                assert(waiting.last() == side[side.len() - 1 - count]);
                                assert(floor@ =~= before.with_side(
                                    direction,
                                    side.take(side.len() - (count + 1)),
                                )) by {
                                    assert(waiting.drop_last() =~= side.take(
                                        side.len() - (count + 1),
                                    ));
                                }
                                assert(views(riders@.push(passenger)) =~= car.onboard + Seq::new(
                                    (count + 1) as nat,
                                    |i: int|
                                        side[side.len() - 1 - i].in_state(
                                            PassengerState::InElevator,
                                        ),
                                ));
                            }
                            riders.push(passenger);
                            count += 1;
                        },
                        None => {
                            proof {
                                assert(waiting =~= side.take(side.len() - count));
                            }
                            more = false;
                        },
                    }
                }
                proof {
                    assert(count == car.boarding(before));
                    assert(views(riders@) =~= car.boarded(before).onboard);
                    assert forall|j: int| 0 <= j < riders.len() implies (#[trigger] views(
                        riders@,
                    )[j]).state == PassengerState::InElevator by {
                        if j < car.onboard.len() {
                            assert(views(riders@)[j] == car.onboard[j]);
                        }
                    }
                }
                self.passengers = riders;
            },
            None => {
                assert(self@.onboard =~= car.onboard + car.boarders(before));
            },
        }
        proof {
            use_type_invariant(&*self);
        }
        count
    }

    /// Moves the car one floor. A passenger riding alone sets the direction;
    /// at the top or bottom floor the car turns around and moves the other
    /// way in the same step.
    pub fn move_elevator(&mut self)
        ensures
            final(self)@ == old(self)@.moved(),
            final(self)@.wf(),
    {
        proof {
            use_type_invariant(&*self);
        }
        if self.passengers.len() == 1 {
            self.direction = Some(*self.passengers[0].get_direction());
        }
        match self.direction {
            Some(Direction::Up) => {
                if self.current_level + 1 < self.levels {
                    self.current_level += 1;
                } else {
                    self.direction = Some(Direction::Down);
                    self.current_level -= 1;
                }
            },
            Some(Direction::Down) => {
                if self.current_level > 0 {
                    self.current_level -= 1;
                } else {
                    self.direction = Some(Direction::Up);
                    self.current_level += 1;
                }
            },
            None => {},
        }
        self.update_passenger_levels();
        proof {
            use_type_invariant(&*self);
        }
    }

    /// Sets every passenger's floor to the car's.
    fn update_passenger_levels(&mut self)
        ensures
            final(self)@ == (ElevatorView {
                onboard: old(self)@.onboard.map_values(
                    |p: PassengerView| p.at_level(old(self)@.level),
                ),
                ..old(self)@
            }),
    {
        proof {
            use_type_invariant(&*self);
        }
        let level = self.current_level;
        let mut riders: Vec<Passenger> = Vec::new();
        core::mem::swap(&mut self.passengers, &mut riders);
        let ghost before = riders@;
        let mut i: usize = 0;
        while i < riders.len()
            invariant
                i <= riders.len(),
                riders.len() == before.len(),
                forall|j: int|
                    0 <= j < i ==> (#[trigger] riders@[j])@ == before[j]@.at_level(level),
                forall|j: int| i <= j < riders.len() ==> #[trigger] riders@[j] == before[j],
            decreases riders.len() - i,
        {
            riders[i].update_current_level(level);
            i += 1;
        }
        assert(views(riders@) =~= views(before).map_values(|p: PassengerView| p.at_level(level)));
        self.passengers = riders;
    }

    /// Drives an empty car straight to the floor where `passenger` waits, one
    /// floor per step, then takes over the passenger's direction. Nobody
    /// boards on the way. Returns the number of steps taken.
    pub fn move_to_level(&mut self, passenger: &Passenger) -> (steps: usize)
        requires
            old(self)@.onboard.len() == 0,
            passenger@.level < old(self)@.levels,
        ensures
            final(self)@ == old(self)@.summoned(passenger@),
            steps == distance(old(self)@.level, passenger@.level),
            final(self)@.wf(),
    {
        proof {
            use_type_invariant(&*self);
        }
        let ghost start = self@;
        let target_level = *passenger.get_current_level();
        let mut steps: usize = 0;
        while self.current_level != target_level
            invariant
                self@.wf(),
                target_level < start.levels,
                self@.onboard.len() == 0,
                self@ == (ElevatorView { level: self@.level, direction: self@.direction, ..start }),
                start.level <= target_level ==> start.level <= self@.level <= target_level && steps
                    == self@.level - start.level,
                start.level > target_level ==> target_level <= self@.level <= start.level && steps
                    == start.level - self@.level,
            decreases
                    if self@.level <= target_level {
                        target_level - self@.level
                    } else {
                        self@.level - target_level
                    },
        {
            if self.current_level < target_level {
                self.direction = Some(Direction::Up);
                self.move_elevator();
            } else {
                self.direction = Some(Direction::Down);
                self.move_elevator();
            }
            proof {
                assert(self@.onboard =~= start.onboard);
            }
            steps += 1;
        }
        self.direction = Some(*passenger.get_direction());
        proof {
            use_type_invariant(&*self);
        }
        steps
    }

    /// Runs one cycle of the car at its floor, whose queue is `floor`: opens
    /// the doors, lets out the arrivals, takes in boarders, closes the doors,
    /// and then advances one floor if anybody is aboard, or else claims the
    /// newest request in `pending` and drives to its floor, or else idles.
    /// Nothing is ever put into either queue.
    pub fn move_and_handle_passengers(
        &mut self,
        floor: &mut LevelQueue,
        pending: &mut PendingRequestQueue,
    ) -> (report: CycleReport)
        requires
            old(self)@.door == DoorState::Closed,
            within(old(pending)@, old(self)@.levels),
        ensures
            final(self)@ == old(self)@.cycled(old(floor)@, old(pending)@),
            final(floor)@ == old(self)@.discharged().left_waiting(old(floor)@),
            final(pending)@ == old(self)@.served(old(floor)@).backlog(old(pending)@),
            report.delivered@ == old(self)@.delivered(),
            report.boarded == old(self)@.discharged().boarding(old(floor)@),
            report.dispatch == old(self)@.served(old(floor)@).dispatch(old(pending)@),
            final(self)@.wf(),
    {
        let ghost car = self@;
        let ghost queue = floor@;
        self.open_door();
        let delivered = self.discharge();
        let boarded = self.board(floor);
        self.close_door();
        proof {
            assert(car.with_door(DoorState::Open).discharged().with_door(DoorState::Closed)
                == car.discharged());
            assert(self@ == car.served(queue));
        }
        let dispatch = if self.passengers.len() == 0 {
            match pending.get_request() {
                Some(passenger) => {
                    let steps = self.move_to_level(&passenger);
                    Dispatch::Summoned { passenger: *passenger.get_id(), steps }
                },
                None => Dispatch::Idle,
            }
        } else {
            self.move_elevator();
            Dispatch::Advanced
        };
        proof {
            use_type_invariant(&*self);
        }
        CycleReport { delivered, boarded, dispatch }
    }
}

/// Letting the arrivals out keeps a car well formed and never adds to it,
/// and nobody who stays aboard is bound for the floor the car stands on.
pub proof fn lemma_discharge(car: ElevatorView)
    requires
        car.wf(),
    ensures
        car.discharged().wf(),
        car.discharged().onboard.len() <= car.onboard.len(),
        forall|i: int|
            0 <= i < car.discharged().onboard.len() ==> (
            #[trigger] car.discharged().onboard[i]).destination != car.level,
        forall|i: int|
            0 <= i < car.discharged().onboard.len() ==> car.onboard.contains(
                #[trigger] car.discharged().onboard[i],
            ),
{
    let stay = rides_past(car.level);
    let kept = car.onboard.filter(stay);
    car.onboard.lemma_filter_len(stay);
    assert forall|i: int| 0 <= i < kept.len() implies (#[trigger] kept[i]).destination != car.level
        && kept[i].state == PassengerState::InElevator && car.onboard.contains(kept[i]) by {
        car.onboard.lemma_filter_pred(stay, i);
        assert(kept.contains(kept[i]));
        car.onboard.lemma_filter_contains_rev(stay, kept[i]);
    }
}

/// Boarding never fills a car beyond `MAX_CAPACITY`: it takes in exactly as
/// many as wait for the car's direction, up to the free places, and leaves
/// both the car and the floor well formed.
pub proof fn lemma_board(car: ElevatorView, floor: LevelQueueView)
    requires
        car.wf(),
        floor.wf(),
    ensures
        car.boarded(floor).wf(),
        car.boarded(floor).onboard.len() == car.onboard.len() + car.boarding(floor),
        car.boarded(floor).onboard.len() <= MAX_CAPACITY,
        0 <= car.boarding(floor) <= car.room(),
        car.left_waiting(floor).wf(),
{
    let after = car.boarded(floor).onboard;
    assert forall|i: int| 0 <= i < after.len() implies (#[trigger] after[i]).state
        == PassengerState::InElevator by {
        if i < car.onboard.len() {
            assert(after[i] == car.onboard[i]);
        }
    }
}

/// A movement step never takes a car out of its building: afterwards it
/// stands on one of its floors, and it is well formed.
pub proof fn lemma_move_stays_in_building(car: ElevatorView)
    requires
        car.wf(),
    ensures
        0 <= car.next_level() < car.levels,
        car.moved().level == car.next_level(),
        car.moved().wf(),
{
}

/// A car with a heading never stalls: every step takes it exactly one floor
/// away, in the direction it has after the step.
pub proof fn lemma_move_is_one_floor(car: ElevatorView)
    requires
        car.wf(),
        car.heading().is_some(),
    ensures
        car.moved().direction == Some(Direction::Up) ==> car.moved().level == car.level + 1,
        car.moved().direction == Some(Direction::Down) ==> car.moved().level == car.level - 1,
        car.moved().direction.is_some(),
{
}

/// A car heading up on the top floor turns around and moves down one floor
/// in the same step; a car heading down on the ground floor turns around
/// and moves up one floor. Anywhere else the car keeps its heading.
pub proof fn lemma_bounce(car: ElevatorView)
    requires
        car.wf(),
    ensures
        car.heading() == Some(Direction::Up) && car.level == car.levels - 1 ==> {
            &&& car.moved().direction == Some(Direction::Down)
            &&& car.moved().level == car.level - 1
        },
        car.heading() == Some(Direction::Down) && car.level == 0 ==> {
            &&& car.moved().direction == Some(Direction::Up)
            &&& car.moved().level == car.level + 1
        },
        !car.bounces() ==> car.moved().direction == car.heading(),
{
}

/// A passenger riding alone decides where the car goes next, whatever the
/// car intended: the step is the one of a car that intends the passenger's
/// direction, and, short of the end of the building, the car ends up
/// intending that direction too.
pub proof fn lemma_lone_passenger_decides(car: ElevatorView)
    requires
        car.wf(),
        car.onboard.len() == 1,
    ensures
        car.heading() == Some(car.onboard[0].direction),
        car.moved() == (ElevatorView {
            direction: Some(car.onboard[0].direction),
            ..car
        }).moved(),
        !car.bounces() ==> car.moved().direction == Some(car.onboard[0].direction),
        car.onboard[0].direction == Direction::Up && car.level + 1 < car.levels
            ==> car.moved().level == car.level + 1,
        car.onboard[0].direction == Direction::Down && car.level > 0
            ==> car.moved().level == car.level - 1,
{
}

/// When a stop leaves exactly one passenger aboard, the rest of the cycle is
/// one step in that passenger's direction, whatever the car intended.
pub proof fn lemma_cycle_with_one_aboard(
    car: ElevatorView,
    floor: LevelQueueView,
    pending: Seq<PassengerView>,
)
    requires
        car.wf(),
        floor.wf(),
        car.served(floor).onboard.len() == 1,
    ensures
        car.cycled(floor, pending) == car.served(floor).moved(),
        car.served(floor).heading() == Some(car.served(floor).onboard[0].direction),
        car.served(floor).backlog(pending) == pending,
{
    lemma_discharge(car);
    lemma_board(car.discharged(), floor);
    lemma_lone_passenger_decides(car.served(floor));
}

/// Answering a request for a floor of the building leaves a car well formed
/// on that floor.
pub proof fn lemma_summoned(car: ElevatorView, request: PassengerView)
    requires
        car.wf(),
        request.level < car.levels,
    ensures
        car.summoned(request).wf(),
        car.summoned(request).level == request.level,
{
}

/// A whole cycle keeps everything in order: the car is well formed, so on
/// one of its floors with at most `MAX_CAPACITY` riding passengers, the
/// floor's queue is well formed, and the backlog still asks for floors of
/// the building only.
pub proof fn lemma_cycle(car: ElevatorView, floor: LevelQueueView, pending: Seq<PassengerView>)
    requires
        car.wf(),
        floor.wf(),
        within(pending, car.levels),
    ensures
        car.served(floor).wf(),
        car.cycled(floor, pending).wf(),
        car.cycled(floor, pending).level < car.levels,
        car.cycled(floor, pending).onboard.len() <= MAX_CAPACITY,
        car.discharged().left_waiting(floor).wf(),
        within(car.served(floor).backlog(pending), car.levels),
{
    lemma_discharge(car);
    lemma_board(car.discharged(), floor);
    let stopped = car.served(floor);
    if stopped.onboard.len() > 0 {
        lemma_move_stays_in_building(stopped);
    } else if pending.len() > 0 {
        lemma_summoned(stopped, pending.last());
    }
}

/// Whoever leaves a car is gone for good. A cycle puts nothing into a queue:
/// afterwards each side of the floor's queue, and the backlog, is what it
/// was before with some of its newest entries removed, and the side that the
/// car does not serve is untouched.
pub proof fn lemma_cycle_adds_to_no_queue(
    car: ElevatorView,
    floor: LevelQueueView,
    pending: Seq<PassengerView>,
)
    requires
        car.wf(),
        floor.wf(),
    ensures
        forall|side: Direction| #[trigger]
            car.discharged().left_waiting(floor).side(side).is_prefix_of(floor.side(side)),
        forall|side: Direction|
            car.direction != Some(side) ==> #[trigger] car.discharged().left_waiting(floor).side(
                side,
            ) == floor.side(side),
        car.served(floor).backlog(pending).is_prefix_of(pending),
{
    lemma_discharge(car);
    lemma_board(car.discharged(), floor);
    let after = car.discharged().left_waiting(floor);
    assert forall|side: Direction| #[trigger] after.side(side).is_prefix_of(floor.side(side)) by {
        assert(after.side(side) =~= floor.side(side).subrange(0, after.side(side).len() as int));
    }
    let backlog = car.served(floor).backlog(pending);
    assert(backlog =~= pending.subrange(0, backlog.len() as int));
}

/// A cycle changes no request. Each passenger aboard afterwards was aboard
/// before or waited on the floor for the car's direction, and has the
/// identity, direction and destination it had then.
pub proof fn lemma_cycle_keeps_requests(
    car: ElevatorView,
    floor: LevelQueueView,
    pending: Seq<PassengerView>,
    i: int,
)
    requires
        car.wf(),
        floor.wf(),
        0 <= i < car.cycled(floor, pending).onboard.len(),
    ensures
        ({
            let rider = car.cycled(floor, pending).onboard[i];
            ||| exists|j: int|
                0 <= j < car.onboard.len() && rider.same_request(#[trigger] car.onboard[j])
            ||| car.direction matches Some(side) && exists|j: int|
                0 <= j < floor.side(side).len() && rider.same_request(
                    #[trigger] floor.side(side)[j],
                )
        }),
{
    lemma_discharge(car);
    lemma_board(car.discharged(), floor);
    let kept = car.discharged().onboard;
    let stopped = car.served(floor);
    let rider = car.cycled(floor, pending).onboard[i];
    assert(rider.same_request(stopped.onboard[i]));
    if i < kept.len() {
        assert(stopped.onboard[i] == kept[i]);
        assert(car.onboard.contains(kept[i]));
        let j = choose|j: int| 0 <= j < car.onboard.len() && car.onboard[j] == kept[i];
        assert(rider.same_request(car.onboard[j]));
    } else {
        let side = car.direction->0;
        let k = floor.side(side).len() - 1 - (i - kept.len());
        assert(stopped.onboard[i] == floor.side(side)[k].in_state(PassengerState::InElevator));
        assert(rider.same_request(floor.side(side)[k]));
    }
}

} // verus!
