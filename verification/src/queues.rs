use crate::elevator::Direction;
use crate::passenger::{
    lemma_views_drop_last, lemma_views_push, views, Passenger, PassengerState, PassengerView,
};
use vstd::prelude::*;

verus! {

/// The entry that the next removal takes: the one added last.
pub open spec fn newest(entries: Seq<PassengerView>) -> Option<PassengerView> {
    if entries.len() > 0 {
        Some(entries.last())
    } else {
        None
    }
}

/// What is left once the newest entry is gone; an empty run stays empty.
pub open spec fn without_newest(entries: Seq<PassengerView>) -> Seq<PassengerView> {
    if entries.len() > 0 {
        entries.drop_last()
    } else {
        entries
    }
}

/// Every entry stands on a floor below `levels`.
pub open spec fn within(entries: Seq<PassengerView>, levels: usize) -> bool {
    forall|i: int| 0 <= i < entries.len() ==> (#[trigger] entries[i]).level < levels
}

/// Every entry waits on its floor and wants to go `direction`.
pub open spec fn waiting_for(entries: Seq<PassengerView>, direction: Direction) -> bool {
    forall|i: int|
        0 <= i < entries.len() ==> {
            &&& (#[trigger] entries[i]).state == PassengerState::Idle
            &&& entries[i].direction == direction
        }
}

/// Removals are last in, first out: the entry just added is the next one
/// taken, and taking it restores the run as it was.
pub proof fn lemma_last_in_first_out(entries: Seq<PassengerView>, added: PassengerView)
    ensures
        newest(entries.push(added)) == Some(added),
        without_newest(entries.push(added)) == entries,
{
    assert(entries.push(added).drop_last() =~= entries);
}

/// The passengers waiting on one floor, oldest first, by direction.
pub struct LevelQueueView {
    pub up: Seq<PassengerView>,
    pub down: Seq<PassengerView>,
}

impl LevelQueueView {
    /// The passengers that wait to go `direction`.
    pub open spec fn side(self, direction: Direction) -> Seq<PassengerView> {
        match direction {
            Direction::Up => self.up,
            Direction::Down => self.down,
        }
    }

    /// Each side holds waiting passengers of its own direction only.
    pub open spec fn wf(self) -> bool {
        &&& waiting_for(self.up, Direction::Up)
        &&& waiting_for(self.down, Direction::Down)
    }

    /// The floor with `direction`'s side replaced by `entries`.
    pub open spec fn with_side(self, direction: Direction, entries: Seq<PassengerView>) -> Self {
        match direction {
            Direction::Up => LevelQueueView { up: entries, ..self },
            Direction::Down => LevelQueueView { down: entries, ..self },
        }
    }

    /// The floor once `passenger` has joined the side of its direction.
    pub open spec fn with_added(self, passenger: PassengerView) -> Self {
        self.with_side(passenger.direction, self.side(passenger.direction).push(passenger))
    }

    /// The floor once the newest passenger for `direction` has left.
    pub open spec fn with_taken(self, direction: Direction) -> Self {
        self.with_side(direction, without_newest(self.side(direction)))
    }
}

/// On one floor, a passenger that joins is the next to be taken for its
/// direction, taking it restores the floor, and the other side never moves.
pub proof fn lemma_level_queue_last_in_first_out(floor: LevelQueueView, added: PassengerView)
    ensures
        newest(floor.with_added(added).side(added.direction)) == Some(added),
        floor.with_added(added).with_taken(added.direction) == floor,
        forall|other: Direction|
            other != added.direction ==> floor.with_added(added).side(other) == floor.side(
                other,
            ),
{
    lemma_last_in_first_out(floor.side(added.direction), added);
}

/// The passengers waiting on one floor, split by the direction they want.
pub struct LevelQueue {
    up_queue: Vec<Passenger>,
    down_queue: Vec<Passenger>,
}

impl View for LevelQueue {
    type V = LevelQueueView;

    closed spec fn view(&self) -> LevelQueueView {
        LevelQueueView { up: views(self.up_queue@), down: views(self.down_queue@) }
    }
}

impl LevelQueue {
    #[verifier::type_invariant]
    closed spec fn well_formed(&self) -> bool {
        self@.wf()
    }

    /// A floor with nobody waiting.
    pub fn new() -> (queue: Self)
        ensures
            queue@.up == Seq::<PassengerView>::empty(),
            queue@.down == Seq::<PassengerView>::empty(),
            queue@.wf(),
    {
        Self { up_queue: Vec::new(), down_queue: Vec::new() }
    }

    /// Puts a waiting passenger at the end of the side of its direction.
    pub fn add_passenger(&mut self, passenger: Passenger)
        requires
            passenger@.state == PassengerState::Idle,
        ensures
            final(self)@ == old(self)@.with_added(passenger@),
            final(self)@.wf(),
    {
        proof {
            use_type_invariant(&*self);
        }
        let mut side: Vec<Passenger> = Vec::new();
        match *passenger.get_direction() {
            Direction::Up => {
                core::mem::swap(&mut self.up_queue, &mut side);
                proof {
                    lemma_views_push(side@, passenger);
                }
                side.push(passenger);
                self.up_queue = side;
            },
            Direction::Down => {
                core::mem::swap(&mut self.down_queue, &mut side);
                proof {
                    lemma_views_push(side@, passenger);
                }
                side.push(passenger);
                self.down_queue = side;
            },
        }
    }

    /// Takes the passenger that joined `direction`'s side last, if any.
    pub fn get_passenger(&mut self, direction: Direction) -> (taken: Option<Passenger>)
        ensures
            taken.is_some() == (old(self)@.side(direction).len() > 0),
            taken matches Some(passenger) ==> {
                &&& newest(old(self)@.side(direction)) == Some(passenger@)
                &&& passenger@.state == PassengerState::Idle
                &&& passenger@.direction == direction
            },
            final(self)@ == old(self)@.with_taken(direction),
            final(self)@.wf(),
    {
        proof {
            use_type_invariant(&*self);
        }
        let mut side: Vec<Passenger> = Vec::new();
        match direction {
            Direction::Up => {
                core::mem::swap(&mut self.up_queue, &mut side);
                proof {
                    if side@.len() > 0 {
                        lemma_views_drop_last(side@);
                    }
                }
                let taken = side.pop();
                self.up_queue = side;
                taken
            },
            Direction::Down => {
                core::mem::swap(&mut self.down_queue, &mut side);
                proof {
                    if side@.len() > 0 {
                        lemma_views_drop_last(side@);
                    }
                }
                let taken = side.pop();
                self.down_queue = side;
                taken
            },
        }
    }

    /// The passengers waiting to go up, oldest first.
    pub fn get_up_queue(&self) -> (queue: &Vec<Passenger>)
        ensures
            views(queue@) == self@.up,
    {
        &self.up_queue
    }

    /// The passengers waiting to go down, oldest first.
    pub fn get_down_queue(&self) -> (queue: &Vec<Passenger>)
        ensures
            views(queue@) == self@.down,
    {
        &self.down_queue
    }
}

/// The backlog of requests that no car has answered yet.
pub struct PendingRequestQueue {
    requests: Vec<Passenger>,
}

impl View for PendingRequestQueue {
    type V = Seq<PassengerView>;

    closed spec fn view(&self) -> Seq<PassengerView> {
        views(self.requests@)
    }
}

impl PendingRequestQueue {
    /// An empty backlog.
    pub fn new() -> (queue: Self)
        ensures
            queue@ == Seq::<PassengerView>::empty(),
    {
        Self { requests: Vec::new() }
    }

    /// Records `passenger` as the newest request.
    pub fn add_request(&mut self, passenger: Passenger)
        ensures
            final(self)@ == old(self)@.push(passenger@),
    {
        proof {
            lemma_views_push(self.requests@, passenger);
        }
        self.requests.push(passenger);
    }

    /// Claims the newest request, if there is one.
    pub fn get_request(&mut self) -> (claimed: Option<Passenger>)
        ensures
            claimed.is_some() == (old(self)@.len() > 0),
            claimed matches Some(passenger) ==> newest(old(self)@) == Some(passenger@),
            final(self)@ == without_newest(old(self)@),
    {
        proof {
            if self.requests@.len() > 0 {
                lemma_views_drop_last(self.requests@);
            }
        }
        self.requests.pop()
    }

    /// Whether every request comes from a floor below `levels`.
    pub fn all_within(&self, levels: usize) -> (all: bool)
        ensures
            all == within(self@, levels),
    {
        let mut i: usize = 0;
        while i < self.requests.len()
            invariant
                i <= self.requests.len(),
                within(self@.take(i as int), levels),
            decreases self.requests.len() - i,
        {
            if *self.requests[i].get_current_level() >= levels {
                assert(self@[i as int].level >= levels);
                return false;
            }
            assert forall|j: int| 0 <= j < i + 1 implies (#[trigger] self@.take(i + 1)[j]).level
                < levels by {
                if j < i {
                    assert(self@.take(i as int)[j] == self@[j]);
                }
            }
            i += 1;
        }
        assert(self@.take(i as int) =~= self@);
        true
    }
}

} // verus!
