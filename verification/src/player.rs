//! Workers, and the player who owns them together with a stockpile, a money
//! balance and a queue of builds in progress.

use std::collections::VecDeque;
use vstd::prelude::*;
use crate::production::{Duration, ProductionItem};
use crate::resource::{Amounts, Resource, ResourceAmount};

verus! {

/// What a worker is doing.
#[derive(Clone, Copy, Debug, PartialEq, Eq, Structural)]
pub enum WorkerAction {
    Gather(Resource),
    Idle,
}

/// A unit of labour. A worker has no identity beyond its place in its
/// owner's roster.
#[derive(Clone, Copy, Debug, PartialEq, Eq, Structural)]
pub struct Worker {
    pub current_action: WorkerAction,
}

impl Worker {
    /// A worker with nothing to do.
    pub fn new() -> (worker: Worker)
        ensures
            worker.current_action == WorkerAction::Idle,
    {
        Worker { current_action: WorkerAction::Idle }
    }
}

/// The id of a player: its position among the players of a game.
pub type PlayerId = u8;

/// Whether some worker of `workers` is busy with `action`.
pub open spec fn has_worker(workers: Seq<Worker>, action: WorkerAction) -> bool {
    exists|i: int| 0 <= i < workers.len() && (#[trigger] workers[i]).current_action == action
}

/// What `worker` adds to the count of the workers busy with `action`: one
/// if it is busy with it, nothing if it is not.
pub open spec fn counts_as(worker: Worker, action: WorkerAction) -> nat {
    if worker.current_action == action {
        1
    } else {
        0
    }
}

/// How many workers of `workers` are busy with `action`.
pub open spec fn count_action(workers: Seq<Worker>, action: WorkerAction) -> nat
    decreases workers.len(),
{
    if workers.len() == 0 {
        0
    } else {
        count_action(workers.drop_last(), action) + counts_as(workers.last(), action)
    }
}

/// What the roster `workers` gathers in one tick.
pub open spec fn gains(workers: Seq<Worker>) -> Amounts {
    Amounts {
        iron: count_action(workers, WorkerAction::Gather(Resource::Iron)),
        copper: count_action(workers, WorkerAction::Gather(Resource::Copper)),
        stone: count_action(workers, WorkerAction::Gather(Resource::Stone)),
    }
}

/// The position of the first worker of `workers` that is busy with `action`,
/// or the length of `workers` if there is none.
pub open spec fn first_with(workers: Seq<Worker>, action: WorkerAction) -> int
    decreases workers.len(),
{
    if workers.len() == 0 {
        0
    } else if workers[0].current_action == action {
        0
    } else {
        1 + first_with(workers.skip(1), action)
    }
}

/// The roster in which the first worker busy with `from` has turned to `to`;
/// the roster itself where nobody is busy with `from`.
pub open spec fn reassign_first(workers: Seq<Worker>, from: WorkerAction, to: WorkerAction) -> Seq<
    Worker,
> {
    let i = first_with(workers, from);
    if i < workers.len() {
        workers.update(i, Worker { current_action: to })
    } else {
        workers
    }
}

/// Adding a worker at the end of a roster adds one to the count of its
/// action and leaves the other counts as they were.
pub proof fn lemma_count_push(workers: Seq<Worker>, worker: Worker, action: WorkerAction)
    ensures
        count_action(workers.push(worker), action) == count_action(workers, action) + counts_as(
            worker,
            action,
        ),
{
    assert(workers.push(worker).drop_last() =~= workers);
}

/// A prefix of a roster holds no more workers of an action than the roster.
pub proof fn lemma_count_prefix(workers: Seq<Worker>, k: int, action: WorkerAction)
    requires
        0 <= k <= workers.len(),
    ensures
        count_action(workers.take(k), action) <= count_action(workers, action),
    decreases workers.len(),
{
    if k == workers.len() {
        assert(workers.take(k) =~= workers);
    } else {
        assert(workers.drop_last().take(k) =~= workers.take(k));
        lemma_count_prefix(workers.drop_last(), k, action);
    }
}

/// Taking one more worker into a prefix counts that worker.
pub proof fn lemma_count_take_next(workers: Seq<Worker>, k: int, action: WorkerAction)
    requires
        0 <= k < workers.len(),
    ensures
        count_action(workers.take(k + 1), action) == count_action(workers.take(k), action)
            + counts_as(workers[k], action),
{
    assert(workers.take(k + 1) =~= workers.take(k).push(workers[k]));
    lemma_count_push(workers.take(k), workers[k], action);
}

/// Where the first `k` workers are not busy with `action`, and the roster
/// ends at `k` or the worker at `k` is busy with it, `k` is the position
/// that `first_with` gives.
pub proof fn lemma_first_with(workers: Seq<Worker>, action: WorkerAction, k: int)
    requires
        0 <= k <= workers.len(),
        forall|j: int| 0 <= j < k ==> (#[trigger] workers[j]).current_action != action,
        k < workers.len() ==> workers[k].current_action == action,
    ensures
        first_with(workers, action) == k,
    decreases k,
{
    if k > 0 {
        let rest = workers.skip(1);
        assert forall|j: int| 0 <= j < k - 1 implies (#[trigger] rest[j]).current_action
            != action by {
            assert(rest[j] == workers[j + 1]);
        }
        lemma_first_with(rest, action, k - 1);
    }
}

/// `first_with` gives a position in the roster or its length; no worker
/// before that position is busy with `action`, and the worker at it is.
pub proof fn lemma_first_with_is_first(workers: Seq<Worker>, action: WorkerAction)
    ensures
        0 <= first_with(workers, action) <= workers.len(),
        forall|j: int|
            0 <= j < first_with(workers, action) ==> (#[trigger] workers[j]).current_action
                != action,
        first_with(workers, action) < workers.len() ==> workers[first_with(
            workers,
            action,
        )].current_action == action,
        has_worker(workers, action) == (first_with(workers, action) < workers.len()),
    decreases workers.len(),
{
    if workers.len() > 0 && workers[0].current_action != action {
        let rest = workers.skip(1);
        lemma_first_with_is_first(rest, action);
        let k = first_with(workers, action);
        assert forall|j: int| 0 <= j < k implies (#[trigger] workers[j]).current_action
            != action by {
            if j > 0 {
                assert(workers[j] == rest[j - 1]);
            }
        }
        if k < workers.len() {
            assert(workers[k] == rest[k - 1]);
        }
    }
    let k = first_with(workers, action);
    if k < workers.len() {
        assert(workers[k].current_action == action);
    }
}

/// Every worker is idle or gathers exactly one resource: the idle count and
/// the gathering counts of the three resources add up to the size of the
/// roster.
pub proof fn lemma_roster_partition(workers: Seq<Worker>)
    ensures
        count_action(workers, WorkerAction::Idle) + count_action(
            workers,
            WorkerAction::Gather(Resource::Iron),
        ) + count_action(workers, WorkerAction::Gather(Resource::Copper)) + count_action(
            workers,
            WorkerAction::Gather(Resource::Stone),
        ) == workers.len(),
    decreases workers.len(),
{
    if workers.len() > 0 {
        lemma_roster_partition(workers.drop_last());
    }
}

/// Turning the first worker busy with `from` to another action `to` moves
/// at most one worker: the roster keeps its size, and where such a worker
/// exists, `from` loses one worker and `to` gains one.
pub proof fn lemma_reassign_moves_one(workers: Seq<Worker>, from: WorkerAction, to: WorkerAction)
    requires
        from != to,
    ensures
        reassign_first(workers, from, to).len() == workers.len(),
        has_worker(workers, from) ==> {
            &&& count_action(reassign_first(workers, from, to), from) + 1 == count_action(
                workers,
                from,
            )
            &&& count_action(reassign_first(workers, from, to), to) == count_action(workers, to)
                + 1
        },
{
    lemma_first_with_is_first(workers, from);
    let k = first_with(workers, from);
    if k < workers.len() {
        lemma_count_update(workers, k, Worker { current_action: to }, from);
        lemma_count_update(workers, k, Worker { current_action: to }, to);
    }
}

/// Replacing the worker at `k` changes the count of an action by what the
/// new worker adds and the old one took.
pub proof fn lemma_count_update(workers: Seq<Worker>, k: int, worker: Worker, action: WorkerAction)
    requires
        0 <= k < workers.len(),
    ensures
        count_action(workers.update(k, worker), action) + counts_as(workers[k], action)
            == count_action(workers, action) + counts_as(worker, action),
    decreases workers.len(),
{
    let updated = workers.update(k, worker);
    if k == workers.len() - 1 {
        assert(updated.drop_last() =~= workers.drop_last());
    } else {
        assert(updated.drop_last() =~= workers.drop_last().update(k, worker));
        lemma_count_update(workers.drop_last(), k, worker, action);
    }
}

/// Where no worker is busy with `from`, turning the first such worker to
/// another action changes nothing.
pub proof fn lemma_reassign_nobody(workers: Seq<Worker>, from: WorkerAction, to: WorkerAction)
    requires
        !has_worker(workers, from),
    ensures
        reassign_first(workers, from, to) == workers,
{
    lemma_first_with_is_first(workers, from);
}

/// The mathematical model of a player.
pub struct PlayerView {
    pub id: PlayerId,
    pub workers: Seq<Worker>,
    pub stockpile: Amounts,
    pub money: u64,
    /// The builds in progress, the running one first, each with the ticks
    /// that it still needs.
    pub queue: Seq<(ProductionItem, Duration)>,
}

impl PlayerView {
    /// A player as registration makes it: three idle workers and nothing else.
    pub open spec fn initial(id: PlayerId) -> PlayerView {
        PlayerView {
            id,
            workers: seq![
                Worker { current_action: WorkerAction::Idle },
                Worker { current_action: WorkerAction::Idle },
                Worker { current_action: WorkerAction::Idle },
            ],
            stockpile: Amounts::zero(),
            money: 0,
            queue: Seq::empty(),
        }
    }

    /// No build in the queue has run out of time: a build leaves the queue
    /// in the tick in which its time reaches zero.
    pub open spec fn wf(self) -> bool {
        forall|i: int| 0 <= i < self.queue.len() ==> (#[trigger] self.queue[i]).1.ticks > 0
    }

    /// One more tick of gathering does not overflow a counter of the
    /// stockpile.
    pub open spec fn can_step(self) -> bool {
        self.stockpile.plus(gains(self.workers)).fits()
    }

    /// The first half of a tick: the build at the front of the queue gets
    /// one tick nearer to completion, and completes if that was its last.
    pub open spec fn advance_production(self) -> PlayerView {
        if self.queue.len() == 0 {
            self
        } else {
            let (item, time) = self.queue[0];
            if time.ticks == 1 {
                item.completed(PlayerView { queue: self.queue.skip(1), ..self })
            } else {
                PlayerView {
                    queue: self.queue.update(0, (item, Duration { ticks: (time.ticks - 1) as u64 })),
                    ..self
                }
            }
        }
    }

    /// The second half of a tick: every gathering worker adds one unit of
    /// its resource to the stockpile.
    pub open spec fn gather(self) -> PlayerView {
        PlayerView { stockpile: self.stockpile.plus(gains(self.workers)), ..self }
    }

    /// One tick: production first, then gathering, so that a worker
    /// completed in a tick does not gather in it.
    pub open spec fn step(self) -> PlayerView {
        self.advance_production().gather()
    }

    /// The player after `n` ticks.
    pub open spec fn steps(self, n: nat) -> PlayerView
        decreases n,
    {
        if n == 0 {
            self
        } else {
            self.step().steps((n - 1) as nat)
        }
    }

    /// The player with `item` added at the back of the queue.
    pub open spec fn enqueue(self, item: ProductionItem, time: Duration) -> PlayerView {
        PlayerView { queue: self.queue.push((item, time)), ..self }
    }

    /// The player whose first idle worker, if any, gathers `r`.
    pub open spec fn allocate(self, r: Resource) -> PlayerView {
        PlayerView {
            workers: reassign_first(self.workers, WorkerAction::Idle, WorkerAction::Gather(r)),
            ..self
        }
    }

    /// The player whose first worker gathering `r`, if any, is idle.
    pub open spec fn deallocate(self, r: Resource) -> PlayerView {
        PlayerView {
            workers: reassign_first(self.workers, WorkerAction::Gather(r), WorkerAction::Idle),
            ..self
        }
    }
}

impl PlayerView {
    /// A player with nothing in production has nothing in production after
    /// any number of ticks, and the same roster.
    pub proof fn lemma_nothing_in_production(self, n: nat)
        requires
            self.queue.len() == 0,
        ensures
            self.steps(n).queue.len() == 0,
            self.steps(n).workers == self.workers,
            self.steps(n).id == self.id,
            self.steps(n).money == self.money,
        decreases n,
    {
        if n > 0 {
            self.step().lemma_nothing_in_production((n - 1) as nat);
        }
    }

    /// A player whose queue holds a single build with `t` ticks to go: after
    /// `n < t` ticks the build is still queued, with `t - n` ticks to go,
    /// and the roster is as it was; after `n >= t` ticks the queue is empty
    /// and the roster has grown by the one idle worker that the completion
    /// adds.
    pub proof fn lemma_countdown(self, n: nat)
        requires
            self.queue.len() == 1,
            self.queue[0].1.ticks > 0,
        ensures
            n < self.queue[0].1.ticks ==> {
                &&& self.steps(n).queue == seq![
                    (self.queue[0].0, Duration { ticks: (self.queue[0].1.ticks - n) as u64 }),
                ]
                &&& self.steps(n).workers == self.workers
            },
            n >= self.queue[0].1.ticks ==> {
                &&& self.steps(n).queue.len() == 0
                &&& self.steps(n).workers == self.workers.push(
                    Worker { current_action: WorkerAction::Idle },
                )
            },
        decreases n,
    {
        let item = self.queue[0].0;
        let t = self.queue[0].1.ticks;
        if n == 0 {
            assert(self.queue =~= seq![(item, Duration { ticks: t })]);
        } else {
            let next = self.step();
            if t == 1 {
                assert(next.queue =~= Seq::empty());
                next.lemma_nothing_in_production((n - 1) as nat);
            } else {
                assert(next.queue =~= seq![(item, Duration { ticks: (t - 1) as u64 })]);
                next.lemma_countdown((n - 1) as nat);
            }
        }
    }

    /// An item ordered into an empty queue with `time` to build completes in
    /// the tick that is `time.ticks` ticks later, and in no other: until
    /// then it is queued with the ticks that remain and the roster is
    /// unchanged; from then on the queue is empty and the roster holds
    /// exactly one worker more, idle, at its end.
    pub proof fn lemma_production_completes(self, item: ProductionItem, time: Duration, n: nat)
        requires
            self.queue.len() == 0,
            time.ticks > 0,
        ensures
            n < time.ticks ==> {
                &&& self.enqueue(item, time).steps(n).queue == seq![
                    (item, Duration { ticks: (time.ticks - n) as u64 }),
                ]
                &&& self.enqueue(item, time).steps(n).workers == self.workers
            },
            n >= time.ticks ==> {
                &&& self.enqueue(item, time).steps(n).queue.len() == 0
                &&& self.enqueue(item, time).steps(n).workers == self.workers.push(
                    Worker { current_action: WorkerAction::Idle },
                )
            },
    {
        self.enqueue(item, time).lemma_countdown(n);
    }

    /// With no idle worker, allocating changes nothing about the player.
    pub proof fn lemma_allocate_without_idle(self, r: Resource)
        requires
            !has_worker(self.workers, WorkerAction::Idle),
        ensures
            self.allocate(r) == self,
    {
        lemma_reassign_nobody(self.workers, WorkerAction::Idle, WorkerAction::Gather(r));
    }

    /// With no worker gathering `r`, deallocating from `r` changes nothing
    /// about the player.
    pub proof fn lemma_deallocate_without_gatherer(self, r: Resource)
        requires
            !has_worker(self.workers, WorkerAction::Gather(r)),
        ensures
            self.deallocate(r) == self,
    {
        lemma_reassign_nobody(self.workers, WorkerAction::Gather(r), WorkerAction::Idle);
    }
}

/// A participant of the game.
#[derive(Debug)]
pub struct Player {
    id: PlayerId,
    pub workers: Vec<Worker>,
    stockpile: ResourceAmount,
    money: u64,
    production_queue: VecDeque<(ProductionItem, Duration)>,
}

impl View for Player {
    type V = PlayerView;

    closed spec fn view(&self) -> PlayerView {
        PlayerView {
            id: self.id,
            workers: self.workers@,
            stockpile: self.stockpile@,
            money: self.money,
            queue: self.production_queue@,
        }
    }
}

impl Player {
    /// A new player with the given id, three idle workers, no resources, no
    /// money and nothing in production.
    pub fn new(id: PlayerId) -> (player: Player)
        ensures
            player@ == PlayerView::initial(id),
            player@.wf(),
    {
        let mut workers: Vec<Worker> = Vec::new();
        workers.push(Worker::new());
        workers.push(Worker::new());
        workers.push(Worker::new());
        let player = Player {
            id,
            workers,
            stockpile: ResourceAmount::new(),
            money: 0,
            production_queue: VecDeque::new(),
        };
        assert(player@.workers =~= PlayerView::initial(id).workers);
        assert(player@.queue =~= PlayerView::initial(id).queue);
        player
    }

    /// Appends `worker` to the roster.
    pub fn add_worker(&mut self, worker: Worker)
        ensures
            final(self)@ == (PlayerView { workers: old(self)@.workers.push(worker), ..old(self)@ }),
    {
        self.workers.push(worker);
    }

    /// Advances the player by one tick: the build at the front of the queue
    /// loses one tick and completes when none is left; then every gathering
    /// worker adds one unit to the stockpile.
    pub fn step(&mut self)
        requires
            old(self)@.wf(),
            old(self)@.can_step(),
        ensures
            final(self)@ == old(self)@.step(),
            final(self)@.wf(),
    {
        let completed = match self.production_queue.pop_front() {
            Some((item, time)) => {
                assert(old(self)@.queue[0] == (item, time));
                let left: u64 = time.ticks - 1;
                if left == 0 {
                    assert(self.production_queue@ =~= old(self)@.queue.skip(1));
                    Some(item)
                } else {
                    self.production_queue.push_front((item, Duration { ticks: left }));
                    assert(self.production_queue@ =~= old(self)@.queue.update(
                        0,
                        (item, Duration { ticks: left }),
                    ));
                    None
                }
            },
            None => None,
        };
        if let Some(item) = completed {
            item.produce(self);
            proof {
                lemma_count_push(
                    old(self)@.workers,
                    Worker { current_action: WorkerAction::Idle },
                    WorkerAction::Gather(Resource::Iron),
                );
                lemma_count_push(
                    old(self)@.workers,
                    Worker { current_action: WorkerAction::Idle },
                    WorkerAction::Gather(Resource::Copper),
                );
                lemma_count_push(
                    old(self)@.workers,
                    Worker { current_action: WorkerAction::Idle },
                    WorkerAction::Gather(Resource::Stone),
                );
            }
        }
        assert(self@ == old(self)@.advance_production());
        let ghost base = self@;
        assert(gains(base.workers) == gains(old(self)@.workers));
        let n = self.workers.len();
        let mut i: usize = 0;
        assert(base.workers.take(0) =~= Seq::<Worker>::empty());
        while i < n
            invariant
                i <= n,
                n == base.workers.len(),
                base.stockpile.plus(gains(base.workers)).fits(),
                self@ == (PlayerView {
                    stockpile: base.stockpile.plus(gains(base.workers.take(i as int))),
                    ..base
                }),
            decreases n - i,
        {
            let action = self.workers[i].current_action;
            proof {
                lemma_count_take_next(base.workers, i as int, WorkerAction::Gather(Resource::Iron));
                lemma_count_take_next(
                    base.workers,
                    i as int,
                    WorkerAction::Gather(Resource::Copper),
                );
                lemma_count_take_next(
                    base.workers,
                    i as int,
                    WorkerAction::Gather(Resource::Stone),
                );
                lemma_count_prefix(
                    base.workers,
                    i as int + 1,
                    WorkerAction::Gather(Resource::Iron),
                );
                lemma_count_prefix(
                    base.workers,
                    i as int + 1,
                    WorkerAction::Gather(Resource::Copper),
                );
                lemma_count_prefix(
                    base.workers,
                    i as int + 1,
                    WorkerAction::Gather(Resource::Stone),
                );
            }
            match action {
                WorkerAction::Gather(r) => {
                    let counter = self.stockpile.get_mut(r);
                    *counter = *counter + 1;
                },
                WorkerAction::Idle => {},
            }
            i += 1;
        }
        assert(base.workers.take(n as int) =~= base.workers);
    }

    /// The player's id.
    pub fn get_id(&self) -> (id: PlayerId)
        ensures
            id == self@.id,
    {
        self.id
    }

    /// The player's money balance.
    pub fn get_money(&self) -> (money: u64)
        ensures
            money == self@.money,
    {
        self.money
    }

    /// The player's stockpile.
    pub fn get_stockpile(&self) -> (stockpile: &ResourceAmount)
        ensures
            stockpile@ == self@.stockpile,
    {
        &self.stockpile
    }

    /// Hands out the player's stockpile for writing; the rest of the player
    /// stays.
    pub fn get_stockpile_mut(&mut self) -> (stockpile: &mut ResourceAmount)
        ensures
            stockpile@ == old(self)@.stockpile,
            final(self)@ == (PlayerView { stockpile: final(stockpile)@, ..old(self)@ }),
    {
        &mut self.stockpile
    }

    /// Credits `amount` to the player's balance.
    pub fn add_money(&mut self, amount: u64)
        requires
            old(self)@.money + amount <= u64::MAX,
        ensures
            final(self)@ == (PlayerView {
                money: (old(self)@.money + amount) as u64,
                ..old(self)@
            }),
    {
        self.money += amount
    }

    /// Puts `item` at the back of the production queue, to be built in
    /// `production_time`.
    pub fn enqueue_production(&mut self, item: ProductionItem, production_time: Duration)
        requires
            old(self)@.wf(),
            production_time.ticks > 0,
        ensures
            final(self)@ == old(self)@.enqueue(item, production_time),
            final(self)@.wf(),
    {
        self.production_queue.push_back((item, production_time));
        assert forall|i: int| 0 <= i < self@.queue.len() implies (#[trigger] self@.queue[i]).1.ticks
            > 0 by {
            if i < old(self)@.queue.len() {
                assert(self@.queue[i] == old(self)@.queue[i]);
            }
        }
    }

    /// The build that is in progress, with the ticks it still needs.
    pub fn get_current_production(&self) -> (current: Option<&(ProductionItem, Duration)>)
        ensures
            match current {
                Some(entry) => self@.queue.len() > 0 && *entry == self@.queue[0],
                None => self@.queue.len() == 0,
            },
    {
        if self.production_queue.len() > 0 {
            Some(&self.production_queue[0])
        } else {
            None
        }
    }

    /// How many builds are queued, the running one included.
    pub fn queue_len(&self) -> (n: usize)
        ensures
            n == self@.queue.len(),
    {
        self.production_queue.len()
    }

    /// How many workers the player has.
    pub fn worker_count(&self) -> (n: usize)
        ensures
            n == self@.workers.len(),
    {
        self.workers.len()
    }

    /// How many of the player's workers are busy with `action`.
    pub fn count_workers(&self, action: WorkerAction) -> (n: usize)
        ensures
            n == count_action(self@.workers, action),
    {
        let total = self.workers.len();
        let mut n: usize = 0;
        let mut i: usize = 0;
        assert(self@.workers.take(0) =~= Seq::<Worker>::empty());
        while i < total
            invariant
                i <= total,
                total == self@.workers.len(),
                n <= i,
                n == count_action(self@.workers.take(i as int), action),
            decreases total - i,
        {
            proof {
                lemma_count_take_next(self@.workers, i as int, action);
            }
            if self.workers[i].current_action == action {
                n += 1;
            }
            i += 1;
        }
        assert(self@.workers.take(total as int) =~= self@.workers);
        n
    }

    /// How many of the player's workers are idle.
    pub fn idle_count(&self) -> (n: usize)
        ensures
            n == count_action(self@.workers, WorkerAction::Idle),
    {
        self.count_workers(WorkerAction::Idle)
    }

    /// How many of the player's workers gather `resource`.
    pub fn gathering_count(&self, resource: Resource) -> (n: usize)
        ensures
            n == count_action(self@.workers, WorkerAction::Gather(resource)),
    {
        self.count_workers(WorkerAction::Gather(resource))
    }

    /// Turns the first worker that is busy with `from` to `to`, and reports
    /// whether there was one.
    fn reassign(&mut self, from: WorkerAction, to: WorkerAction) -> (done: bool)
        ensures
            final(self)@ == (PlayerView {
                workers: reassign_first(old(self)@.workers, from, to),
                ..old(self)@
            }),
            done == has_worker(old(self)@.workers, from),
    {
        proof {
            lemma_first_with_is_first(self.workers@, from);
        }
        let n = self.workers.len();
        let mut i: usize = 0;
        while i < n
            invariant
                i <= n,
                n == self.workers@.len(),
                *self == *old(self),
                forall|j: int| 0 <= j < i ==> (#[trigger] self.workers@[j]).current_action != from,
            decreases n - i,
        {
            if self.workers[i].current_action == from {
                proof {
                    lemma_first_with(self.workers@, from, i as int);
                }
                self.workers[i] = Worker { current_action: to };
                return true;
            }
            i += 1;
        }
        proof {
            lemma_first_with(self.workers@, from, n as int);
        }
        false
    }

    /// Sets the first idle worker to gather `resource`, and reports whether
    /// there was an idle worker.
    pub fn allocate_worker(&mut self, resource: Resource) -> (done: bool)
        ensures
            final(self)@ == old(self)@.allocate(resource),
            done == has_worker(old(self)@.workers, WorkerAction::Idle),
    {
        self.reassign(WorkerAction::Idle, WorkerAction::Gather(resource))
    }

    /// Sets the first worker that gathers `resource` to idle, and reports
    /// whether there was one.
    pub fn deallocate_worker(&mut self, resource: Resource) -> (done: bool)
        ensures
            final(self)@ == old(self)@.deallocate(resource),
            done == has_worker(old(self)@.workers, WorkerAction::Gather(resource)),
    {
        self.reassign(WorkerAction::Gather(resource), WorkerAction::Idle)
    }

    /// Whether one more tick of gathering fits the stockpile's counters.
    pub fn can_step(&self) -> (ok: bool)
        ensures
            ok == self@.can_step(),
    {
        let iron = self.gathering_count(Resource::Iron);
        let copper = self.gathering_count(Resource::Copper);
        let stone = self.gathering_count(Resource::Stone);
        let room_iron = u32::MAX - self.stockpile.get(Resource::Iron);
        let room_copper = u32::MAX - self.stockpile.get(Resource::Copper);
        let room_stone = u32::MAX - self.stockpile.get(Resource::Stone);
        iron <= room_iron as usize && copper <= room_copper as usize && stone <= room_stone as usize
    }
}

} // verus!
