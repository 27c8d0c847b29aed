//! The whole game: the players, the market, the pause flag, and the two
//! ways in which they change: a command, and the passing of a tick.

use vstd::prelude::*;
use crate::player::{
    has_worker, lemma_first_with_is_first, Player, PlayerId, PlayerView, Worker, WorkerAction,
};
use crate::production::{Duration, ProductionItem};
use crate::resource::Resource;
use crate::sell::{ConsumerSector, PriceDrift, PriceTable, SellItem, Trade};

verus! {

/// A command to the game. A command names the player it acts for.
#[derive(Clone, Copy, Debug, PartialEq, Eq, Structural)]
pub enum GameAction {
    AllocateWorker(PlayerId, Resource),
    DeallocateWorker(PlayerId, Resource),
    TogglePause,
    Produce(PlayerId, ProductionItem),
    Sell(PlayerId, SellItem),
}

impl GameAction {
    /// The player that the command acts for, if it acts for one.
    pub open spec fn actor(self) -> Option<PlayerId> {
        match self {
            GameAction::AllocateWorker(player, _) => Some(player),
            GameAction::DeallocateWorker(player, _) => Some(player),
            GameAction::TogglePause => None,
            GameAction::Produce(player, _) => Some(player),
            GameAction::Sell(player, _) => Some(player),
        }
    }
}

impl PlayerView {
    /// The player after an order for `item`: where the stockpile covers the
    /// cost, the cost is taken and the item joins the queue with its full
    /// build time; where it does not, nothing changes.
    pub open spec fn order(self, item: ProductionItem) -> PlayerView {
        if self.stockpile.covers(item.cost()) {
            PlayerView {
                stockpile: self.stockpile.minus(item.cost()),
                queue: self.queue.push((item, Duration { ticks: item.production_ticks() })),
                ..self
            }
        } else {
            self
        }
    }

    /// The player after an attempt to sell `item` on `market`: where the
    /// sale takes place, the bundle leaves the stockpile and the posted
    /// price is credited.
    pub open spec fn sell(self, market: PriceTable, item: SellItem) -> PlayerView {
        PlayerView {
            stockpile: market.stock_after_trade(self.stockpile, item),
            money: match market.payout(self.stockpile, item) {
                Some(paid) => (self.money + paid) as u64,
                None => self.money,
            },
            ..self
        }
    }
}

/// The mathematical model of the game.
pub struct GameStateView {
    /// The players; a player's id is its position here.
    pub players: Seq<PlayerView>,
    pub paused: bool,
    pub market: PriceTable,
}

impl GameStateView {
    /// Ids are positions and fit the id type, and every player is well
    /// formed.
    pub open spec fn wf(self) -> bool {
        &&& self.players.len() <= PlayerId::MAX + 1
        &&& forall|i: int|
            0 <= i < self.players.len() ==> (#[trigger] self.players[i]).id == i
                && self.players[i].wf()
    }

    /// The game can take the command: the player it names exists, and a
    /// sale would not overflow that player's balance.
    pub open spec fn admits(self, action: GameAction) -> bool {
        match action {
            GameAction::TogglePause => true,
            GameAction::Sell(player, item) => {
                &&& player < self.players.len()
                &&& match self.market.payout(self.players[player as int].stockpile, item) {
                    Some(paid) => self.players[player as int].money + paid <= u64::MAX,
                    None => true,
                }
            },
            GameAction::AllocateWorker(player, _) => player < self.players.len(),
            GameAction::DeallocateWorker(player, _) => player < self.players.len(),
            GameAction::Produce(player, _) => player < self.players.len(),
        }
    }

    /// The game with the player at `player` replaced by `changed`.
    pub open spec fn with_player(self, player: PlayerId, changed: PlayerView) -> GameStateView {
        GameStateView { players: self.players.update(player as int, changed), ..self }
    }

    /// The game after `player` has sent a worker to gather `resource`.
    pub open spec fn allocate(self, player: PlayerId, resource: Resource) -> GameStateView {
        self.with_player(player, self.players[player as int].allocate(resource))
    }

    /// The game after `player` has called a worker back from `resource`.
    pub open spec fn deallocate(self, player: PlayerId, resource: Resource) -> GameStateView {
        self.with_player(player, self.players[player as int].deallocate(resource))
    }

    /// The game after the pause key.
    pub open spec fn toggle_pause(self) -> GameStateView {
        GameStateView { paused: !self.paused, ..self }
    }

    /// The game after `player` has ordered `item`.
    pub open spec fn produce(self, player: PlayerId, item: ProductionItem) -> GameStateView {
        self.with_player(player, self.players[player as int].order(item))
    }

    /// The game after `player` has tried to sell `item`, with `drift` the
    /// step that the price takes if the sale goes through.
    pub open spec fn sell(self, player: PlayerId, item: SellItem, drift: PriceDrift) -> GameStateView {
        GameStateView {
            market: self.market.after_trade(self.players[player as int].stockpile, item, drift),
            ..self.with_player(player, self.players[player as int].sell(self.market, item))
        }
    }

    /// The game after the command. `drift` is the step that the price of
    /// the sold item takes if the command is a sale that goes through;
    /// other commands do not look at it.
    pub open spec fn apply(self, action: GameAction, drift: PriceDrift) -> GameStateView {
        match action {
            GameAction::AllocateWorker(player, resource) => self.allocate(player, resource),
            GameAction::DeallocateWorker(player, resource) => self.deallocate(player, resource),
            GameAction::TogglePause => self.toggle_pause(),
            GameAction::Produce(player, item) => self.produce(player, item),
            GameAction::Sell(player, item) => self.sell(player, item, drift),
        }
    }

    /// Every player can take one more tick.
    pub open spec fn can_step(self) -> bool {
        forall|i: int| 0 <= i < self.players.len() ==> (#[trigger] self.players[i]).can_step()
    }

    /// The game after one tick: every player has taken one tick.
    pub open spec fn step(self) -> GameStateView {
        GameStateView {
            players: Seq::new(self.players.len(), |i: int| self.players[i].step()),
            ..self
        }
    }

    /// The game after `n` ticks.
    pub open spec fn steps(self, n: nat) -> GameStateView
        decreases n,
    {
        if n == 0 {
            self
        } else {
            self.step().steps((n - 1) as nat)
        }
    }

    /// The game with one more player, whose id is the number of players
    /// there were.
    pub open spec fn register(self) -> GameStateView {
        GameStateView {
            players: self.players.push(PlayerView::initial(self.players.len() as PlayerId)),
            ..self
        }
    }
}

impl GameStateView {
    /// A command leaves a well-formed game well formed.
    pub proof fn lemma_apply_keeps_wf(self, action: GameAction, drift: PriceDrift)
        requires
            self.wf(),
            self.admits(action),
        ensures
            self.apply(action, drift).wf(),
    {
        let after = self.apply(action, drift);
        match action.actor() {
            Some(player) => {
                let p = self.players[player as int];
                let q = after.players[player as int];
                assert(p.wf());
                assert(q.id == p.id);
                assert(q.wf()) by {
                    match action {
                        GameAction::Produce(_, item) => {
                            assert forall|i: int| 0 <= i < q.queue.len() implies (
                            #[trigger] q.queue[i]).1.ticks > 0 by {
                                if i < p.queue.len() {
                                    assert(q.queue[i] == p.queue[i]);
                                }
                            }
                        },
                        _ => {},
                    }
                }
                assert forall|i: int| 0 <= i < after.players.len() implies (
                #[trigger] after.players[i]).id == i && after.players[i].wf() by {
                    if i != player {
                        assert(after.players[i] == self.players[i]);
                    }
                }
            },
            None => {},
        }
    }

    /// A command sent for a player who has no worker to move is dropped:
    /// allocating with no idle worker, or deallocating from a resource that
    /// nobody gathers, leaves the whole game as it was.
    pub proof fn lemma_reallocation_without_worker(self, action: GameAction, drift: PriceDrift)
        requires
            self.admits(action),
            match action {
                GameAction::AllocateWorker(player, _) => !has_worker(
                    self.players[player as int].workers,
                    WorkerAction::Idle,
                ),
                GameAction::DeallocateWorker(player, r) => !has_worker(
                    self.players[player as int].workers,
                    WorkerAction::Gather(r),
                ),
                _ => false,
            },
        ensures
            self.apply(action, drift) == self,
    {
        match action {
            GameAction::AllocateWorker(player, r) => {
                self.players[player as int].lemma_allocate_without_idle(r);
            },
            GameAction::DeallocateWorker(player, r) => {
                self.players[player as int].lemma_deallocate_without_gatherer(r);
            },
            _ => {},
        }
        assert(self.apply(action, drift).players =~= self.players);
    }

    /// No command creates or destroys a worker: after any command there are
    /// the same players, each with a roster of the size it had.
    pub proof fn lemma_commands_keep_rosters(self, action: GameAction, drift: PriceDrift)
        requires
            self.admits(action),
        ensures
            self.apply(action, drift).players.len() == self.players.len(),
            forall|i: int|
                0 <= i < self.players.len() ==> (#[trigger] self.apply(
                    action,
                    drift,
                ).players[i]).workers.len() == self.players[i].workers.len(),
    {
        match action {
            GameAction::AllocateWorker(player, _) => {
                lemma_first_with_is_first(self.players[player as int].workers, WorkerAction::Idle);
            },
            GameAction::DeallocateWorker(player, r) => {
                lemma_first_with_is_first(
                    self.players[player as int].workers,
                    WorkerAction::Gather(r),
                );
            },
            _ => {},
        }
    }

    /// The ticks of the game are the ticks of its players: after `n` ticks
    /// every player is where `n` ticks of its own lead it, and the pause
    /// flag and the market are as they were.
    pub proof fn lemma_steps_per_player(self, n: nat)
        ensures
            self.steps(n).players.len() == self.players.len(),
            forall|i: int|
                0 <= i < self.players.len() ==> (#[trigger] self.steps(n).players[i])
                    == self.players[i].steps(n),
            self.steps(n).paused == self.paused,
            self.steps(n).market == self.market,
        decreases n,
    {
        if n > 0 {
            self.step().lemma_steps_per_player((n - 1) as nat);
            assert forall|i: int| 0 <= i < self.players.len() implies (#[trigger] self.steps(
                n,
            ).players[i]) == self.players[i].steps(n) by {
                assert(self.step().players[i] == self.players[i].step());
            }
        }
    }

    /// An order that a player with nothing in production can pay for
    /// completes in the tick that is the item's build time later, and in no
    /// other: until then the item is queued with the ticks that remain and
    /// the roster is unchanged; from then on the queue is empty and the
    /// roster holds exactly one worker more, idle, at its end.
    pub proof fn lemma_order_completes(self, player: PlayerId, item: ProductionItem, n: nat)
        requires
            player < self.players.len(),
            self.players[player as int].queue.len() == 0,
            self.players[player as int].stockpile.covers(item.cost()),
        ensures
            n < item.production_ticks() ==> {
                &&& self.produce(player, item).steps(n).players[player as int].queue == seq![
                    (item, Duration { ticks: (item.production_ticks() - n) as u64 }),
                ]
                &&& self.produce(player, item).steps(n).players[player as int].workers
                    == self.players[player as int].workers
            },
            n >= item.production_ticks() ==> {
                &&& self.produce(player, item).steps(n).players[player as int].queue.len() == 0
                &&& self.produce(player, item).steps(n).players[player as int].workers
                    == self.players[player as int].workers.push(
                    Worker { current_action: WorkerAction::Idle },
                )
            },
    {
        let ordered = self.produce(player, item);
        ordered.lemma_steps_per_player(n);
        let buyer = self.players[player as int];
        let paid = PlayerView { stockpile: buyer.stockpile.minus(item.cost()), ..buyer };
        let time = Duration { ticks: item.production_ticks() };
        assert(ordered.players[player as int] == paid.enqueue(item, time));
        paid.lemma_production_completes(item, time, n);
    }

    /// A sale that the stockpile cannot pay for changes nothing; one that
    /// it can pay for credits the price posted before it, takes the bundle,
    /// moves the price of the item sold by `drift`, which is to the posted
    /// price times the factor, rounded down, and leaves the other items as
    /// they were.
    pub proof fn lemma_sale(self, player: PlayerId, item: SellItem, drift: PriceDrift)
        requires
            self.admits(GameAction::Sell(player, item)),
        ensures
            !self.market.sells(self.players[player as int].stockpile, item) ==> self.apply(
                GameAction::Sell(player, item),
                drift,
            ) == self,
            self.market.sells(self.players[player as int].stockpile, item) ==> {
                let after = self.apply(GameAction::Sell(player, item), drift);
                &&& after.players[player as int].money == self.players[player as int].money
                    + self.market.get(item).receive
                &&& after.players[player as int].stockpile
                    == self.players[player as int].stockpile.minus(self.market.get(item).give@)
                &&& after.market.get(item).receive == drift.apply(self.market.get(item).receive)
                &&& after.market.get(item).give == self.market.get(item).give
                &&& forall|other: SellItem|
                    other != item ==> after.market.get(other) == self.market.get(other)
            },
    {
        let after = self.apply(GameAction::Sell(player, item), drift);
        if !self.market.sells(self.players[player as int].stockpile, item) {
            assert(after.players =~= self.players);
        }
    }
}

/// The game.
#[derive(Debug)]
pub struct GameState {
    players: Vec<Player>,
    paused: bool,
    consumer_sector: ConsumerSector,
}

impl View for GameState {
    type V = GameStateView;

    closed spec fn view(&self) -> GameStateView {
        GameStateView {
            players: Seq::new(self.players@.len(), |i: int| self.players@[i]@),
            paused: self.paused,
            market: self.consumer_sector@,
        }
    }
}

impl GameState {
    /// A game without players, running, with the market at its opening
    /// terms.
    pub fn new() -> (state: GameState)
        ensures
            state@.players.len() == 0,
            !state@.paused,
            state@.market.is_opening(),
            state@.wf(),
    {
        GameState { players: Vec::new(), paused: false, consumer_sector: ConsumerSector::default() }
    }

    /// Advances every player by one tick.
    pub fn step(&mut self)
        requires
            old(self)@.wf(),
            old(self)@.can_step(),
        ensures
            final(self)@ == old(self)@.step(),
            final(self)@.wf(),
    {
        let n = self.players.len();
        let mut i: usize = 0;
        while i < n
            invariant
                i <= n,
                n == old(self)@.players.len(),
                self@.players.len() == n,
                self@.paused == old(self)@.paused,
                self@.market == old(self)@.market,
                old(self)@.wf(),
                old(self)@.can_step(),
                forall|j: int|
                    0 <= j < i ==> (#[trigger] self@.players[j]) == old(self)@.players[j].step()
                        && self@.players[j].wf(),
                forall|j: int| i <= j < n ==> (#[trigger] self@.players[j]) == old(self)@.players[j],
            decreases n - i,
        {
            let ghost before = self@;
            assert(before.players[i as int] == old(self)@.players[i as int]);
            self.players[i].step();
            assert forall|j: int| 0 <= j < n && j != i implies (#[trigger] self@.players[j])
                == before.players[j] by {}
            assert(self@.players[i as int] == old(self)@.players[i as int].step());
            i += 1;
        }
        assert(self@.players =~= old(self)@.step().players);
        assert forall|j: int| 0 <= j < self@.players.len() implies (#[trigger] self@.players[j]).id
            == j && self@.players[j].wf() by {
            assert(old(self)@.players[j].id == j);
        }
    }

    /// Whether every player can take one more tick.
    pub fn can_step(&self) -> (ok: bool)
        ensures
            ok == self@.can_step(),
    {
        let n = self.players.len();
        let mut i: usize = 0;
        while i < n
            invariant
                i <= n,
                n == self@.players.len(),
                forall|j: int| 0 <= j < i ==> (#[trigger] self@.players[j]).can_step(),
            decreases n - i,
        {
            if !self.players[i].can_step() {
                assert(!self@.players[i as int].can_step());
                return false;
            }
            i += 1;
        }
        true
    }

    /// How many players the game has.
    pub fn player_count(&self) -> (n: usize)
        ensures
            n == self@.players.len(),
    {
        self.players.len()
    }

    /// The player with the given id.
    pub fn get_player(&self, player: PlayerId) -> (found: &Player)
        requires
            player < self@.players.len(),
        ensures
            found@ == self@.players[player as int],
    {
        &self.players[player as usize]
    }

    /// Hands out the player with the given id for writing; the rest of the
    /// game stays.
    pub fn get_player_mut(&mut self, player: PlayerId) -> (found: &mut Player)
        requires
            player < old(self)@.players.len(),
        ensures
            found@ == old(self)@.players[player as int],
            final(self)@.players =~= old(self)@.players.update(player as int, final(found)@),
            final(self)@.paused == old(self)@.paused,
            final(self)@.market == old(self)@.market,
    {
        &mut self.players[player as usize]
    }

    /// Whether the game is paused.
    pub fn is_paused(&self) -> (paused: bool)
        ensures
            paused == self@.paused,
    {
        self.paused
    }

    /// The terms that the market posts for `item`.
    pub fn get_sell_trade(&self, item: SellItem) -> (trade: &Trade)
        ensures
            *trade == self@.market.get(item),
    {
        self.consumer_sector.get_trade(item)
    }

    /// Adds a player and returns its id: the number of players there were.
    pub fn register_player(&mut self) -> (id: PlayerId)
        requires
            old(self)@.wf(),
            old(self)@.players.len() <= PlayerId::MAX,
        ensures
            id == old(self)@.players.len(),
            final(self)@ == old(self)@.register(),
            final(self)@.wf(),
    {
        let id = self.players.len() as PlayerId;
        self.players.push(Player::new(id));
        assert(self@.players =~= old(self)@.register().players);
        id
    }

    /// Sets the first worker of `player` that gathers `r` to idle.
    fn deallocate_player_worker(&mut self, player: PlayerId, r: Resource) -> (done: bool)
        requires
            player < old(self)@.players.len(),
        ensures
            final(self)@ == old(self)@.deallocate(player, r),
            done == has_worker(old(self)@.players[player as int].workers, WorkerAction::Gather(r)),
    {
        let done = self.players[player as usize].deallocate_worker(r);
        assert(self@.players =~= old(self)@.deallocate(player, r).players);
        done
    }

    /// Sets the first idle worker of `player` to gather `r`.
    fn allocate_player_worker(&mut self, player: PlayerId, r: Resource) -> (done: bool)
        requires
            player < old(self)@.players.len(),
        ensures
            final(self)@ == old(self)@.allocate(player, r),
            done == has_worker(old(self)@.players[player as int].workers, WorkerAction::Idle),
    {
        let done = self.players[player as usize].allocate_worker(r);
        assert(self@.players =~= old(self)@.allocate(player, r).players);
        done
    }

    fn toggle_paused(&mut self)
        ensures
            final(self)@ == old(self)@.toggle_pause(),
    {
        self.paused = !self.paused;
        assert(self@.players =~= old(self)@.players);
    }

    /// Orders `item` for `player`: takes its cost out of the stockpile and
    /// queues it, or does nothing where the stockpile is short.
    fn produce(&mut self, player: PlayerId, item: ProductionItem)
        requires
            player < old(self)@.players.len(),
            old(self)@.players[player as int].wf(),
        ensures
            final(self)@ == old(self)@.produce(player, item),
            final(self)@.players[player as int].wf(),
    {
        let cost = item.get_cost();
        let buyer = &mut self.players[player as usize];
        if buyer.get_stockpile_mut().consume(&cost) {
            buyer.enqueue_production(item, item.get_production_time());
        }
        assert(self@.players =~= old(self)@.produce(player, item).players);
    }

    /// Sells `item` for `player` at the posted price, which then moves by
    /// `drift`; does nothing where the stockpile is short.
    fn sell(&mut self, player: PlayerId, item: SellItem, drift: PriceDrift)
        requires
            old(self)@.admits(GameAction::Sell(player, item)),
        ensures
            final(self)@ == old(self)@.sell(player, item, drift),
    {
        let seller = &mut self.players[player as usize];
        if let Some(money) = self.consumer_sector.trade(seller.get_stockpile_mut(), item, drift) {
            seller.add_money(money);
        }
        assert(self@.players =~= old(self)@.sell(player, item, drift).players);
    }

    /// Whether the game can take `action`: the player it names exists, and
    /// a sale would not overflow that player's balance.
    pub fn accepts(&self, action: GameAction) -> (ok: bool)
        ensures
            ok == self@.admits(action),
    {
        match action {
            GameAction::TogglePause => true,
            GameAction::AllocateWorker(player, _) => (player as usize) < self.players.len(),
            GameAction::DeallocateWorker(player, _) => (player as usize) < self.players.len(),
            GameAction::Produce(player, _) => (player as usize) < self.players.len(),
            GameAction::Sell(player, item) => {
                if (player as usize) < self.players.len() {
                    let seller = &self.players[player as usize];
                    let trade = self.consumer_sector.get_trade(item);
                    if seller.get_stockpile().has_available(&trade.give) {
                        seller.get_money() <= u64::MAX - trade.receive
                    } else {
                        true
                    }
                } else {
                    false
                }
            },
        }
    }

    /// Carries out `action`. A command that cannot take effect (no worker
    /// to move, a stockpile too small to pay) changes nothing.
    ///
    /// `drift` is the step of the market's random walk that the price of
    /// the sold item takes if the command is a sale that goes through;
    /// other commands do not look at it.
    pub fn handle_action(&mut self, action: GameAction, drift: PriceDrift)
        requires
            old(self)@.wf(),
            old(self)@.admits(action),
        ensures
            final(self)@ == old(self)@.apply(action, drift),
            final(self)@.wf(),
    {
        match action {
            GameAction::AllocateWorker(player, resource) => {
                self.allocate_player_worker(player, resource);
            },
            GameAction::DeallocateWorker(player, resource) => {
                self.deallocate_player_worker(player, resource);
            },
            GameAction::TogglePause => {
                self.toggle_paused();
            },
            GameAction::Produce(player, item) => self.produce(player, item),
            GameAction::Sell(player, item) => self.sell(player, item, drift),
        }
        proof {
            old(self)@.lemma_apply_keeps_wf(action, drift);
        }
    }
}

} // verus!
