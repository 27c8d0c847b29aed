//! The catalog of buildable items: what each costs, how long it takes, and
//! what its completion does to the player who ordered it.

use vstd::prelude::*;
use crate::player::{Player, PlayerView, Worker, WorkerAction};
use crate::resource::{Amounts, Resource, ResourceAmount};

verus! {

/// A span of simulated time, counted in ticks.
#[derive(Clone, Copy, Debug, PartialEq, Eq, Structural)]
pub struct Duration {
    pub ticks: u64,
}

/// The number of ticks that make up one second of play.
pub const TICKS_PER_SECOND: u64 = 5;

impl Duration {
    /// The span of `secs` seconds.
    pub fn from_secs(secs: u32) -> (span: Duration)
        ensures
            span.ticks == secs * TICKS_PER_SECOND,
    {
        let secs: u64 = secs.into();
        Duration { ticks: secs * TICKS_PER_SECOND }
    }
}

/// Something a player can order to be built.
#[derive(Clone, Copy, Debug, PartialEq, Eq, Structural)]
pub enum ProductionItem {
    WorkerIron,
    WorkerStone,
}

impl ProductionItem {
    /// The position of this item in the catalog.
    pub open spec fn ordinal(self) -> int {
        match self {
            ProductionItem::WorkerIron => 0,
            ProductionItem::WorkerStone => 1,
        }
    }

    /// The item that stands at position `i` of the catalog; the first item
    /// stands in for positions outside the catalog.
    pub open spec fn at(i: int) -> ProductionItem {
        if i == 1 {
            ProductionItem::WorkerStone
        } else {
            ProductionItem::WorkerIron
        }
    }

    /// What the item costs.
    pub open spec fn cost(self) -> Amounts {
        match self {
            ProductionItem::WorkerIron => Amounts { iron: 100, copper: 0, stone: 0 },
            ProductionItem::WorkerStone => Amounts { iron: 0, copper: 0, stone: 100 },
        }
    }

    /// How many ticks the item takes to build.
    pub open spec fn production_ticks(self) -> u64 {
        match self {
            ProductionItem::WorkerIron => 40,
            ProductionItem::WorkerStone => 25,
        }
    }

    /// The player after the item has been completed: every item of the
    /// catalog adds one idle worker at the end of the roster.
    pub open spec fn completed(self, player: PlayerView) -> PlayerView {
        PlayerView {
            workers: player.workers.push(Worker { current_action: WorkerAction::Idle }),
            ..player
        }
    }

    /// The item's name.
    pub open spec fn label(self) -> Seq<char> {
        match self {
            ProductionItem::WorkerIron => "WorkerIron"@,
            ProductionItem::WorkerStone => "WorkerStone"@,
        }
    }

    /// The item's name.
    pub fn name(&self) -> (name: &'static str)
        ensures
            name@ == self.label(),
    {
        match self {
            ProductionItem::WorkerIron => "WorkerIron",
            ProductionItem::WorkerStone => "WorkerStone",
        }
    }

    /// The position of this item in the catalog.
    pub fn index(self) -> (i: usize)
        ensures
            i == self.ordinal(),
    {
        match self {
            ProductionItem::WorkerIron => 0,
            ProductionItem::WorkerStone => 1,
        }
    }

    /// The item at position `i` of the catalog, if there is one.
    pub fn from_index(i: usize) -> (item: Option<ProductionItem>)
        ensures
            item == if i < 2 {
                Some(ProductionItem::at(i as int))
            } else {
                None
            },
    {
        match i {
            0 => Some(ProductionItem::WorkerIron),
            1 => Some(ProductionItem::WorkerStone),
            _ => None,
        }
    }

    /// What the item costs.
    pub fn get_cost(&self) -> (cost: ResourceAmount)
        ensures
            cost@ == self.cost(),
    {
        match self {
            ProductionItem::WorkerIron => {
                let mut cost = ResourceAmount::new();
                *cost.get_mut(Resource::Iron) = 100;
                cost
            },
            ProductionItem::WorkerStone => {
                let mut cost = ResourceAmount::new();
                *cost.get_mut(Resource::Stone) = 100;
                cost
            },
        }
    }

    /// How long the item takes to build.
    pub fn get_production_time(&self) -> (time: Duration)
        ensures
            time.ticks == self.production_ticks(),
            time.ticks > 0,
    {
        match self {
            ProductionItem::WorkerIron => Duration::from_secs(8),
            ProductionItem::WorkerStone => Duration::from_secs(5),
        }
    }

    /// Applies the item's completion to `player`.
    pub fn produce(&self, player: &mut Player)
        ensures
            final(player)@ == self.completed(old(player)@),
    {
        match self {
            ProductionItem::WorkerIron | ProductionItem::WorkerStone => {
                player.add_worker(Worker::new());
            },
        }
    }
}

} // verus!
