//! The market: what it buys, at which prices, and how a sale moves a price.

use vstd::prelude::*;
use crate::resource::{Amounts, Resource, ResourceAmount};

verus! {

/// A bundle of resources that the market buys.
#[derive(Clone, Copy, Debug, PartialEq, Eq, Structural)]
pub enum SellItem {
    Iron,
    Stone,
    Copper,
}

/// The terms on which the market buys one item: the resources a seller
/// gives and the money the seller receives.
#[derive(Clone, Copy, Debug, PartialEq, Eq, Structural)]
pub struct Trade {
    pub give: ResourceAmount,
    pub receive: u64,
}

impl Default for Trade {
    fn default() -> (trade: Trade)
        ensures
            trade.give@ == Amounts::zero(),
            trade.receive == 0,
    {
        Trade { give: ResourceAmount::new(), receive: 0 }
    }
}

impl SellItem {
    /// The position of this item in the market's list.
    pub open spec fn ordinal(self) -> int {
        match self {
            SellItem::Iron => 0,
            SellItem::Stone => 1,
            SellItem::Copper => 2,
        }
    }

    /// The item that stands at position `i` of the market's list; the first
    /// item stands in for positions outside the list.
    pub open spec fn at(i: int) -> SellItem {
        if i == 1 {
            SellItem::Stone
        } else if i == 2 {
            SellItem::Copper
        } else {
            SellItem::Iron
        }
    }

    /// The resource that the item is made of.
    pub open spec fn resource(self) -> Resource {
        match self {
            SellItem::Iron => Resource::Iron,
            SellItem::Stone => Resource::Stone,
            SellItem::Copper => Resource::Copper,
        }
    }

    /// The price at which the market opens.
    pub open spec fn opening_price(self) -> u64 {
        match self {
            SellItem::Iron => 500,
            SellItem::Stone => 300,
            SellItem::Copper => 500,
        }
    }

    /// What a seller gives for the item: 100 units of its resource.
    pub open spec fn bundle(self) -> Amounts {
        Amounts::zero().set(self.resource(), 100)
    }

    /// The item's name.
    pub open spec fn label(self) -> Seq<char> {
        match self {
            SellItem::Iron => "Iron"@,
            SellItem::Stone => "Stone"@,
            SellItem::Copper => "Copper"@,
        }
    }

    /// The item's name.
    pub fn name(&self) -> (name: &'static str)
        ensures
            name@ == self.label(),
    {
        match self {
            SellItem::Iron => "Iron",
            SellItem::Stone => "Stone",
            SellItem::Copper => "Copper",
        }
    }

    /// The position of this item in the market's list.
    pub fn index(self) -> (i: usize)
        ensures
            i == self.ordinal(),
    {
        match self {
            SellItem::Iron => 0,
            SellItem::Stone => 1,
            SellItem::Copper => 2,
        }
    }

    /// The item at position `i` of the market's list, if there is one.
    pub fn from_index(i: usize) -> (item: Option<SellItem>)
        ensures
            item == if i < 3 {
                Some(SellItem::at(i as int))
            } else {
                None
            },
    {
        match i {
            0 => Some(SellItem::Iron),
            1 => Some(SellItem::Stone),
            2 => Some(SellItem::Copper),
            _ => None,
        }
    }

    /// The terms at which the market opens for this item.
    pub fn get_default_trade(&self) -> (trade: Trade)
        ensures
            trade.give@ == self.bundle(),
            trade.receive == self.opening_price(),
    {
        match self {
            SellItem::Iron => {
                let mut cost = ResourceAmount::new();
                *cost.get_mut(Resource::Iron) = 100;
                Trade { give: cost, receive: 500 }
            },
            SellItem::Stone => {
                let mut cost = ResourceAmount::new();
                *cost.get_mut(Resource::Stone) = 100;
                Trade { give: cost, receive: 300 }
            },
            SellItem::Copper => {
                let mut cost = ResourceAmount::new();
                *cost.get_mut(Resource::Copper) = 100;
                Trade { give: cost, receive: 500 }
            },
        }
    }
}

/// The factor by which a sale moves the price of what was sold: the ratio
/// of two integers, the second of which is not zero. The market draws one
/// such factor per sale from its random walk.
#[derive(Clone, Copy, Debug)]
pub struct PriceDrift {
    numerator: u64,
    denominator: u64,
}

impl PriceDrift {
    #[verifier::type_invariant]
    closed spec fn inv(self) -> bool {
        self.denominator > 0
    }

    /// The upper part of the ratio.
    pub closed spec fn numer(self) -> nat {
        self.numerator as nat
    }

    /// The lower part of the ratio.
    pub closed spec fn denom(self) -> nat {
        self.denominator as nat
    }

    /// The price that `price` drifts to: `price` times the factor, rounded
    /// down, and no more than the largest price there is.
    pub open spec fn apply(self, price: u64) -> u64 {
        let scaled = (price * self.numer()) / (self.denom() as int);
        if scaled > u64::MAX {
            u64::MAX
        } else {
            scaled as u64
        }
    }

    /// Below the largest price, the drifted price is the product of price
    /// and factor rounded down: the greatest integer that, times the
    /// denominator, does not exceed the price times the numerator.
    pub proof fn lemma_apply_rounds_down(self, price: u64)
        requires
            self.denom() > 0,
            self.apply(price) < u64::MAX,
        ensures
            self.apply(price) * self.denom() <= price * self.numer(),
            price * self.numer() < (self.apply(price) + 1) * self.denom(),
    {
        let product = price * self.numer();
        let d = self.denom() as int;
        vstd::arithmetic::div_mod::lemma_fundamental_div_mod(product, d);
        vstd::arithmetic::div_mod::lemma_mod_pos_bound(product, d);
        let q = product / d;
        assert(q * d == d * q) by (nonlinear_arith);
        assert((q + 1) * d == q * d + d) by (nonlinear_arith);
    }

    /// The factor `numerator / denominator`, if the denominator is not
    /// zero.
    pub fn new(numerator: u64, denominator: u64) -> (drift: Option<PriceDrift>)
        ensures
            drift.is_some() == (denominator != 0),
            drift.is_some() ==> drift.unwrap().numer() == numerator && drift.unwrap().denom()
                == denominator,
    {
        if denominator == 0 {
            None
        } else {
            Some(PriceDrift { numerator, denominator })
        }
    }

    /// The factor one, which leaves every price where it is.
    pub fn unchanged() -> (drift: PriceDrift)
        ensures
            drift.numer() == 1,
            drift.denom() == 1,
            forall|price: u64| #[trigger] drift.apply(price) == price,
    {
        PriceDrift { numerator: 1, denominator: 1 }
    }

    /// The upper part of the ratio.
    pub fn numerator(&self) -> (n: u64)
        ensures
            n == self.numer(),
    {
        self.numerator
    }

    /// The lower part of the ratio, which is not zero.
    pub fn denominator(&self) -> (d: u64)
        ensures
            d == self.denom(),
            d > 0,
    {
        proof {
            use_type_invariant(self);
        }
        self.denominator
    }

    /// The price that `price` drifts to.
    pub fn drifted(&self, price: u64) -> (moved: u64)
        ensures
            moved == self.apply(price),
    {
        proof {
            use_type_invariant(self);
        }
        let wide_price: u128 = price as u128;
        let wide_numerator: u128 = self.numerator as u128;
        let wide_denominator: u128 = self.denominator as u128;
        assert(wide_price * wide_numerator <= 0xffff_ffff_ffff_ffff * 0xffff_ffff_ffff_ffff)
            by (nonlinear_arith)
            requires
                wide_price <= 0xffff_ffff_ffff_ffff,
                wide_numerator <= 0xffff_ffff_ffff_ffff,
        ;
        let scaled: u128 = wide_price * wide_numerator / wide_denominator;
        if scaled > u64::MAX as u128 {
            u64::MAX
        } else {
            scaled as u64
        }
    }
}

/// The mathematical model of the market: the terms posted for each item.
pub struct PriceTable {
    pub iron: Trade,
    pub stone: Trade,
    pub copper: Trade,
}

impl PriceTable {
    /// The terms posted for `item`.
    pub open spec fn get(self, item: SellItem) -> Trade {
        match item {
            SellItem::Iron => self.iron,
            SellItem::Stone => self.stone,
            SellItem::Copper => self.copper,
        }
    }

    /// The same table with the terms of `item` replaced by `trade`.
    pub open spec fn set(self, item: SellItem, trade: Trade) -> PriceTable {
        match item {
            SellItem::Iron => PriceTable { iron: trade, ..self },
            SellItem::Stone => PriceTable { stone: trade, ..self },
            SellItem::Copper => PriceTable { copper: trade, ..self },
        }
    }

    /// `item` is posted at its opening terms.
    pub open spec fn opens(self, item: SellItem) -> bool {
        &&& self.get(item).give@ == item.bundle()
        &&& self.get(item).receive == item.opening_price()
    }

    /// Every item is posted at its opening terms.
    pub open spec fn is_opening(self) -> bool {
        &&& self.opens(SellItem::Iron)
        &&& self.opens(SellItem::Stone)
        &&& self.opens(SellItem::Copper)
    }

    /// Whether `stockpile` holds what the market asks for `item`.
    pub open spec fn sells(self, stockpile: Amounts, item: SellItem) -> bool {
        stockpile.covers(self.get(item).give@)
    }

    /// The table after an attempt to sell `item` out of `stockpile`: where
    /// the sale takes place the price of `item` moves by `drift`, and
    /// nothing else changes; where it does not, nothing changes at all.
    pub open spec fn after_trade(
        self,
        stockpile: Amounts,
        item: SellItem,
        drift: PriceDrift,
    ) -> PriceTable {
        if self.sells(stockpile, item) {
            self.set(
                item,
                Trade { give: self.get(item).give, receive: drift.apply(self.get(item).receive) },
            )
        } else {
            self
        }
    }

    /// What the seller is paid on an attempt to sell `item` out of
    /// `stockpile`: the price posted before the sale, or nothing.
    pub open spec fn payout(self, stockpile: Amounts, item: SellItem) -> Option<u64> {
        if self.sells(stockpile, item) {
            Some(self.get(item).receive)
        } else {
            None
        }
    }

    /// The stockpile after an attempt to sell `item` out of it.
    pub open spec fn stock_after_trade(self, stockpile: Amounts, item: SellItem) -> Amounts {
        if self.sells(stockpile, item) {
            stockpile.minus(self.get(item).give@)
        } else {
            stockpile
        }
    }
}

/// The side of the market that buys from the players. It posts exactly one
/// trade for every item.
#[derive(Debug)]
pub struct ConsumerSector {
    iron: Trade,
    stone: Trade,
    copper: Trade,
}

impl View for ConsumerSector {
    type V = PriceTable;

    closed spec fn view(&self) -> PriceTable {
        PriceTable { iron: self.iron, stone: self.stone, copper: self.copper }
    }
}

/// The terms of `trade` with the price moved by `drift`, the factor that
/// the random walk of the market has drawn.
fn update_trade(trade: &Trade, drift: PriceDrift) -> (updated: Trade)
    ensures
        updated == (Trade { give: trade.give, receive: drift.apply(trade.receive) }),
{
    Trade { receive: drift.drifted(trade.receive), ..*trade }
}

impl ConsumerSector {
    /// The terms posted for `item`.
    pub fn get_trade(&self, item: SellItem) -> (trade: &Trade)
        ensures
            *trade == self@.get(item),
    {
        match item {
            SellItem::Iron => &self.iron,
            SellItem::Stone => &self.stone,
            SellItem::Copper => &self.copper,
        }
    }

    fn get_trade_mut(&mut self, item: SellItem) -> (trade: &mut Trade)
        ensures
            *trade == old(self)@.get(item),
            final(self)@ == old(self)@.set(item, *final(trade)),
    {
        match item {
            SellItem::Iron => &mut self.iron,
            SellItem::Stone => &mut self.stone,
            SellItem::Copper => &mut self.copper,
        }
    }

    /// Tries to sell `item` out of `stockpile`. If the stockpile holds what
    /// the posted trade asks for, that is taken out of it, the seller is
    /// paid the price posted before the sale, and the posted price moves by
    /// `drift`. Otherwise nothing changes and nothing is paid.
    ///
    /// `drift` is the step of the market's random walk that this sale
    /// takes; the caller draws it.
    pub fn trade(&mut self, stockpile: &mut ResourceAmount, item: SellItem, drift: PriceDrift) -> (paid:
        Option<u64>)
        ensures
            paid == old(self)@.payout(old(stockpile)@, item),
            final(self)@ == old(self)@.after_trade(old(stockpile)@, item, drift),
            final(stockpile)@ == old(self)@.stock_after_trade(old(stockpile)@, item),
            paid.is_none() ==> *final(stockpile) == *old(stockpile),
    {
        let trade = self.get_trade_mut(item);
        let mut money = None;
        if stockpile.consume(&trade.give) {
            money = Some(trade.receive);
            *trade = update_trade(trade, drift);
        }
        money
    }
}

impl Default for ConsumerSector {
    /// The market at its opening terms.
    fn default() -> (sector: ConsumerSector)
        ensures
            sector@.is_opening(),
    {
        ConsumerSector {
            iron: SellItem::Iron.get_default_trade(),
            stone: SellItem::Stone.get_default_trade(),
            copper: SellItem::Copper.get_default_trade(),
        }
    }
}

} // verus!
