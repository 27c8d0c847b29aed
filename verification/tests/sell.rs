use tick_economy::resource::{Resource, ResourceAmount};
use tick_economy::sell::{ConsumerSector, PriceDrift, SellItem, Trade};

fn drift(numerator: u64, denominator: u64) -> PriceDrift {
    PriceDrift::new(numerator, denominator).unwrap()
}

fn amount(iron: u32, copper: u32, stone: u32) -> ResourceAmount {
    let mut a = ResourceAmount::new();
    *a.get_mut(Resource::Iron) = iron;
    *a.get_mut(Resource::Copper) = copper;
    *a.get_mut(Resource::Stone) = stone;
    a
}

#[test]
fn market_opens_at_the_default_terms() {
    let market = ConsumerSector::default();
    assert_eq!(*market.get_trade(SellItem::Iron), Trade { give: amount(100, 0, 0), receive: 500 });
    assert_eq!(*market.get_trade(SellItem::Stone), Trade { give: amount(0, 0, 100), receive: 300 });
    assert_eq!(*market.get_trade(SellItem::Copper), Trade { give: amount(0, 100, 0), receive: 500 });
    assert_eq!(SellItem::Stone.get_default_trade(), Trade { give: amount(0, 0, 100), receive: 300 });
}

#[test]
fn default_trade_is_empty() {
    assert_eq!(Trade::default(), Trade { give: ResourceAmount::new(), receive: 0 });
}

#[test]
fn two_sales_then_a_stockpile_too_small() {
    let mut market = ConsumerSector::default();
    let mut stock = amount(250, 7, 9);

    assert_eq!(market.trade(&mut stock, SellItem::Iron, drift(99, 100)), Some(500));
    assert_eq!(stock, amount(150, 7, 9));
    assert_eq!(*market.get_trade(SellItem::Iron), Trade { give: amount(100, 0, 0), receive: 495 });

    assert_eq!(market.trade(&mut stock, SellItem::Iron, drift(99, 100)), Some(495));
    assert_eq!(stock, amount(50, 7, 9));
    assert_eq!(*market.get_trade(SellItem::Iron), Trade { give: amount(100, 0, 0), receive: 490 });

    assert_eq!(market.trade(&mut stock, SellItem::Iron, drift(1, 2)), None);
    assert_eq!(stock, amount(50, 7, 9));
    assert_eq!(*market.get_trade(SellItem::Iron), Trade { give: amount(100, 0, 0), receive: 490 });

    assert_eq!(*market.get_trade(SellItem::Stone), Trade { give: amount(0, 0, 100), receive: 300 });
    assert_eq!(*market.get_trade(SellItem::Copper), Trade { give: amount(0, 100, 0), receive: 500 });
}

#[test]
fn a_failed_sale_leaves_the_posted_price() {
    let mut market = ConsumerSector::default();
    let mut stock = amount(1000, 99, 1000);
    assert_eq!(market.trade(&mut stock, SellItem::Copper, drift(1, 2)), None);
    assert_eq!(stock, amount(1000, 99, 1000));
    assert_eq!(market.get_trade(SellItem::Copper).receive, 500);
}

#[test]
fn a_sale_pays_the_price_posted_before_it() {
    let mut market = ConsumerSector::default();
    let mut stock = amount(0, 0, 100);
    assert_eq!(market.trade(&mut stock, SellItem::Stone, drift(0, 1)), Some(300));
    assert_eq!(stock, ResourceAmount::new());
    assert_eq!(market.get_trade(SellItem::Stone).receive, 0);
    assert_eq!(market.get_trade(SellItem::Stone).give, amount(0, 0, 100));
}

#[test]
fn a_sale_may_post_a_higher_price() {
    let mut market = ConsumerSector::default();
    let mut stock = amount(0, 300, 0);
    assert_eq!(market.trade(&mut stock, SellItem::Copper, drift(101, 100)), Some(500));
    assert_eq!(market.get_trade(SellItem::Copper).receive, 505);
    assert_eq!(market.trade(&mut stock, SellItem::Copper, drift(u64::MAX, 1)), Some(505));
    assert_eq!(market.get_trade(SellItem::Copper).receive, u64::MAX);
    assert_eq!(market.trade(&mut stock, SellItem::Copper, drift(3, 1000)), Some(u64::MAX));
    assert_eq!(market.get_trade(SellItem::Copper).receive, 55_340_232_221_128_654);
}

#[test]
fn a_sale_at_the_mean_sample_of_the_random_walk() {
    let factor = (-0.01f64).exp();
    let places = 1u64 << 62;
    let step = drift((factor * places as f64) as u64, places);
    let mut market = ConsumerSector::default();
    let mut stock = amount(100, 0, 100);
    assert_eq!(market.trade(&mut stock, SellItem::Iron, step), Some(500));
    assert_eq!(market.get_trade(SellItem::Iron).receive, 495);
    assert_eq!(market.trade(&mut stock, SellItem::Stone, step), Some(300));
    assert_eq!(market.get_trade(SellItem::Stone).receive, 297);
}

#[test]
fn a_drift_needs_a_denominator() {
    assert!(PriceDrift::new(1, 0).is_none());
    assert!(PriceDrift::new(0, 0).is_none());
    let half = PriceDrift::new(1, 2).unwrap();
    assert_eq!(half.numerator(), 1);
    assert_eq!(half.denominator(), 2);
}

#[test]
fn a_drift_multiplies_and_rounds_down() {
    assert_eq!(drift(99, 100).drifted(500), 495);
    assert_eq!(drift(99, 100).drifted(495), 490);
    assert_eq!(drift(1, 3).drifted(10), 3);
    assert_eq!(drift(2, 3).drifted(10), 6);
    assert_eq!(drift(3, 2).drifted(5), 7);
    assert_eq!(drift(99, 100).drifted(0), 0);
    assert_eq!(drift(0, 7).drifted(u64::MAX), 0);
    assert_eq!(drift(99, 100).drifted(1), 0);
    assert_eq!(drift(u64::MAX, u64::MAX).drifted(u64::MAX), u64::MAX);
    assert_eq!(drift(u64::MAX - 1, u64::MAX).drifted(u64::MAX), u64::MAX - 1);
}

#[test]
fn a_drift_stops_at_the_largest_price() {
    assert_eq!(drift(2, 1).drifted(u64::MAX), u64::MAX);
    assert_eq!(drift(u64::MAX, 1).drifted(u64::MAX), u64::MAX);
    assert_eq!(drift(u64::MAX, 1).drifted(2), u64::MAX);
    assert_eq!(drift(u64::MAX, 2).drifted(2), u64::MAX);
    assert_eq!(drift(u64::MAX, 3).drifted(2), 12_297_829_382_473_034_410);
}

#[test]
fn the_drift_of_one_moves_no_price() {
    for price in [0, 1, 500, u64::MAX] {
        assert_eq!(PriceDrift::unchanged().drifted(price), price);
    }
}

#[test]
fn sell_item_positions_and_names() {
    assert_eq!(SellItem::from_index(0), Some(SellItem::Iron));
    assert_eq!(SellItem::from_index(1), Some(SellItem::Stone));
    assert_eq!(SellItem::from_index(2), Some(SellItem::Copper));
    assert_eq!(SellItem::from_index(3), None);
    assert_eq!(SellItem::Copper.index(), 2);
    assert_eq!(SellItem::Stone.name(), "Stone");
}
