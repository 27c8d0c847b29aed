use tick_economy::resource::{Resource, ResourceAmount};

fn amount(iron: u32, copper: u32, stone: u32) -> ResourceAmount {
    let mut a = ResourceAmount::new();
    *a.get_mut(Resource::Iron) = iron;
    *a.get_mut(Resource::Copper) = copper;
    *a.get_mut(Resource::Stone) = stone;
    a
}

#[test]
fn new_amount_is_all_zero() {
    let a = ResourceAmount::new();
    assert_eq!(a.get(Resource::Iron), 0);
    assert_eq!(a.get(Resource::Copper), 0);
    assert_eq!(a.get(Resource::Stone), 0);
    assert_eq!(a, ResourceAmount::default());
}

#[test]
fn get_mut_changes_one_counter_only() {
    let mut a = amount(1, 2, 3);
    *a.get_mut(Resource::Copper) += 40;
    assert_eq!(a.get(Resource::Iron), 1);
    assert_eq!(a.get(Resource::Copper), 42);
    assert_eq!(a.get(Resource::Stone), 3);
}

#[test]
fn consume_takes_every_counter_when_all_suffice() {
    let mut s = amount(10, 20, 30);
    assert!(s.consume(&amount(1, 20, 7)));
    assert_eq!(s, amount(9, 0, 23));
}

#[test]
fn consume_of_nothing_succeeds_and_changes_nothing() {
    let mut s = amount(0, 5, 0);
    assert!(s.consume(&ResourceAmount::new()));
    assert_eq!(s, amount(0, 5, 0));
}

#[test]
fn consume_of_everything_leaves_zero() {
    let mut s = amount(u32::MAX, 1, 0);
    assert!(s.consume(&amount(u32::MAX, 1, 0)));
    assert_eq!(s, ResourceAmount::new());
}

#[test]
fn consume_short_in_one_category_changes_nothing() {
    for short in [amount(11, 0, 0), amount(0, 21, 0), amount(0, 0, 31), amount(10, 20, 31)] {
        let mut s = amount(10, 20, 30);
        assert!(!s.consume(&short));
        assert_eq!(s, amount(10, 20, 30));
    }
}

#[test]
fn has_available_compares_category_by_category() {
    let s = amount(10, 20, 30);
    assert!(s.has_available(&amount(10, 20, 30)));
    assert!(s.has_available(&amount(0, 0, 0)));
    assert!(!s.has_available(&amount(11, 0, 0)));
    assert!(!s.has_available(&amount(0, 0, 31)));
}

#[test]
fn iter_gives_the_counters_in_enumeration_order() {
    let a = amount(7, 8, 9);
    assert_eq!(a.iter(), [7, 8, 9]);
    let again: Vec<u32> = a.iter().into_iter().collect();
    assert_eq!(again, vec![7, 8, 9]);
}

#[test]
fn resource_positions_and_names() {
    assert_eq!(Resource::count(), 3);
    assert_eq!(Resource::all(), [Resource::Iron, Resource::Copper, Resource::Stone]);
    assert_eq!(Resource::Iron.index(), 0);
    assert_eq!(Resource::Copper.index(), 1);
    assert_eq!(Resource::Stone.index(), 2);
    assert_eq!(Resource::from_index(0), Some(Resource::Iron));
    assert_eq!(Resource::from_index(1), Some(Resource::Copper));
    assert_eq!(Resource::from_index(2), Some(Resource::Stone));
    assert_eq!(Resource::from_index(3), None);
    assert_eq!(Resource::from_index(usize::MAX), None);
    assert_eq!(Resource::Copper.name(), "Copper");
    assert_eq!(Resource::names(), vec!["Iron".to_string(), "Copper".to_string(), "Stone".to_string()]);
}
