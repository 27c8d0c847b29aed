use tick_economy::client::FrameClock;
use tick_economy::game_state::GameAction;
use tick_economy::input::InputAction;
use tick_economy::production::ProductionItem;
use tick_economy::resource::Resource;
use tick_economy::sell::SellItem;
use tick_economy::visualization::{TabType, Visualization, WrappingTableState};

#[test]
fn table_selection_goes_round() {
    let mut t = WrappingTableState::new(1, 4);
    assert_eq!(t.get_row(), 1);
    t.next();
    assert_eq!(t.get_row(), 2);
    t.next();
    assert_eq!(t.get_row(), 3);
    t.next();
    assert_eq!(t.get_row(), 1);
    t.prev();
    assert_eq!(t.get_row(), 3);
    t.prev();
    assert_eq!(t.get_row(), 2);
}

#[test]
fn table_without_rows_stays_put() {
    let mut t = WrappingTableState::new(5, 5);
    t.next();
    assert_eq!(t.get_row(), 5);
    t.prev();
    assert_eq!(t.get_row(), 5);
}

#[test]
fn table_with_one_row_stays_put() {
    let mut t = WrappingTableState::new(usize::MAX - 1, usize::MAX);
    t.next();
    assert_eq!(t.get_row(), usize::MAX - 1);
    t.prev();
    assert_eq!(t.get_row(), usize::MAX - 1);
}

#[test]
fn front_end_starts_on_the_resources_tab() {
    let vis = Visualization::new();
    assert_eq!(vis.selected_tab(), TabType::Resources);
    assert_eq!(vis.worker_row(), 1);
    assert_eq!(vis.production_row(), 0);
    assert_eq!(vis.sell_row(), 0);
}

#[test]
fn pause_key_works_on_every_tab() {
    let mut vis = Visualization::new();
    for tab in TabType::all() {
        assert_eq!(vis.handle_input(3, InputAction::SwitchTab(tab)), None);
        assert_eq!(vis.selected_tab(), tab);
        assert_eq!(vis.handle_input(3, InputAction::TogglePause), Some(GameAction::TogglePause));
        assert_eq!(vis.handle_input(3, InputAction::Quit), None);
    }
}

#[test]
fn resources_tab_moves_workers_of_the_selected_resource() {
    let mut vis = Visualization::new();
    assert_eq!(
        vis.handle_input(2, InputAction::Increase),
        Some(GameAction::AllocateWorker(2, Resource::Iron))
    );
    assert_eq!(vis.handle_input(2, InputAction::MoveDown), None);
    assert_eq!(
        vis.handle_input(2, InputAction::Decrease),
        Some(GameAction::DeallocateWorker(2, Resource::Copper))
    );
    assert_eq!(vis.handle_input(2, InputAction::MoveDown), None);
    assert_eq!(vis.worker_row(), 3);
    assert_eq!(
        vis.handle_input(2, InputAction::Increase),
        Some(GameAction::AllocateWorker(2, Resource::Stone))
    );
    assert_eq!(vis.handle_input(2, InputAction::MoveDown), None);
    assert_eq!(vis.worker_row(), 1);
    assert_eq!(vis.handle_input(2, InputAction::MoveUp), None);
    assert_eq!(vis.worker_row(), 3);
    assert_eq!(vis.handle_input(2, InputAction::PerformAction), None);
    assert_eq!(vis.production_row(), 0);
    assert_eq!(vis.sell_row(), 0);
}

#[test]
fn production_tab_orders_the_selected_item() {
    let mut vis = Visualization::new();
    vis.handle_input(0, InputAction::SwitchTab(TabType::Production));
    assert_eq!(
        vis.handle_input(0, InputAction::PerformAction),
        Some(GameAction::Produce(0, ProductionItem::WorkerIron))
    );
    vis.handle_input(0, InputAction::MoveUp);
    assert_eq!(vis.production_row(), 1);
    assert_eq!(
        vis.handle_input(0, InputAction::PerformAction),
        Some(GameAction::Produce(0, ProductionItem::WorkerStone))
    );
    vis.handle_input(0, InputAction::MoveDown);
    assert_eq!(vis.production_row(), 0);
    assert_eq!(vis.handle_input(0, InputAction::Increase), None);
    assert_eq!(vis.handle_input(0, InputAction::Decrease), None);
    assert_eq!(vis.worker_row(), 1);
}

#[test]
fn sell_tab_sells_the_selected_item() {
    let mut vis = Visualization::new();
    vis.handle_input(9, InputAction::SwitchTab(TabType::Sell));
    assert_eq!(vis.handle_input(9, InputAction::PerformAction), Some(GameAction::Sell(9, SellItem::Iron)));
    vis.handle_input(9, InputAction::MoveDown);
    assert_eq!(vis.handle_input(9, InputAction::PerformAction), Some(GameAction::Sell(9, SellItem::Stone)));
    vis.handle_input(9, InputAction::MoveDown);
    assert_eq!(vis.handle_input(9, InputAction::PerformAction), Some(GameAction::Sell(9, SellItem::Copper)));
    vis.handle_input(9, InputAction::MoveDown);
    assert_eq!(vis.sell_row(), 0);
    vis.handle_input(9, InputAction::MoveUp);
    assert_eq!(vis.sell_row(), 2);
}

#[test]
fn help_tab_gives_no_command_and_moves_nothing() {
    let mut vis = Visualization::new();
    vis.handle_input(0, InputAction::SwitchTab(TabType::Help));
    for input in [
        InputAction::MoveUp,
        InputAction::MoveDown,
        InputAction::Increase,
        InputAction::Decrease,
        InputAction::PerformAction,
        InputAction::Quit,
    ] {
        assert_eq!(vis.handle_input(0, input), None);
    }
    assert_eq!(vis.selected_tab(), TabType::Help);
    assert_eq!((vis.worker_row(), vis.production_row(), vis.sell_row()), (1, 0, 0));
}

#[test]
fn a_tick_is_due_every_tenth_frame_of_a_running_game() {
    let mut clock = FrameClock::new();
    let mut due = Vec::new();
    for frame in 1..=25 {
        if clock.advance(false) {
            due.push(frame);
        }
    }
    assert_eq!(due, vec![10, 20]);
    assert_eq!(clock.get_frames(), 5);
}

#[test]
fn a_paused_game_counts_no_frames() {
    let mut clock = FrameClock::new();
    for _ in 0..9 {
        assert!(!clock.advance(false));
    }
    for _ in 0..30 {
        assert!(!clock.advance(true));
    }
    assert_eq!(clock.get_frames(), 9);
    assert!(clock.advance(false));
    assert_eq!(clock.get_frames(), 0);
}
