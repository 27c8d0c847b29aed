use tick_economy::game_state::{GameAction, GameState};
use tick_economy::player::WorkerAction;
use tick_economy::production::{Duration, ProductionItem};
use tick_economy::resource::Resource;
use tick_economy::sell::{PriceDrift, SellItem};

fn actions(state: &GameState, player: u8) -> Vec<WorkerAction> {
    state.get_player(player).workers.iter().map(|w| w.current_action).collect()
}

fn stock(state: &GameState, player: u8) -> [u32; 3] {
    state.get_player(player).get_stockpile().iter()
}

#[test]
fn new_game_is_empty_and_running() {
    let state = GameState::new();
    assert_eq!(state.player_count(), 0);
    assert!(!state.is_paused());
    assert_eq!(state.get_sell_trade(SellItem::Iron).receive, 500);
    assert_eq!(state.get_sell_trade(SellItem::Stone).receive, 300);
    assert_eq!(state.get_sell_trade(SellItem::Copper).receive, 500);
}

#[test]
fn players_get_sequential_ids() {
    let mut state = GameState::new();
    for expected in 0..=255u8 {
        assert_eq!(state.register_player(), expected);
    }
    assert_eq!(state.player_count(), 256);
    assert_eq!(state.get_player(0).get_id(), 0);
    assert_eq!(state.get_player(255).get_id(), 255);
    assert_eq!(actions(&state, 200), vec![WorkerAction::Idle; 3]);
}

#[test]
fn gathering_allocation_and_deallocation_end_to_end() {
    let mut state = GameState::new();
    let id = state.register_player();
    assert_eq!(id, 0);
    for _ in 0..3 {
        state.handle_action(GameAction::AllocateWorker(id, Resource::Iron), PriceDrift::unchanged());
    }
    assert_eq!(actions(&state, id), vec![WorkerAction::Gather(Resource::Iron); 3]);

    state.step();
    assert_eq!(stock(&state, id), [3, 0, 0]);

    state.handle_action(GameAction::AllocateWorker(id, Resource::Copper), PriceDrift::unchanged());
    assert_eq!(actions(&state, id), vec![WorkerAction::Gather(Resource::Iron); 3]);
    assert_eq!(stock(&state, id), [3, 0, 0]);

    state.handle_action(GameAction::DeallocateWorker(id, Resource::Iron), PriceDrift::unchanged());
    assert_eq!(
        actions(&state, id),
        vec![WorkerAction::Idle, WorkerAction::Gather(Resource::Iron), WorkerAction::Gather(Resource::Iron)]
    );
    state.step();
    assert_eq!(stock(&state, id), [5, 0, 0]);
}

#[test]
fn reallocation_without_a_worker_changes_nothing() {
    let mut state = GameState::new();
    let id = state.register_player();
    state.handle_action(GameAction::DeallocateWorker(id, Resource::Stone), PriceDrift::unchanged());
    assert_eq!(actions(&state, id), vec![WorkerAction::Idle; 3]);
    for _ in 0..3 {
        state.handle_action(GameAction::AllocateWorker(id, Resource::Stone), PriceDrift::unchanged());
    }
    *state.get_player_mut(id).get_stockpile_mut().get_mut(Resource::Copper) = 9;
    state.get_player_mut(id).add_money(4);
    state.handle_action(GameAction::AllocateWorker(id, Resource::Iron), PriceDrift::unchanged());
    state.handle_action(GameAction::DeallocateWorker(id, Resource::Iron), PriceDrift::unchanged());
    state.handle_action(GameAction::DeallocateWorker(id, Resource::Copper), PriceDrift::unchanged());
    assert_eq!(actions(&state, id), vec![WorkerAction::Gather(Resource::Stone); 3]);
    assert_eq!(stock(&state, id), [0, 9, 0]);
    assert_eq!(state.get_player(id).get_money(), 4);
    assert_eq!(state.get_player(id).queue_len(), 0);
    assert!(!state.is_paused());
}

#[test]
fn commands_act_on_the_named_player_only() {
    let mut state = GameState::new();
    state.register_player();
    state.register_player();
    state.handle_action(GameAction::AllocateWorker(1, Resource::Iron), PriceDrift::unchanged());
    state.handle_action(GameAction::AllocateWorker(1, Resource::Copper), PriceDrift::unchanged());
    state.handle_action(GameAction::AllocateWorker(1, Resource::Stone), PriceDrift::unchanged());
    state.step();
    assert_eq!(stock(&state, 0), [0, 0, 0]);
    assert_eq!(stock(&state, 1), [1, 1, 1]);
    assert_eq!(actions(&state, 0), vec![WorkerAction::Idle; 3]);
}

#[test]
fn toggle_pause_flips_the_flag_and_nothing_else() {
    let mut state = GameState::new();
    state.register_player();
    state.handle_action(GameAction::TogglePause, PriceDrift::new(1, 2).unwrap());
    assert!(state.is_paused());
    state.handle_action(GameAction::AllocateWorker(0, Resource::Iron), PriceDrift::unchanged());
    assert_eq!(state.get_player(0).gathering_count(Resource::Iron), 1);
    state.handle_action(GameAction::TogglePause, PriceDrift::new(1, 2).unwrap());
    assert!(!state.is_paused());
    assert_eq!(state.get_sell_trade(SellItem::Iron).receive, 500);
}

#[test]
fn produce_pays_the_cost_and_queues_the_item() {
    let mut state = GameState::new();
    let id = state.register_player();
    *state.get_player_mut(id).get_stockpile_mut().get_mut(Resource::Stone) = 150;
    state.handle_action(GameAction::Produce(id, ProductionItem::WorkerStone), PriceDrift::unchanged());
    assert_eq!(stock(&state, id), [0, 0, 50]);
    assert_eq!(
        state.get_player(id).get_current_production(),
        Some(&(ProductionItem::WorkerStone, Duration { ticks: 25 }))
    );
    for _ in 0..24 {
        state.step();
    }
    assert_eq!(state.get_player(id).worker_count(), 3);
    assert_eq!(
        state.get_player(id).get_current_production(),
        Some(&(ProductionItem::WorkerStone, Duration { ticks: 1 }))
    );
    state.step();
    assert_eq!(state.get_player(id).worker_count(), 4);
    assert!(state.get_player(id).get_current_production().is_none());
    assert_eq!(state.get_player(id).idle_count(), 4);
}

#[test]
fn produce_without_the_cost_changes_nothing() {
    let mut state = GameState::new();
    let id = state.register_player();
    *state.get_player_mut(id).get_stockpile_mut().get_mut(Resource::Iron) = 99;
    *state.get_player_mut(id).get_stockpile_mut().get_mut(Resource::Stone) = 100;
    state.handle_action(GameAction::Produce(id, ProductionItem::WorkerIron), PriceDrift::unchanged());
    assert_eq!(stock(&state, id), [99, 0, 100]);
    assert_eq!(state.get_player(id).queue_len(), 0);
}

#[test]
fn sell_credits_the_posted_price_and_posts_the_new_one() {
    let mut state = GameState::new();
    state.register_player();
    let id = state.register_player();
    *state.get_player_mut(id).get_stockpile_mut().get_mut(Resource::Iron) = 250;
    state.handle_action(GameAction::Sell(id, SellItem::Iron), PriceDrift::new(99, 100).unwrap());
    assert_eq!(state.get_player(id).get_money(), 500);
    assert_eq!(stock(&state, id), [150, 0, 0]);
    assert_eq!(state.get_sell_trade(SellItem::Iron).receive, 495);
    state.handle_action(GameAction::Sell(id, SellItem::Iron), PriceDrift::new(99, 100).unwrap());
    assert_eq!(state.get_player(id).get_money(), 995);
    assert_eq!(stock(&state, id), [50, 0, 0]);
    assert_eq!(state.get_sell_trade(SellItem::Iron).receive, 490);
    state.handle_action(GameAction::Sell(id, SellItem::Iron), PriceDrift::new(1, 2).unwrap());
    assert_eq!(state.get_player(id).get_money(), 995);
    assert_eq!(stock(&state, id), [50, 0, 0]);
    assert_eq!(state.get_sell_trade(SellItem::Iron).receive, 490);
    assert_eq!(state.get_player(0).get_money(), 0);
    assert_eq!(state.get_sell_trade(SellItem::Stone).receive, 300);
}

#[test]
fn accepts_tells_which_commands_can_be_taken() {
    let mut state = GameState::new();
    assert!(state.accepts(GameAction::TogglePause));
    assert!(!state.accepts(GameAction::AllocateWorker(0, Resource::Iron)));
    let id = state.register_player();
    assert!(state.accepts(GameAction::AllocateWorker(id, Resource::Iron)));
    assert!(state.accepts(GameAction::DeallocateWorker(id, Resource::Iron)));
    assert!(state.accepts(GameAction::Produce(id, ProductionItem::WorkerIron)));
    assert!(!state.accepts(GameAction::Produce(1, ProductionItem::WorkerIron)));
    assert!(!state.accepts(GameAction::Sell(1, SellItem::Iron)));
    assert!(state.accepts(GameAction::Sell(id, SellItem::Iron)));
    state.get_player_mut(id).add_money(u64::MAX - 499);
    assert!(state.accepts(GameAction::Sell(id, SellItem::Iron)));
    *state.get_player_mut(id).get_stockpile_mut().get_mut(Resource::Iron) = 100;
    *state.get_player_mut(id).get_stockpile_mut().get_mut(Resource::Stone) = 100;
    assert!(!state.accepts(GameAction::Sell(id, SellItem::Iron)));
    assert!(state.accepts(GameAction::Sell(id, SellItem::Stone)));
}

#[test]
fn game_can_step_until_a_counter_is_full() {
    let mut state = GameState::new();
    state.register_player();
    let id = state.register_player();
    assert!(state.can_step());
    *state.get_player_mut(id).get_stockpile_mut().get_mut(Resource::Copper) = u32::MAX - 1;
    state.handle_action(GameAction::AllocateWorker(id, Resource::Copper), PriceDrift::unchanged());
    assert!(state.can_step());
    state.step();
    assert!(!state.can_step());
    state.handle_action(GameAction::DeallocateWorker(id, Resource::Copper), PriceDrift::unchanged());
    assert!(state.can_step());
}
