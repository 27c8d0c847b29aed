//! The state of the tabbed front end: which tab is shown, which row each
//! table has selected, and which command a key press amounts to.

use vstd::prelude::*;
use crate::game_state::GameAction;
use crate::input::InputAction;
use crate::player::PlayerId;
use crate::production::ProductionItem;
use crate::resource::Resource;
use crate::sell::SellItem;

verus! {

/// A page of the front end.
#[derive(Clone, Copy, Debug, PartialEq, Eq, Structural)]
pub enum TabType {
    Resources,
    Help,
    Production,
    Sell,
}

impl TabType {
    /// The position of this tab in the tab bar.
    pub open spec fn ordinal(self) -> int {
        match self {
            TabType::Resources => 0,
            TabType::Help => 1,
            TabType::Production => 2,
            TabType::Sell => 3,
        }
    }

    /// The tab that stands at position `i` of the tab bar; the first tab
    /// stands in for positions outside the bar.
    pub open spec fn at(i: int) -> TabType {
        if i == 1 {
            TabType::Help
        } else if i == 2 {
            TabType::Production
        } else if i == 3 {
            TabType::Sell
        } else {
            TabType::Resources
        }
    }

    /// The key that switches to this tab, as its ASCII code: `r`, `h`, `d`
    /// or `s`.
    pub open spec fn hotkey(self) -> u8 {
        match self {
            TabType::Resources => 114,
            TabType::Help => 104,
            TabType::Production => 100,
            TabType::Sell => 115,
        }
    }

    /// The tab's title.
    pub open spec fn label(self) -> Seq<char> {
        match self {
            TabType::Resources => "Resources"@,
            TabType::Help => "Help"@,
            TabType::Production => "Production"@,
            TabType::Sell => "Sell"@,
        }
    }

    /// The tab's title.
    pub fn name(&self) -> (name: &'static str)
        ensures
            name@ == self.label(),
    {
        match self {
            TabType::Resources => "Resources",
            TabType::Help => "Help",
            TabType::Production => "Production",
            TabType::Sell => "Sell",
        }
    }

    /// The key that switches to this tab: `r`, `h`, `d` or `s`.
    pub fn get_hotkey(&self) -> (key: u8)
        ensures
            key == self.hotkey(),
    {
        match self {
            TabType::Resources => 114,
            TabType::Help => 104,
            TabType::Production => 100,
            TabType::Sell => 115,
        }
    }

    /// The position of this tab in the tab bar.
    pub fn index(self) -> (i: usize)
        ensures
            i == self.ordinal(),
    {
        match self {
            TabType::Resources => 0,
            TabType::Help => 1,
            TabType::Production => 2,
            TabType::Sell => 3,
        }
    }

    /// The tab at position `i` of the tab bar, if there is one.
    pub fn from_index(i: usize) -> (tab: Option<TabType>)
        ensures
            tab == if i < 4 {
                Some(TabType::at(i as int))
            } else {
                None
            },
    {
        match i {
            0 => Some(TabType::Resources),
            1 => Some(TabType::Help),
            2 => Some(TabType::Production),
            3 => Some(TabType::Sell),
            _ => None,
        }
    }

    /// Every tab, in the order of the tab bar.
    pub fn all() -> (tabs: [TabType; 4])
        ensures
            forall|i: int| 0 <= i < 4 ==> (#[trigger] tabs@[i]).ordinal() == i,
    {
        [TabType::Resources, TabType::Help, TabType::Production, TabType::Sell]
    }
}

/// The row after `row` in a table whose selectable rows are `min..max`,
/// going round from the last to the first. A table without selectable rows
/// keeps its row.
pub open spec fn wrap_next(row: int, min: int, max: int) -> int {
    if min == max {
        row
    } else if row + 1 == max {
        min
    } else {
        row + 1
    }
}

/// The row before `row` in a table whose selectable rows are `min..max`,
/// going round from the first to the last. A table without selectable rows
/// keeps its row.
pub open spec fn wrap_prev(row: int, min: int, max: int) -> int {
    if min == max {
        row
    } else if row == min {
        max - 1
    } else {
        row - 1
    }
}

/// Going to the next row and back, or to the previous row and forth, ends on
/// the row where it began.
pub proof fn lemma_wrap_round_trip(row: int, min: int, max: int)
    requires
        min <= row,
        row < max || (row == min && min == max),
    ensures
        wrap_prev(wrap_next(row, min, max), min, max) == row,
        wrap_next(wrap_prev(row, min, max), min, max) == row,
        min <= wrap_next(row, min, max),
        min <= wrap_prev(row, min, max),
        min < max ==> wrap_next(row, min, max) < max && wrap_prev(row, min, max) < max,
{
}

/// The selected row of a table, which moves up and down within the rows
/// `min..max` and goes round at both ends.
#[derive(Clone, Copy, Debug)]
pub struct WrappingTableState {
    selected: usize,
    min: usize,
    max: usize,
}

impl WrappingTableState {
    /// The row is one of the selectable rows; a table without selectable
    /// rows rests on its first row.
    #[verifier::type_invariant]
    closed spec fn inv(self) -> bool {
        &&& self.min <= self.selected
        &&& self.selected < self.max || (self.selected == self.min && self.min == self.max)
    }

    /// The selected row.
    pub closed spec fn row(self) -> int {
        self.selected as int
    }

    /// The first selectable row.
    pub closed spec fn lower(self) -> int {
        self.min as int
    }

    /// The row after the last selectable row.
    pub closed spec fn upper(self) -> int {
        self.max as int
    }

    /// A table whose selectable rows are `min..max`, with the first of them
    /// selected.
    pub fn new(min: usize, max: usize) -> (table: WrappingTableState)
        requires
            min <= max,
        ensures
            table.row() == min,
            table.lower() == min,
            table.upper() == max,
    {
        WrappingTableState { selected: min, min, max }
    }

    /// The selected row.
    pub fn get_row(&self) -> (row: usize)
        ensures
            row == self.row(),
            self.lower() <= row,
            row < self.upper() || (row == self.lower() && self.lower() == self.upper()),
    {
        proof {
            use_type_invariant(self);
        }
        self.selected
    }

    /// Selects the next row, the first after the last.
    pub fn next(&mut self)
        ensures
            final(self).row() == wrap_next(old(self).row(), old(self).lower(), old(self).upper()),
            final(self).lower() == old(self).lower(),
            final(self).upper() == old(self).upper(),
    {
        proof {
            use_type_invariant(&*self);
        }
        if self.min == self.max {
            return;
        }
        let curr = self.selected;
        if curr + 1 == self.max {
            self.selected = self.min;
        } else {
            self.selected = curr + 1;
        }
    }

    /// Selects the previous row, the last before the first.
    pub fn prev(&mut self)
        ensures
            final(self).row() == wrap_prev(old(self).row(), old(self).lower(), old(self).upper()),
            final(self).lower() == old(self).lower(),
            final(self).upper() == old(self).upper(),
    {
        proof {
            use_type_invariant(&*self);
        }
        if self.min == self.max {
            return;
        }
        let curr = self.selected;
        if curr == self.min {
            self.selected = self.max - 1;
        } else {
            self.selected = curr - 1;
        }
    }
}

/// The mathematical model of the front end's state.
pub struct VisualizationView {
    /// The tab that is shown.
    pub tab: TabType,
    /// The row selected in the workers table: row 0 shows the idle workers
    /// and cannot be selected, row `i + 1` the workers of resource `i`.
    pub worker_row: int,
    /// The row selected in the production table: the position of an item.
    pub production_row: int,
    /// The row selected in the market table: the position of an item.
    pub sell_row: int,
}

impl VisualizationView {
    /// The front end as it starts: the resources tab, and the first
    /// selectable row of every table.
    pub open spec fn initial() -> VisualizationView {
        VisualizationView {
            tab: TabType::Resources,
            worker_row: 1,
            production_row: 0,
            sell_row: 0,
        }
    }

    /// Every selected row is a row of its table.
    pub open spec fn wf(self) -> bool {
        &&& 1 <= self.worker_row <= 3
        &&& 0 <= self.production_row < 2
        &&& 0 <= self.sell_row < 3
    }

    /// The command that `input` amounts to for `player`, if any. The pause
    /// key works on every tab; the other keys act on what the shown tab has
    /// selected.
    pub open spec fn command(self, player: PlayerId, input: InputAction) -> Option<GameAction> {
        match input {
            InputAction::TogglePause => Some(GameAction::TogglePause),
            InputAction::SwitchTab(_) => None,
            _ => match self.tab {
                TabType::Resources => match input {
                    InputAction::Decrease => Some(
                        GameAction::DeallocateWorker(player, Resource::at(self.worker_row - 1)),
                    ),
                    InputAction::Increase => Some(
                        GameAction::AllocateWorker(player, Resource::at(self.worker_row - 1)),
                    ),
                    _ => None,
                },
                TabType::Help => None,
                TabType::Production => match input {
                    InputAction::PerformAction => Some(
                        GameAction::Produce(player, ProductionItem::at(self.production_row)),
                    ),
                    _ => None,
                },
                TabType::Sell => match input {
                    InputAction::PerformAction => Some(
                        GameAction::Sell(player, SellItem::at(self.sell_row)),
                    ),
                    _ => None,
                },
            },
        }
    }

    /// The front end after `input`: a tab key shows its tab, and the up and
    /// down keys move the selection of the shown tab's table.
    pub open spec fn after(self, input: InputAction) -> VisualizationView {
        match input {
            InputAction::SwitchTab(tab) => VisualizationView { tab, ..self },
            InputAction::MoveUp => match self.tab {
                TabType::Resources => VisualizationView {
                    worker_row: wrap_prev(self.worker_row, 1, 4),
                    ..self
                },
                TabType::Help => self,
                TabType::Production => VisualizationView {
                    production_row: wrap_prev(self.production_row, 0, 2),
                    ..self
                },
                TabType::Sell => VisualizationView {
                    sell_row: wrap_prev(self.sell_row, 0, 3),
                    ..self
                },
            },
            InputAction::MoveDown => match self.tab {
                TabType::Resources => VisualizationView {
                    worker_row: wrap_next(self.worker_row, 1, 4),
                    ..self
                },
                TabType::Help => self,
                TabType::Production => VisualizationView {
                    production_row: wrap_next(self.production_row, 0, 2),
                    ..self
                },
                TabType::Sell => VisualizationView {
                    sell_row: wrap_next(self.sell_row, 0, 3),
                    ..self
                },
            },
            _ => self,
        }
    }

    /// No key moves a selection out of its table.
    pub proof fn lemma_after_keeps_wf(self, input: InputAction)
        requires
            self.wf(),
        ensures
            self.after(input).wf(),
    {
    }
}

/// The tab that shows the stockpiles and lets the player move workers
/// between resources.
#[derive(Clone, Copy, Debug)]
pub struct ResourceTab {
    worker_selected: WrappingTableState,
}

impl Default for ResourceTab {
    fn default() -> (tab: ResourceTab)
        ensures
            tab.row() == 1,
    {
        ResourceTab { worker_selected: WrappingTableState::new(1, Resource::count() + 1) }
    }
}

impl ResourceTab {
    #[verifier::type_invariant]
    closed spec fn inv(self) -> bool {
        self.worker_selected.lower() == 1 && self.worker_selected.upper() == 4
    }

    /// The row selected in the workers table.
    pub closed spec fn row(self) -> int {
        self.worker_selected.row()
    }

    /// The row selected in the workers table, which is 1, 2 or 3.
    pub fn get_row(&self) -> (row: usize)
        ensures
            row == self.row(),
            1 <= row <= 3,
    {
        proof {
            use_type_invariant(self);
        }
        self.worker_selected.get_row()
    }

    /// Moves the selection on the up and down keys; on the left and right
    /// keys returns the command that takes a worker from, or gives one to,
    /// the selected resource.
    pub fn handle_input(&mut self, player: PlayerId, input: InputAction) -> (action: Option<
        GameAction,
    >)
        ensures
            final(self).row() == match input {
                InputAction::MoveUp => wrap_prev(old(self).row(), 1, 4),
                InputAction::MoveDown => wrap_next(old(self).row(), 1, 4),
                _ => old(self).row(),
            },
            action == match input {
                InputAction::Decrease => Some(
                    GameAction::DeallocateWorker(player, Resource::at(old(self).row() - 1)),
                ),
                InputAction::Increase => Some(
                    GameAction::AllocateWorker(player, Resource::at(old(self).row() - 1)),
                ),
                _ => None,
            },
    {
        proof {
            use_type_invariant(&*self);
        }
        match input {
            InputAction::MoveUp => {
                let mut table = self.worker_selected;
                table.prev();
                self.worker_selected = table;
                None
            },
            InputAction::MoveDown => {
                let mut table = self.worker_selected;
                table.next();
                self.worker_selected = table;
                None
            },
            InputAction::Decrease => {
                match Resource::from_index(self.worker_selected.get_row() - 1) {
                    Some(resource) => Some(GameAction::DeallocateWorker(player, resource)),
                    None => None,
                }
            },
            InputAction::Increase => {
                match Resource::from_index(self.worker_selected.get_row() - 1) {
                    Some(resource) => Some(GameAction::AllocateWorker(player, resource)),
                    None => None,
                }
            },
            _ => None,
        }
    }
}

/// The tab that explains the keys. It has no selection and gives no
/// command.
#[derive(Clone, Copy, Debug, Default)]
pub struct HelpTab {}

impl HelpTab {
    /// Gives no command, whatever the key.
    pub fn handle_input(&mut self, _player: PlayerId, _input: InputAction) -> (action: Option<
        GameAction,
    >)
        ensures
            action.is_none(),
    {
        None
    }
}

/// The tab that shows the catalog and lets the player order an item.
#[derive(Clone, Copy, Debug)]
pub struct ProductionTab {
    selected: WrappingTableState,
}

impl Default for ProductionTab {
    fn default() -> (tab: ProductionTab)
        ensures
            tab.row() == 0,
    {
        ProductionTab { selected: WrappingTableState::new(0, 2) }
    }
}

impl ProductionTab {
    #[verifier::type_invariant]
    closed spec fn inv(self) -> bool {
        self.selected.lower() == 0 && self.selected.upper() == 2
    }

    /// The row selected in the catalog.
    pub closed spec fn row(self) -> int {
        self.selected.row()
    }

    /// The row selected in the catalog, which is 0 or 1.
    pub fn get_row(&self) -> (row: usize)
        ensures
            row == self.row(),
            row < 2,
    {
        proof {
            use_type_invariant(self);
        }
        self.selected.get_row()
    }

    /// Moves the selection on the up and down keys; on the return key
    /// returns the command that orders the selected item.
    pub fn handle_input(&mut self, player: PlayerId, input: InputAction) -> (action: Option<
        GameAction,
    >)
        ensures
            final(self).row() == match input {
                InputAction::MoveUp => wrap_prev(old(self).row(), 0, 2),
                InputAction::MoveDown => wrap_next(old(self).row(), 0, 2),
                _ => old(self).row(),
            },
            action == match input {
                InputAction::PerformAction => Some(
                    GameAction::Produce(player, ProductionItem::at(old(self).row())),
                ),
                _ => None,
            },
    {
        proof {
            use_type_invariant(&*self);
        }
        match input {
            InputAction::MoveUp => {
                let mut table = self.selected;
                table.prev();
                self.selected = table;
                None
            },
            InputAction::MoveDown => {
                let mut table = self.selected;
                table.next();
                self.selected = table;
                None
            },
            InputAction::PerformAction => {
                match ProductionItem::from_index(self.selected.get_row()) {
                    Some(item) => Some(GameAction::Produce(player, item)),
                    None => None,
                }
            },
            _ => None,
        }
    }
}

/// The tab that shows the market and lets the player sell an item.
#[derive(Clone, Copy, Debug)]
pub struct SellTab {
    selected: WrappingTableState,
}

impl Default for SellTab {
    fn default() -> (tab: SellTab)
        ensures
            tab.row() == 0,
    {
        SellTab { selected: WrappingTableState::new(0, 3) }
    }
}

impl SellTab {
    #[verifier::type_invariant]
    closed spec fn inv(self) -> bool {
        self.selected.lower() == 0 && self.selected.upper() == 3
    }

    /// The row selected in the market table.
    pub closed spec fn row(self) -> int {
        self.selected.row()
    }

    /// The row selected in the market table, which is 0, 1 or 2.
    pub fn get_row(&self) -> (row: usize)
        ensures
            row == self.row(),
            row < 3,
    {
        proof {
            use_type_invariant(self);
        }
        self.selected.get_row()
    }

    /// Moves the selection on the up and down keys; on the return key
    /// returns the command that sells the selected item.
    pub fn handle_input(&mut self, player: PlayerId, input: InputAction) -> (action: Option<
        GameAction,
    >)
        ensures
            final(self).row() == match input {
                InputAction::MoveUp => wrap_prev(old(self).row(), 0, 3),
                InputAction::MoveDown => wrap_next(old(self).row(), 0, 3),
                _ => old(self).row(),
            },
            action == match input {
                InputAction::PerformAction => Some(
                    GameAction::Sell(player, SellItem::at(old(self).row())),
                ),
                _ => None,
            },
    {
        proof {
            use_type_invariant(&*self);
        }
        match input {
            InputAction::MoveUp => {
                let mut table = self.selected;
                table.prev();
                self.selected = table;
                None
            },
            InputAction::MoveDown => {
                let mut table = self.selected;
                table.next();
                self.selected = table;
                None
            },
            InputAction::PerformAction => {
                match SellItem::from_index(self.selected.get_row()) {
                    Some(item) => Some(GameAction::Sell(player, item)),
                    None => None,
                }
            },
            _ => None,
        }
    }
}

/// The state of the front end: the shown tab and the state of every tab.
#[derive(Clone, Copy, Debug)]
pub struct Visualization {
    tab: TabType,
    resource_tab: ResourceTab,
    help_tab: HelpTab,
    prod_tab: ProductionTab,
    sell_tab: SellTab,
}

impl View for Visualization {
    type V = VisualizationView;

    closed spec fn view(&self) -> VisualizationView {
        VisualizationView {
            tab: self.tab,
            worker_row: self.resource_tab.row(),
            production_row: self.prod_tab.row(),
            sell_row: self.sell_tab.row(),
        }
    }
}

impl Visualization {
    /// The front end as it starts.
    pub fn new() -> (vis: Visualization)
        ensures
            vis@ == VisualizationView::initial(),
    {
        Visualization {
            tab: TabType::Resources,
            resource_tab: ResourceTab::default(),
            help_tab: HelpTab {},
            prod_tab: ProductionTab::default(),
            sell_tab: SellTab::default(),
        }
    }

    /// The tab that is shown.
    pub fn selected_tab(&self) -> (tab: TabType)
        ensures
            tab == self@.tab,
    {
        self.tab
    }

    /// The row selected in the workers table.
    pub fn worker_row(&self) -> (row: usize)
        ensures
            row == self@.worker_row,
            1 <= row <= 3,
    {
        self.resource_tab.get_row()
    }

    /// The row selected in the production table.
    pub fn production_row(&self) -> (row: usize)
        ensures
            row == self@.production_row,
            row < 2,
    {
        self.prod_tab.get_row()
    }

    /// The row selected in the market table.
    pub fn sell_row(&self) -> (row: usize)
        ensures
            row == self@.sell_row,
            row < 3,
    {
        self.sell_tab.get_row()
    }

    /// Takes a key press: changes tab or selection as the key asks, and
    /// returns the command for the game that the key amounts to, if any.
    pub fn handle_input(&mut self, player: PlayerId, input: InputAction) -> (action: Option<
        GameAction,
    >)
        ensures
            action == old(self)@.command(player, input),
            final(self)@ == old(self)@.after(input),
    {
        match input {
            InputAction::TogglePause => Some(GameAction::TogglePause),
            InputAction::SwitchTab(in_tab) => {
                self.tab = in_tab;
                None
            },
            i => match self.tab {
                TabType::Resources => self.resource_tab.handle_input(player, i),
                TabType::Help => self.help_tab.handle_input(player, i),
                TabType::Production => self.prod_tab.handle_input(player, i),
                TabType::Sell => self.sell_tab.handle_input(player, i),
            },
        }
    }
}

} // verus!
