//! Decoding of key presses. The keyboard delivers bytes; a key is one byte,
//! or the three bytes of an escape sequence for an arrow key.

use vstd::prelude::*;
use crate::visualization::TabType;

verus! {

/// What a key press asks for.
#[derive(Clone, Copy, Debug, PartialEq, Eq, Structural)]
pub enum InputAction {
    Quit,
    TogglePause,
    MoveUp,
    MoveDown,
    Decrease,
    Increase,
    SwitchTab(TabType),
    PerformAction,
}

/// The byte that starts an escape sequence.
pub const ESCAPE: u8 = 27;

/// The byte of the return key.
pub const RETURN: u8 = 13;

/// The byte of the key `q`.
pub const KEY_QUIT: u8 = 113;

/// The byte of the key `p`.
pub const KEY_PAUSE: u8 = 112;

/// The byte `[`, which follows the escape byte in an arrow key's sequence.
pub const BRACKET: u8 = 91;

/// The byte `A`, which ends the sequence of the up arrow.
pub const ARROW_UP: u8 = 65;

/// The byte `B`, which ends the sequence of the down arrow.
pub const ARROW_DOWN: u8 = 66;

/// The byte `C`, which ends the sequence of the right arrow.
pub const ARROW_RIGHT: u8 = 67;

/// The byte `D`, which ends the sequence of the left arrow.
pub const ARROW_LEFT: u8 = 68;

/// The tab whose hotkey is `key`, if there is one.
pub fn match_tab_hotkey(key: u8) -> (found: Option<TabType>)
    ensures
        match found {
            Some(tab) => tab.hotkey() == key,
            None => forall|tab: TabType| tab.hotkey() != key,
        },
{
    let tabs = TabType::all();
    let mut i: usize = 0;
    while i < 4
        invariant
            i <= 4,
            forall|k: int| 0 <= k < 4 ==> (#[trigger] tabs@[k]).ordinal() == k,
            forall|k: int| 0 <= k < i ==> (#[trigger] tabs@[k]).hotkey() != key,
        decreases 4 - i,
    {
        if tabs[i].get_hotkey() == key {
            return Some(tabs[i]);
        }
        i += 1;
    }
    assert forall|tab: TabType| tab.hotkey() != key by {
        assert(tabs@[tab.ordinal()].ordinal() == tab.ordinal());
        assert(tabs@[tab.ordinal()] == tab);
    }
    None
}

/// What a single byte that is not part of an escape sequence asks for.
pub open spec fn plain_key(key: u8) -> Option<InputAction> {
    if key == TabType::Resources.hotkey() {
        Some(InputAction::SwitchTab(TabType::Resources))
    } else if key == TabType::Help.hotkey() {
        Some(InputAction::SwitchTab(TabType::Help))
    } else if key == TabType::Production.hotkey() {
        Some(InputAction::SwitchTab(TabType::Production))
    } else if key == TabType::Sell.hotkey() {
        Some(InputAction::SwitchTab(TabType::Sell))
    } else if key == KEY_QUIT {
        Some(InputAction::Quit)
    } else if key == KEY_PAUSE {
        Some(InputAction::TogglePause)
    } else if key == RETURN {
        Some(InputAction::PerformAction)
    } else {
        None
    }
}

/// What the last byte of an arrow key's escape sequence asks for.
pub open spec fn arrow_key(key: u8) -> Option<InputAction> {
    if key == ARROW_UP {
        Some(InputAction::MoveUp)
    } else if key == ARROW_DOWN {
        Some(InputAction::MoveDown)
    } else if key == ARROW_RIGHT {
        Some(InputAction::Increase)
    } else if key == ARROW_LEFT {
        Some(InputAction::Decrease)
    } else {
        None
    }
}

/// What the bytes after an escape byte ask for, and how many of them are
/// used up. An item of `pending` is a byte read, or `None` for a read that
/// failed; where `pending` ends, nothing more can be read now. Reading
/// stops at the first item that does not continue the sequence, and that
/// item is used up.
pub open spec fn escaped(pending: Seq<Option<u8>>) -> (Option<InputAction>, nat) {
    if pending.len() == 0 {
        (None, 0)
    } else if pending[0] != Some(BRACKET) {
        (None, 1)
    } else if pending.len() == 1 {
        (None, 1)
    } else {
        match pending[1] {
            Some(key) => (arrow_key(key), 2),
            None => (None, 2),
        }
    }
}

/// What the bytes of `pending` ask for, and how many of them are used up.
pub open spec fn parsed(pending: Seq<Option<u8>>) -> (Option<InputAction>, nat) {
    if pending.len() == 0 {
        (None, 0)
    } else {
        match pending[0] {
            None => (None, 1),
            Some(key) => if key == ESCAPE {
                (escaped(pending.skip(1)).0, 1 + escaped(pending.skip(1)).1)
            } else {
                (plain_key(key), 1)
            },
        }
    }
}

/// Decodes the next key press from the items read from the keyboard, and
/// says how many items that used up. An item is a byte, or `None` for a
/// read that failed.
pub fn parse_input(pending: &[Option<u8>]) -> (result: (Option<InputAction>, usize))
    ensures
        result.0 == parsed(pending@).0,
        result.1 == parsed(pending@).1,
        result.1 <= pending@.len(),
{
    if pending.len() == 0 {
        return (None, 0);
    }
    let item = match pending[0] {
        Some(item) => item,
        None => {
            return (None, 1);
        },
    };
    if let Some(tab) = match_tab_hotkey(item) {
        return (Some(InputAction::SwitchTab(tab)), 1);
    }
    assert(TabType::Resources.hotkey() != item);
    assert(TabType::Help.hotkey() != item);
    assert(TabType::Production.hotkey() != item);
    assert(TabType::Sell.hotkey() != item);
    if item == KEY_QUIT {
        (Some(InputAction::Quit), 1)
    } else if item == KEY_PAUSE {
        (Some(InputAction::TogglePause), 1)
    } else if item == RETURN {
        (Some(InputAction::PerformAction), 1)
    } else if item == ESCAPE {
        let rest = vstd::slice::slice_subrange(pending, 1, pending.len());
        assert(rest@ =~= pending@.skip(1));
        let (action, used) = parse_escaped(rest);
        (action, 1 + used)
    } else {
        (None, 1)
    }
}

/// Decodes what follows an escape byte, and says how many items that used
/// up.
pub fn parse_escaped(pending: &[Option<u8>]) -> (result: (Option<InputAction>, usize))
    ensures
        result.0 == escaped(pending@).0,
        result.1 == escaped(pending@).1,
        result.1 <= pending@.len(),
        result.1 <= 2,
{
    if pending.len() == 0 {
        return (None, 0);
    }
    match pending[0] {
        Some(key) => {
            if key != BRACKET {
                return (None, 1);
            }
        },
        None => {
            return (None, 1);
        },
    }
    if pending.len() == 1 {
        return (None, 1);
    }
    match pending[1] {
        Some(key) => {
            if key == ARROW_UP {
                (Some(InputAction::MoveUp), 2)
            } else if key == ARROW_DOWN {
                (Some(InputAction::MoveDown), 2)
            } else if key == ARROW_RIGHT {
                (Some(InputAction::Increase), 2)
            } else if key == ARROW_LEFT {
                (Some(InputAction::Decrease), 2)
            } else {
                (None, 2)
            }
        },
        None => (None, 2),
    }
}

} // verus!
