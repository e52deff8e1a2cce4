//! The combat menu: three options, highlighted one at a time, cycled with
//! left/right presses and wrapping modularly at either end.

use vstd::prelude::*;

verus! {

/// Number of entries in the combat menu.
pub const MENU_COUNT: isize = 3;

/// The three actions the combat menu offers.
#[derive(Clone, Copy, Debug, PartialEq, Eq, Structural)]
pub enum CombatMenuOption {
    Attack,
    MagicAttack,
    Run,
}

/// The currently highlighted menu option.
#[derive(Clone, Copy, Debug, PartialEq, Eq, Structural)]
pub struct CombatMenuSelection {
    pub selected: CombatMenuOption,
}

/// Position of an option in the menu's left-to-right order.
pub open spec fn menu_index(option: CombatMenuOption) -> int {
    match option {
        CombatMenuOption::Attack => 0,
        CombatMenuOption::MagicAttack => 1,
        CombatMenuOption::Run => 2,
    }
}

/// The option at a given menu position.
pub open spec fn option_of_index(index: int) -> CombatMenuOption {
    if index == 0 {
        CombatMenuOption::Attack
    } else if index == 1 {
        CombatMenuOption::MagicAttack
    } else {
        CombatMenuOption::Run
    }
}

/// Net movement of one input frame: one step left, one step right, or none
/// when neither or both direction keys were pressed.
pub open spec fn cycle_delta(left: bool, right: bool) -> int {
    (if left { -1int } else { 0int }) + (if right { 1int } else { 0int })
}

/// One cycling step: move by the net delta and wrap modulo the menu size.
pub open spec fn cycle_spec(option: CombatMenuOption, left: bool, right: bool) -> CombatMenuOption {
    option_of_index((menu_index(option) + cycle_delta(left, right) + MENU_COUNT) % (MENU_COUNT as int))
}

/// Position of `option` in the menu, as an executable value.
pub fn menu_option_index(option: CombatMenuOption) -> (index: isize)
    ensures
        index == menu_index(option),
{
    match option {
        CombatMenuOption::Attack => 0,
        CombatMenuOption::MagicAttack => 1,
        CombatMenuOption::Run => 2,
    }
}

/// The option at menu position `index`.
fn menu_option_from_index(index: isize) -> (option: CombatMenuOption)
    requires
        0 <= index < MENU_COUNT,
    ensures
        option == option_of_index(index as int),
{
    if index == 0 {
        CombatMenuOption::Attack
    } else if index == 1 {
        CombatMenuOption::MagicAttack
    } else {
        CombatMenuOption::Run
    }
}

impl CombatMenuSelection {
    /// Start of an encounter: the leftmost option is highlighted.
    pub fn new() -> (menu: CombatMenuSelection)
        ensures
            menu.selected == CombatMenuOption::Attack,
    {
        CombatMenuSelection { selected: CombatMenuOption::Attack }
    }

    /// Apply one frame of direction presses to the highlighted option.
    pub fn cycle(&mut self, left: bool, right: bool)
        ensures
            final(self).selected == cycle_spec(old(self).selected, left, right),
    {
        let mut index: isize = menu_option_index(self.selected);
        if left {
            index = index - 1;
        }
        if right {
            index = index + 1;
        }
        index = (index + MENU_COUNT) % MENU_COUNT;
        self.selected = menu_option_from_index(index);
    }
}

/// Sequence of cycling steps applied in order: each element carries the
/// left and right presses of one input frame.
pub open spec fn apply_cycles(option: CombatMenuOption, ops: Seq<(bool, bool)>) -> CombatMenuOption
    decreases ops.len(),
{
    if ops.len() == 0 {
        option
    } else {
        apply_cycles(cycle_spec(option, ops[0].0, ops[0].1), ops.drop_first())
    }
}

/// Law: every menu option sits at an index inside `[0, MENU_COUNT)`.
pub proof fn lemma_menu_index_in_range(option: CombatMenuOption)
    ensures
        0 <= menu_index(option) < MENU_COUNT,
{
}

/// Law: after any number of cycling steps the selection index is still
/// inside `[0, MENU_COUNT)`: the wraparound never leaves the menu.
pub proof fn lemma_cycles_stay_in_range(option: CombatMenuOption, ops: Seq<(bool, bool)>)
    ensures
        0 <= menu_index(apply_cycles(option, ops)) < MENU_COUNT,
    decreases ops.len(),
{
    if ops.len() == 0 {
        lemma_menu_index_in_range(option);
    } else {
        lemma_cycles_stay_in_range(cycle_spec(option, ops[0].0, ops[0].1), ops.drop_first());
    }
}

} // verus!
