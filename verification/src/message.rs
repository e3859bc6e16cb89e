//! The discrete intents presentation feeds into the core.

use vstd::prelude::*;

use crate::controller::Control;
use crate::position::Direction;
use crate::spell::SpellElement;

verus! {

/// A top-level intent, routed by the current phase.
#[derive(Debug, Clone)]
pub enum Message {
    SpellSelect(SpellSelectMessage),
    Battle(BattleMessage),
}

/// An intent issued during battle.
#[derive(Debug, Clone)]
pub enum BattleMessage {
    /// Hover or pick the tile at the given raw coordinates.
    TileSelect(usize, usize),
    /// Cycle the control page forward or backward.
    ControlPageCycle(bool),
    /// Choose a spell by its index in the acting unit's spell list.
    SpellChoose(usize),
    /// Choose a cardinal direction for a direction-gated spell.
    DirectionSelect(Direction),
    /// Execute the action of the given control mode, if its required
    /// inputs are satisfied.
    ConfirmAction(Control),
}

/// An intent issued during the selection phase.
#[derive(Debug, Clone)]
pub enum SpellSelectMessage {
    PointChange(PointChange),
    Confirm,
}

/// One spell-point move between a player's pool and an element.
#[derive(Debug, Clone)]
pub struct PointChange {
    pub player: usize,
    pub increment: bool,
    pub element: SpellElement,
}

} // verus!
