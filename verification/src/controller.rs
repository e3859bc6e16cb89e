//! The turn/selection state machine: pure state mutations driven by
//! discrete player intents, with move execution gated behind an
//! explicit confirm.

use vstd::prelude::*;

use crate::battle::{lemma_reachable_unblocked, Battle};
use crate::errors::IllegalMove;
use crate::board::{cell_index, Entity, HEIGHT, WIDTH};
use crate::message::{BattleMessage, Message, SpellSelectMessage};
use crate::model::{Model, SpellChoice, SpellSelect};
use crate::position::{Direction, Position};
use crate::spell::{Spell, SpellInputType};
use crate::targeting::{position_filter_holds, position_filter_holds_spec};

verus! {

/// A page of the battle control pane: moving, or casting a spell.
#[derive(Clone, Copy, PartialEq, Eq, Debug, Structural)]
pub enum Control {
    Movement,
    Spell,
}

/// Number of control pages.
pub const CONTROL_COUNT: usize = 2;

/// The orchestrator's interaction state: the model plus the pending
/// selection (hovered and picked tile, control page, chosen spell and
/// direction).
pub struct Controller {
    model: Model,
    hovered_tile: (usize, usize),
    control_page: usize,
    selected_tile: Option<(usize, usize)>,
    current_spell_index: Option<usize>,
    current_direction: Option<Direction>,
}

impl Controller {
    /// The current phase model.
    pub closed spec fn spec_model(self) -> Model {
        self.model
    }

    /// The tile most recently hovered.
    pub closed spec fn spec_hovered(self) -> (usize, usize) {
        self.hovered_tile
    }

    /// The control page, reduced to the page count.
    pub closed spec fn spec_page(self) -> int {
        self.control_page as int
    }

    /// The picked tile, if any.
    pub closed spec fn spec_selected(self) -> Option<(usize, usize)> {
        self.selected_tile
    }

    /// The chosen spell index, if any.
    pub closed spec fn spec_spell_index(self) -> Option<usize> {
        self.current_spell_index
    }

    /// The chosen direction, if any.
    pub closed spec fn spec_direction(self) -> Option<Direction> {
        self.current_direction
    }

    /// Interaction-state invariant: the page is in range, the model's
    /// own invariant holds, and stored tiles are canonical.
    pub open spec fn wf(self) -> bool {
        &&& 0 <= self.spec_page() < CONTROL_COUNT
        &&& match self.spec_model() {
            Model::Battle(b) => b.wf(),
            Model::SpellSelect(s) => s.wf(),
        }
        &&& match self.spec_selected() {
            Some(t) => t.0 < WIDTH && t.1 < HEIGHT,
            None => true,
        }
        &&& self.spec_hovered().0 < WIDTH && self.spec_hovered().1 < HEIGHT
    }

    /// Whether a spell index points into the acting unit's spell list.
    pub open spec fn valid_spell_index_spec(b: Battle, i: usize) -> bool {
        i < b.spec_wizards()[b.spec_current()].spells@.len()
    }

    /// Whether a tile-select intent turns into a pick: a multi-position
    /// spell is chosen and the tile passes its coarse board filter.
    pub open spec fn tile_selectable_spec(b: Battle, index: Option<usize>, pos: Position) -> bool {
        match index {
            Some(i) => {
                &&& Self::valid_spell_index_spec(b, i)
                &&& {
                    let spell = b.spec_wizards()[b.spec_current()].spells@[i as int];
                    &&& spell.spell_input_type_spec() is Position
                    &&& match spell.position_filter_spec() {
                        Some(f) => position_filter_holds_spec(f, b, pos),
                        None => false,
                    }
                }
            },
            None => false,
        }
    }

    /// What a battle intent does to the interaction state.  Intents
    /// arriving outside battle, and invalid intents (an off-board
    /// tile, an out-of-range spell index, a confirm without its
    /// required inputs), leave the state unchanged.
    pub open spec fn battle_intent_outcome_spec(
        pre: Controller,
        post: Controller,
        message: BattleMessage,
    ) -> bool {
        match pre.spec_model() {
            Model::SpellSelect(_) => post == pre,
            Model::Battle(b) => match message {
                BattleMessage::TileSelect(x, y) => {
                    &&& post.spec_model() == pre.spec_model()
                    &&& post.spec_page() == pre.spec_page()
                    &&& post.spec_spell_index() == pre.spec_spell_index()
                    &&& post.spec_direction() == pre.spec_direction()
                    &&& if x < WIDTH && y < HEIGHT {
                        &&& post.spec_hovered() == (x, y)
                        &&& post.spec_selected() == if Self::tile_selectable_spec(
                            b,
                            pre.spec_spell_index(),
                            Position { x, y },
                        ) {
                            Some((x, y))
                        } else {
                            pre.spec_selected()
                        }
                    } else {
                        &&& post.spec_hovered() == pre.spec_hovered()
                        &&& post.spec_selected() == pre.spec_selected()
                    }
                },
                BattleMessage::ControlPageCycle(_) => {
                    &&& post.spec_model() == pre.spec_model()
                    &&& post.spec_hovered() == pre.spec_hovered()
                    &&& post.spec_selected() == pre.spec_selected()
                    &&& post.spec_spell_index() == pre.spec_spell_index()
                    &&& post.spec_direction() == pre.spec_direction()
                    &&& post.spec_page() == 1 - pre.spec_page()
                },
                BattleMessage::SpellChoose(i) => {
                    &&& post.spec_model() == pre.spec_model()
                    &&& post.spec_hovered() == pre.spec_hovered()
                    &&& post.spec_selected() == pre.spec_selected()
                    &&& post.spec_direction() == pre.spec_direction()
                    &&& post.spec_page() == pre.spec_page()
                    &&& post.spec_spell_index() == if Self::valid_spell_index_spec(b, i) {
                        Some(i)
                    } else {
                        pre.spec_spell_index()
                    }
                },
                BattleMessage::DirectionSelect(d) => {
                    &&& post.spec_model() == pre.spec_model()
                    &&& post.spec_hovered() == pre.spec_hovered()
                    &&& post.spec_selected() == pre.spec_selected()
                    &&& post.spec_page() == pre.spec_page()
                    &&& post.spec_spell_index() == pre.spec_spell_index()
                    &&& post.spec_direction() == Some(d)
                },
                BattleMessage::ConfirmAction(control) => match control {
                    Control::Movement => match pre.spec_selected() {
                        Some(t) => {
                            let pos = Position { x: t.0, y: t.1 };
                            if pos.wf() && b.reachable_within(pos, b.acting_depth() as nat) {
                                &&& match post.spec_model() {
                                    Model::Battle(b2) => Battle::move_outcome_spec(
                                        b,
                                        b2,
                                        b.spec_current(),
                                        pos,
                                        Ok(()),
                                    ),
                                    Model::SpellSelect(_) => false,
                                }
                                &&& post.spec_selected() is None
                                &&& post.spec_hovered() == pre.spec_hovered()
                                &&& post.spec_page() == pre.spec_page()
                                &&& post.spec_spell_index() == pre.spec_spell_index()
                                &&& post.spec_direction() == pre.spec_direction()
                            } else {
                                post == pre
                            }
                        },
                        None => post == pre,
                    },
                    // Spell resolution (damage and effect application)
                    // is outside this core; a spell confirm mutates
                    // nothing.
                    Control::Spell => post == pre,
                },
            },
        }
    }

    /// What a selection intent does to the interaction state.
    pub open spec fn selection_intent_outcome_spec(
        pre: Controller,
        post: Controller,
        message: SpellSelectMessage,
    ) -> bool {
        &&& post.spec_hovered() == pre.spec_hovered()
        &&& post.spec_page() == pre.spec_page()
        &&& post.spec_selected() == pre.spec_selected()
        &&& post.spec_spell_index() == pre.spec_spell_index()
        &&& post.spec_direction() == pre.spec_direction()
        &&& match pre.spec_model() {
            Model::Battle(_) => post == pre,
            Model::SpellSelect(s) => match message {
                SpellSelectMessage::PointChange(pc) => if pc.player < 2 {
                    match post.spec_model() {
                        Model::SpellSelect(s2) => s2.players@ == s.players@.update(
                            pc.player as int,
                            s.players@[pc.player as int].after_change_spec(
                                pc.element,
                                pc.increment,
                            ),
                        ),
                        Model::Battle(_) => false,
                    }
                } else {
                    post == pre
                },
                SpellSelectMessage::Confirm => if s.all_allocated_spec() {
                    match post.spec_model() {
                        Model::Battle(b) => Battle::initial_battle_spec(b, s.players@),
                        Model::SpellSelect(_) => false,
                    }
                } else {
                    post == pre
                },
            },
        }
    }

    /// The current phase model, read-only.
    pub fn model(&self) -> (r: &Model)
        ensures
            *r == self.spec_model(),
    {
        &self.model
    }

    /// The tile most recently hovered.
    pub fn hovered_tile(&self) -> (r: (usize, usize))
        ensures
            r == self.spec_hovered(),
    {
        self.hovered_tile
    }

    /// The picked tile, if any.
    pub fn selected_tile(&self) -> (r: Option<(usize, usize)>)
        ensures
            r == self.spec_selected(),
    {
        self.selected_tile
    }

    /// The chosen spell index, if any.
    pub fn current_spell_index(&self) -> (r: Option<usize>)
        ensures
            r == self.spec_spell_index(),
    {
        self.current_spell_index
    }

    /// The chosen direction, if any.
    pub fn current_direction(&self) -> (r: Option<Direction>)
        ensures
            r == self.spec_direction(),
    {
        self.current_direction
    }

    /// The control page currently shown.
    pub fn get_control(&self) -> (r: Control)
        requires
            self.wf(),
        ensures
            r == if self.spec_page() == 0 {
                Control::Movement
            } else {
                Control::Spell
            },
    {
        if self.control_page == 0 {
            Control::Movement
        } else {
            Control::Spell
        }
    }

    /// Whether the required inputs of a control mode are satisfied:
    /// movement needs a picked tile in the reachable set; a spell
    /// needs its kind's inputs complete (nothing for a no-target
    /// spell, a pick passing the coarse filter for a multi-position
    /// spell, a direction for a direction-gated spell).
    pub open spec fn controls_inputted_spec(self, b: Battle, control: Control) -> bool {
        match control {
            Control::Movement => match self.spec_selected() {
                Some(t) => {
                    let pos = Position { x: t.0, y: t.1 };
                    pos.wf() && b.reachable_within(pos, b.acting_depth() as nat)
                },
                None => false,
            },
            Control::Spell => match self.spec_spell_index() {
                Some(i) => {
                    &&& Self::valid_spell_index_spec(b, i)
                    &&& {
                        let spell = b.spec_wizards()[b.spec_current()].spells@[i as int];
                        match spell.spell_input_type_spec() {
                            SpellInputType::NoTarget(_) => true,
                            SpellInputType::Position(_, _) => match self.spec_selected() {
                                Some(t) => {
                                    let pos = Position { x: t.0, y: t.1 };
                                    pos.wf() && match spell.position_filter_spec() {
                                        Some(f) => position_filter_holds_spec(f, b, pos),
                                        None => false,
                                    }
                                },
                                None => false,
                            },
                            SpellInputType::Direction(_) => self.spec_direction() is Some,
                        }
                    }
                },
                None => false,
            },
        }
    }

    /// Whether the required inputs of a control mode are satisfied.
    pub fn controls_inputted(&self, battle: &Battle, control: Control) -> (r: bool)
        requires
            self.wf(),
            battle.wf(),
        ensures
            r == self.controls_inputted_spec(*battle, control),
    {
        match control {
            Control::Movement => match self.selected_tile {
                Some(t) => battle.wizard_can_move(Position { x: t.0, y: t.1 }),
                None => false,
            },
            Control::Spell => match self.current_spell_index {
                Some(i) => {
                    let wizard = battle.get_current_wizard();
                    if i < wizard.spells.len() {
                        let spell = wizard.spells[i];
                        match spell.spell_input_type() {
                            SpellInputType::NoTarget(_) => true,
                            SpellInputType::Position(_, _) => match self.selected_tile {
                                Some(t) => {
                                    let pos = Position { x: t.0, y: t.1 };
                                    match spell.position_filter() {
                                        Some(f) => position_filter_holds(battle, f, pos),
                                        None => false,
                                    }
                                },
                                None => false,
                            },
                            SpellInputType::Direction(_) => match self.current_direction {
                                Some(_) => true,
                                None => false,
                            },
                        }
                    } else {
                        false
                    }
                },
                None => false,
            },
        }
    }

    /// Routes a top-level intent to the handler of its phase.
    pub fn update(&mut self, message: Message)
        requires
            old(self).wf(),
        ensures
            final(self).wf(),
            match message {
                Message::Battle(m) => Self::battle_intent_outcome_spec(*old(self), *final(self), m),
                Message::SpellSelect(m) => Self::selection_intent_outcome_spec(
                    *old(self),
                    *final(self),
                    m,
                ),
            },
    {
        match message {
            Message::SpellSelect(m) => self.update_spell_select(m),
            Message::Battle(m) => self.update_battle_message(m),
        }
    }

    /// Handles a battle intent: hovering and picking tiles, cycling
    /// the control page, choosing a spell or direction, and executing
    /// a confirmed move.
    pub fn update_battle_message(&mut self, message: BattleMessage)
        requires
            old(self).wf(),
        ensures
            final(self).wf(),
            Self::battle_intent_outcome_spec(*old(self), *final(self), message),
    {
        let selected = self.selected_tile;
        let spell_index = self.current_spell_index;
        match &mut self.model {
            Model::SpellSelect(_) => {},
            Model::Battle(battle) => {
                match message {
                    BattleMessage::TileSelect(x, y) => {
                        if x < WIDTH && y < HEIGHT {
                            self.hovered_tile = (x, y);
                            let pos = Position { x, y };
                            let mut selectable = false;
                            match spell_index {
                                Some(i) => {
                                    let wizard = battle.get_current_wizard();
                                    if i < wizard.spells.len() {
                                        let spell = wizard.spells[i];
                                        match spell.spell_input_type() {
                                            SpellInputType::Position(_, _) => {
                                                match spell.position_filter() {
                                                    Some(f) => {
                                                        selectable = position_filter_holds(
                                                            battle,
                                                            f,
                                                            pos,
                                                        );
                                                    },
                                                    None => {},
                                                }
                                            },
                                            _ => {},
                                        }
                                    }
                                },
                                None => {},
                            }
                            if selectable {
                                self.selected_tile = Some((x, y));
                            }
                        }
                    },
                    BattleMessage::ControlPageCycle(_) => {
                        self.control_page = 1 - self.control_page;
                    },
                    BattleMessage::SpellChoose(i) => {
                        let wizard = battle.get_current_wizard();
                        if i < wizard.spells.len() {
                            self.current_spell_index = Some(i);
                        }
                    },
                    BattleMessage::DirectionSelect(d) => {
                        self.current_direction = Some(d);
                    },
                    BattleMessage::ConfirmAction(control) => match control {
                        Control::Movement => {
                            match selected {
                                Some(t) => {
                                    let pos = Position { x: t.0, y: t.1 };
                                    if battle.wizard_can_move(pos) {
                                        let ghost pre_battle = *battle;
                                        proof {
                                            let cur = pre_battle.spec_current();
                                            if pos != pre_battle.start_tile() {
                                                lemma_reachable_unblocked(
                                                    pre_battle,
                                                    pos,
                                                    pre_battle.acting_depth() as nat,
                                                );
                                            } else {
                                                assert(pre_battle.cells()[cell_index(
                                                    pre_battle.spec_wizards()[cur].position,
                                                )] == Some(Entity::Wizard(cur as usize)));
                                            }
                                            assert(!pre_battle.blocked_spec(pos));
                                        }
                                        let moved = battle.move_current_wizard_to(pos);
                                        proof {
                                            let cur = pre_battle.spec_current();
                                            if moved is Err {
                                                match pre_battle.entity_at_spec(pos) {
                                                    Option::Some(e) => match e {
                                                        Entity::Wizard(w) => {
                                                            assert(w == cur);
                                                        },
                                                        Entity::Projectile(p) => {
                                                            assert(pre_battle.spec_projectiles()[p as int].passable);
                                                        },
                                                    },
                                                    Option::None => {},
                                                }
                                                assert(moved != Err::<(), IllegalMove>(
                                                    IllegalMove::OccupiedByUnit,
                                                ));
                                                assert(moved != Err::<(), IllegalMove>(
                                                    IllegalMove::BlockedByImpassableProjectile,
                                                ));
                                                match moved {
                                                    Result::Ok(_) => {},
                                                    Result::Err(e) => match e {
                                                        IllegalMove::OccupiedByUnit => {
                                                            assert(false);
                                                        },
                                                        IllegalMove::BlockedByImpassableProjectile
                                                            => {
                                                            assert(false);
                                                        },
                                                    },
                                                }
                                                assert(false);
                                            }
                                        }
                                        self.selected_tile = None;
                                    }
                                },
                                None => {},
                            }
                        },
                        Control::Spell => {},
                    },
                }
            },
        }
    }

    /// Handles a selection intent: moving points between a player's
    /// pool and elements, and confirming the selection into a battle
    /// once both players have allocated their whole pool.
    pub fn update_spell_select(&mut self, message: SpellSelectMessage)
        requires
            old(self).wf(),
        ensures
            final(self).wf(),
            Self::selection_intent_outcome_spec(*old(self), *final(self), message),
    {
        let mut start_battle = false;
        match &mut self.model {
            Model::Battle(_) => {},
            Model::SpellSelect(select) => match message {
                SpellSelectMessage::PointChange(pc) => {
                    if pc.player < 2 {
                        let _outcome = select.players[pc.player].change_point(
                            pc.element,
                            pc.increment,
                        );
                    }
                },
                SpellSelectMessage::Confirm => {
                    if select.all_allocated() {
                        start_battle = true;
                    }
                },
            },
        }
        if start_battle {
            let mut started: Option<Battle> = None;
            match &self.model {
                Model::SpellSelect(select) => {
                    started = Some(Battle::new(select));
                },
                Model::Battle(_) => {},
            }
            match started {
                Some(battle) => {
                    self.model = Model::Battle(battle);
                },
                None => {},
            }
        }
    }
}

impl Default for Controller {
    /// A fresh controller: selection phase, origin tile hovered, first
    /// control page, nothing picked.
    fn default() -> (r: Self)
        ensures
            r.wf(),
            match r.spec_model() {
                Model::SpellSelect(s) => s.players@.len() == 2 && forall|i: int|
                    0 <= i < 2 ==> #[trigger] s.players@[i] == SpellChoice {
                        water: 0,
                        fire: 0,
                        earth: 0,
                        wind: 0,
                        unused: crate::model::SPELL_POINT_POOL,
                    },
                Model::Battle(_) => false,
            },
            r.spec_hovered() == (0usize, 0usize),
            r.spec_page() == 0,
            r.spec_selected() is None,
            r.spec_spell_index() is None,
            r.spec_direction() is None,
    {
        Controller {
            model: Model::default(),
            hovered_tile: (0, 0),
            control_page: 0,
            selected_tile: None,
            current_spell_index: None,
            current_direction: None,
        }
    }
}

} // verus!
