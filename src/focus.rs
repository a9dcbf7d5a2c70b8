//! Which pane is hovered by the direction keys and which one, if any, has
//! captured the keyboard.

use vstd::prelude::*;
use crate::pane::{ActiveBlock, Direction, moved, move_pane};

verus! {

/// The hovered pane and the active one. The active pane is only ever set
/// from the hovered one; `Nothing` as the active pane means that no pane has
/// captured input.
#[derive(Debug, Clone, Copy, PartialEq, Eq, Structural)]
pub struct Focus {
    pub active: ActiveBlock,
    pub hovered: ActiveBlock,
}

impl Focus {
    /// Some pane is always hovered.
    pub open spec fn wf(&self) -> bool {
        self.hovered != ActiveBlock::Nothing
    }

    /// The focus after a direction key: the hovered pane moves along the
    /// adjacency table unless a pane has captured input.
    pub open spec fn after_move(self, dir: Direction) -> Focus {
        if self.active == ActiveBlock::Nothing {
            Focus { active: self.active, hovered: moved(self.hovered, dir) }
        } else {
            self
        }
    }

    /// The focus after entering the hovered pane.
    pub open spec fn after_enter(self) -> Focus {
        Focus { active: self.hovered, hovered: self.hovered }
    }

    /// The focus after leaving the active pane.
    pub open spec fn after_exit(self) -> Focus {
        Focus { active: ActiveBlock::Nothing, hovered: self.hovered }
    }

    /// Channels hovered, nothing active.
    pub fn new() -> (r: Focus)
        ensures
            r.hovered == ActiveBlock::Channels,
            r.active == ActiveBlock::Nothing,
            r.wf(),
    {
        Focus { active: ActiveBlock::Nothing, hovered: ActiveBlock::Channels }
    }

    /// Moves the hovered pane in `dir`; does nothing while a pane is active.
    pub fn move_hover(&mut self, dir: Direction)
        ensures
            *final(self) == old(self).after_move(dir),
            old(self).wf() ==> final(self).wf(),
    {
        if self.active == ActiveBlock::Nothing {
            move_pane(&mut self.hovered, dir);
        }
    }

    /// Makes the hovered pane the active one.
    pub fn enter(&mut self)
        ensures
            *final(self) == old(self).after_enter(),
            old(self).wf() ==> final(self).wf(),
    {
        self.active = self.hovered;
    }

    /// Releases the active pane.
    pub fn exit(&mut self)
        ensures
            *final(self) == old(self).after_exit(),
            old(self).wf() ==> final(self).wf(),
    {
        self.active = ActiveBlock::Nothing;
    }
}

} // verus!
