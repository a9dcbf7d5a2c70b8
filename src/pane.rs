//! The focusable panes of the interface and the table of directional moves
//! between them.

use vstd::prelude::*;

verus! {

/// A focusable region of the interface. `Nothing` stands for "no pane".
#[derive(Debug, Clone, Copy, PartialEq, Eq, Structural, Hash)]
pub enum ActiveBlock {
    Nothing,
    Home,
    Channels,
    Teams,
    Users,
    Messages,
    Input,
    Search,
}

/// The name the pane enumeration goes by in the window layout.
pub type MenuItem = ActiveBlock;

/// A direction key that moves the hovered pane.
#[derive(Debug, Clone, Copy, PartialEq, Eq, Structural, Hash)]
pub enum Direction {
    Up,
    Down,
    Left,
    Right,
}

/// The adjacency table: the pane reached from `from` in direction `dir`,
/// or `None` where the table has no entry.
pub open spec fn adjacent(from: ActiveBlock, dir: Direction) -> Option<ActiveBlock> {
    match (from, dir) {
        (ActiveBlock::Teams, Direction::Down) => Some(ActiveBlock::Channels),
        (ActiveBlock::Teams, Direction::Right) => Some(ActiveBlock::Input),
        (ActiveBlock::Channels, Direction::Up) => Some(ActiveBlock::Teams),
        (ActiveBlock::Channels, Direction::Down) => Some(ActiveBlock::Users),
        (ActiveBlock::Channels, Direction::Right) => Some(ActiveBlock::Input),
        (ActiveBlock::Users, Direction::Up) => Some(ActiveBlock::Channels),
        (ActiveBlock::Users, Direction::Right) => Some(ActiveBlock::Input),
        (ActiveBlock::Input, Direction::Up) => Some(ActiveBlock::Channels),
        (ActiveBlock::Input, Direction::Left) => Some(ActiveBlock::Users),
        _ => None,
    }
}

/// The pane reached by one move: the table's entry, or `from` itself where
/// the table has none.
pub open spec fn moved(from: ActiveBlock, dir: Direction) -> ActiveBlock {
    match adjacent(from, dir) {
        Some(to) => to,
        None => from,
    }
}

/// Looks up the adjacency table.
pub fn neighbor(from: ActiveBlock, dir: Direction) -> (r: Option<ActiveBlock>)
    ensures
        r == adjacent(from, dir),
{
    match (from, dir) {
        (ActiveBlock::Teams, Direction::Down) => Some(ActiveBlock::Channels),
        (ActiveBlock::Teams, Direction::Right) => Some(ActiveBlock::Input),
        (ActiveBlock::Channels, Direction::Up) => Some(ActiveBlock::Teams),
        (ActiveBlock::Channels, Direction::Down) => Some(ActiveBlock::Users),
        (ActiveBlock::Channels, Direction::Right) => Some(ActiveBlock::Input),
        (ActiveBlock::Users, Direction::Up) => Some(ActiveBlock::Channels),
        (ActiveBlock::Users, Direction::Right) => Some(ActiveBlock::Input),
        (ActiveBlock::Input, Direction::Up) => Some(ActiveBlock::Channels),
        (ActiveBlock::Input, Direction::Left) => Some(ActiveBlock::Users),
        _ => None,
    }
}

/// Moves `pane` one step in `dir`; a move the table does not list leaves it
/// where it is.
pub fn move_pane(pane: &mut ActiveBlock, dir: Direction)
    ensures
        *final(pane) == moved(*old(pane), dir),
{
    if let Some(to) = neighbor(*pane, dir) {
        *pane = to;
    }
}

/// Every move leads to a pane other than `Nothing`, and every move that the
/// table does not list leaves the pane unchanged.
pub proof fn lemma_unlisted_moves_stay(from: ActiveBlock, dir: Direction)
    ensures
        adjacent(from, dir) is None ==> moved(from, dir) == from,
        from != ActiveBlock::Nothing ==> moved(from, dir) != ActiveBlock::Nothing,
{
}

/// Display index of a pane, used to highlight it in a tab strip.
pub open spec fn pane_index(item: ActiveBlock) -> usize {
    match item {
        ActiveBlock::Nothing => 0,
        ActiveBlock::Messages => 1,
        ActiveBlock::Input => 2,
        ActiveBlock::Users => 3,
        ActiveBlock::Channels => 4,
        ActiveBlock::Teams => 5,
        ActiveBlock::Search => 6,
        ActiveBlock::Home => 7,
    }
}

impl From<ActiveBlock> for usize {
    fn from(item: ActiveBlock) -> (r: usize) {
        match item {
            ActiveBlock::Nothing => 0,
            ActiveBlock::Messages => 1,
            ActiveBlock::Input => 2,
            ActiveBlock::Users => 3,
            ActiveBlock::Channels => 4,
            ActiveBlock::Teams => 5,
            ActiveBlock::Search => 6,
            ActiveBlock::Home => 7,
        }
    }
}

impl vstd::std_specs::convert::FromSpecImpl<ActiveBlock> for usize {
    open spec fn obeys_from_spec() -> bool {
        true
    }

    open spec fn from_spec(item: ActiveBlock) -> usize {
        pane_index(item)
    }
}

/// Colour of a pane's border.
#[derive(Debug, Clone, Copy, PartialEq, Eq, Structural, Hash)]
pub enum PaneColor {
    Cyan,
    Magenta,
    White,
}

/// Border colour for a pane that is active and/or hovered: an active pane is
/// cyan, a hovered one magenta, any other white.
pub fn get_color(state: (bool, bool)) -> (r: PaneColor)
    ensures
        r == (if state.0 {
            PaneColor::Cyan
        } else if state.1 {
            PaneColor::Magenta
        } else {
            PaneColor::White
        }),
{
    let (is_active, is_hovered) = state;
    if is_active {
        PaneColor::Cyan
    } else if is_hovered {
        PaneColor::Magenta
    } else {
        PaneColor::White
    }
}

} // verus!
