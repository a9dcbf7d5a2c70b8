use slack_tui::focus::Focus;
use slack_tui::pane::{get_color, move_pane, neighbor, ActiveBlock, Direction, MenuItem, PaneColor};

const PANES: [ActiveBlock; 8] = [
    ActiveBlock::Nothing,
    ActiveBlock::Home,
    ActiveBlock::Channels,
    ActiveBlock::Teams,
    ActiveBlock::Users,
    ActiveBlock::Messages,
    ActiveBlock::Input,
    ActiveBlock::Search,
];

const DIRECTIONS: [Direction; 4] = [Direction::Up, Direction::Down, Direction::Left, Direction::Right];

#[test]
fn adjacency_table_entries() {
    assert_eq!(neighbor(ActiveBlock::Teams, Direction::Down), Some(ActiveBlock::Channels));
    assert_eq!(neighbor(ActiveBlock::Teams, Direction::Right), Some(ActiveBlock::Input));
    assert_eq!(neighbor(ActiveBlock::Channels, Direction::Up), Some(ActiveBlock::Teams));
    assert_eq!(neighbor(ActiveBlock::Channels, Direction::Down), Some(ActiveBlock::Users));
    assert_eq!(neighbor(ActiveBlock::Channels, Direction::Right), Some(ActiveBlock::Input));
    assert_eq!(neighbor(ActiveBlock::Users, Direction::Up), Some(ActiveBlock::Channels));
    assert_eq!(neighbor(ActiveBlock::Users, Direction::Right), Some(ActiveBlock::Input));
    assert_eq!(neighbor(ActiveBlock::Input, Direction::Up), Some(ActiveBlock::Channels));
    assert_eq!(neighbor(ActiveBlock::Input, Direction::Left), Some(ActiveBlock::Users));
}

#[test]
fn unlisted_moves_leave_pane_unchanged() {
    let mut listed = 0;
    for p in PANES {
        for d in DIRECTIONS {
            let mut pane = p;
            move_pane(&mut pane, d);
            match neighbor(p, d) {
                Some(to) => {
                    listed += 1;
                    assert_eq!(pane, to);
                }
                None => assert_eq!(pane, p),
            }
        }
    }
    assert_eq!(listed, 9);
    let mut pane = ActiveBlock::Input;
    move_pane(&mut pane, Direction::Right);
    assert_eq!(pane, ActiveBlock::Input);
    let mut pane = ActiveBlock::Messages;
    move_pane(&mut pane, Direction::Left);
    assert_eq!(pane, ActiveBlock::Messages);
}

#[test]
fn focus_starts_on_channels() {
    let f = Focus::new();
    assert_eq!(f.hovered, ActiveBlock::Channels);
    assert_eq!(f.active, ActiveBlock::Nothing);
}

#[test]
fn hover_moves_only_when_nothing_active() {
    let mut f = Focus::new();
    f.move_hover(Direction::Right);
    assert_eq!(f.hovered, ActiveBlock::Input);
    f.enter();
    assert_eq!(f.active, ActiveBlock::Input);
    f.move_hover(Direction::Left);
    assert_eq!(f.hovered, ActiveBlock::Input);
    f.exit();
    assert_eq!(f.active, ActiveBlock::Nothing);
    f.exit();
    assert_eq!(f.active, ActiveBlock::Nothing);
    assert_eq!(f.hovered, ActiveBlock::Input);
    f.move_hover(Direction::Left);
    assert_eq!(f.hovered, ActiveBlock::Users);
}

#[test]
fn enter_is_idempotent() {
    let mut f = Focus::new();
    f.enter();
    f.enter();
    assert_eq!(f.active, ActiveBlock::Channels);
}

#[test]
fn pane_display_indices() {
    assert_eq!(usize::from(ActiveBlock::Nothing), 0);
    assert_eq!(usize::from(ActiveBlock::Messages), 1);
    assert_eq!(usize::from(ActiveBlock::Input), 2);
    assert_eq!(usize::from(ActiveBlock::Users), 3);
    assert_eq!(usize::from(ActiveBlock::Channels), 4);
    assert_eq!(usize::from(ActiveBlock::Teams), 5);
    assert_eq!(usize::from(ActiveBlock::Search), 6);
    let item: MenuItem = ActiveBlock::Home;
    assert_eq!(usize::from(item), 7);
}

#[test]
fn border_colors() {
    assert_eq!(get_color((true, true)), PaneColor::Cyan);
    assert_eq!(get_color((true, false)), PaneColor::Cyan);
    assert_eq!(get_color((false, true)), PaneColor::Magenta);
    assert_eq!(get_color((false, false)), PaneColor::White);
}
