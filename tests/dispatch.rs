use slack_tui::app::{App, Event, Key, KeyPress};
use slack_tui::conversation::{Channel, Message, User};
use slack_tui::observer;
use slack_tui::pane::ActiveBlock;

fn press(code: Key) -> Event<KeyPress> {
    Event::Input(KeyPress { code, plain: true })
}

fn sample_app() -> App {
    let channels = vec![
        Channel { id: "C1".to_string(), name: "general".to_string() },
        Channel { id: "C2".to_string(), name: "random".to_string() },
    ];
    let users = vec![User { id: "U1".to_string(), name: "ada".to_string() }];
    App::new(channels, users)
}

fn is_tick(e: &Event<observer::Event>) -> bool {
    matches!(e, Event::Tick)
}

#[test]
fn right_enter_escape() {
    let mut app = sample_app();
    assert_eq!(app.focus.hovered, ActiveBlock::Channels);
    assert_eq!(app.focus.active, ActiveBlock::Nothing);
    assert!(is_tick(&app.handle_event(press(Key::Right))));
    assert_eq!(app.focus.hovered, ActiveBlock::Input);
    assert!(is_tick(&app.handle_event(press(Key::Enter))));
    assert_eq!(app.focus.active, ActiveBlock::Input);
    assert!(is_tick(&app.handle_event(press(Key::Esc))));
    assert_eq!(app.focus.active, ActiveBlock::Nothing);
}

#[test]
fn down_on_empty_user_list_keeps_nothing_selected() {
    let mut app = App::new(Vec::new(), Vec::new());
    app.handle_event(press(Key::Down));
    assert_eq!(app.focus.hovered, ActiveBlock::Users);
    app.handle_event(press(Key::Enter));
    assert_eq!(app.focus.active, ActiveBlock::Users);
    assert!(is_tick(&app.handle_event(press(Key::Down))));
    assert_eq!(app.user_list.selected, None);
    assert!(is_tick(&app.handle_event(press(Key::Enter))));
}

#[test]
fn commit_on_channels_changes_conversation() {
    let mut app = sample_app();
    app.handle_event(press(Key::Enter));
    assert_eq!(app.focus.active, ActiveBlock::Channels);
    app.handle_event(press(Key::Down));
    app.handle_event(press(Key::Down));
    assert_eq!(app.channel_list.selected, Some(1));
    match app.handle_event(press(Key::Enter)) {
        Event::Change(observer::Event::ChangeConversation { id, name }) => {
            assert_eq!(id, "C2");
            assert_eq!(name, "random");
            let messages = vec![Message {
                text: "hello".to_string(),
                username: "U1".to_string(),
                message_type: "message".to_string(),
                ts: "1".to_string(),
            }];
            app.change_conversation(id, name, messages);
        }
        _ => panic!("Enter on a selected channel commits it"),
    }
    let conversation = app.conversation.as_ref().expect("a conversation is shown");
    assert_eq!(conversation.id(), "C2");
    assert_eq!(conversation.name(), "random");
    assert_eq!(app.messages_list.len(), 1);
}

#[test]
fn commit_without_selection_changes_nothing() {
    let mut app = sample_app();
    app.handle_event(press(Key::Enter));
    assert!(is_tick(&app.handle_event(press(Key::Enter))));
    assert!(app.conversation.is_none());
}

#[test]
fn escape_clears_selections_and_is_idempotent() {
    let mut app = sample_app();
    app.handle_event(press(Key::Enter));
    app.handle_event(press(Key::Down));
    assert_eq!(app.channel_list.selected, Some(0));
    app.handle_event(press(Key::Esc));
    assert_eq!(app.focus.active, ActiveBlock::Nothing);
    assert_eq!(app.channel_list.selected, None);
    assert_eq!(app.user_list.selected, None);
    app.exit();
    app.exit();
    assert_eq!(app.focus.active, ActiveBlock::Nothing);
    assert_eq!(app.focus.hovered, ActiveBlock::Channels);
    assert_eq!(app.channel_list.selected, None);
}

#[test]
fn q_quits_outside_the_text_input() {
    let mut app = sample_app();
    assert!(matches!(app.handle_event(press(Key::Char('q'))), Event::Quit));
    assert!(matches!(app.handle_event(Event::Quit), Event::Quit));
}

#[test]
fn q_with_modifier_does_not_quit() {
    let mut app = sample_app();
    let r = app.handle_event(Event::Input(KeyPress { code: Key::Char('q'), plain: false }));
    assert!(is_tick(&r));
}

#[test]
fn typing_in_the_text_input() {
    let mut app = sample_app();
    app.handle_event(press(Key::Right));
    app.handle_event(press(Key::Enter));
    for c in ['q', '好', 'x'] {
        assert!(is_tick(&app.handle_event(press(Key::Char(c)))));
    }
    assert_eq!(app.input.chars, vec!['q', '好', 'x']);
    assert_eq!(app.input.cursor_column, 4);
    app.handle_event(press(Key::Backspace));
    app.handle_event(press(Key::Left));
    app.handle_event(press(Key::Right));
    app.handle_event(press(Key::Enter));
    assert_eq!(app.input.chars, vec!['q', '好']);
    assert_eq!(app.input.index, 2);
    assert_eq!(app.input.cursor_column, 3);
    assert_eq!(app.focus.active, ActiveBlock::Input);
}

#[test]
fn tick_changes_nothing() {
    let mut app = sample_app();
    assert!(is_tick(&app.handle_event(Event::Tick)));
    assert_eq!(app.focus.hovered, ActiveBlock::Channels);
    assert_eq!(app.channel_list.selected, None);
}

#[test]
fn teams_pane_ignores_keys() {
    let mut app = sample_app();
    app.handle_event(press(Key::Up));
    assert_eq!(app.focus.hovered, ActiveBlock::Teams);
    app.handle_event(press(Key::Enter));
    assert_eq!(app.focus.active, ActiveBlock::Teams);
    assert!(is_tick(&app.handle_event(press(Key::Down))));
    assert_eq!(app.focus.hovered, ActiveBlock::Teams);
    assert_eq!(app.channel_list.selected, None);
}

#[test]
fn cursor_shown_only_in_text_input() {
    let mut app = sample_app();
    assert_eq!(app.cursor_position(22, 18), None);
    app.handle_event(press(Key::Right));
    app.handle_event(press(Key::Enter));
    assert_eq!(app.cursor_position(22, 18), Some((22, 18)));
    app.handle_event(press(Key::Char('好')));
    app.handle_event(press(Key::Char('a')));
    assert_eq!(app.cursor_position(22, 18), Some((25, 18)));
    assert_eq!(app.cursor_position(u16::MAX - 1, 3), Some((u16::MAX, 3)));
}
