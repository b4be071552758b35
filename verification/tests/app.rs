use todo_tui::app::{Action, Phase, TodoApp, TodoEvent};
use todo_tui::components::CountSquare;
use todo_tui::error::TuiError;
use todo_tui::event::{Event, KeyCode, KeyEvent, KeyModifiers, MouseEventKind};
use todo_tui::primitives::{LineType, Square};
use todo_tui::screen::Screen;
use todo_tui::term::{Color, Colors, TermOp};
use todo_tui::traits::Draw;

const PLAIN: KeyModifiers = KeyModifiers { shift: false, control: false, alt: false };

fn key(code: KeyCode) -> Event {
    Event::Key(KeyEvent { code, modifiers: PLAIN })
}

fn mv(x: u16, y: u16) -> TermOp {
    TermOp::MoveTo(x, y)
}

fn pr(text: &str) -> TermOp {
    TermOp::Print(text.to_string())
}

fn fresh() -> TodoApp {
    TodoApp::new(80, 24, &mut Vec::new())
}

fn frame(app: &TodoApp) -> Vec<TermOp> {
    let mut out = Vec::new();
    assert_eq!(app.draw(&mut out), Ok(()));
    out
}

fn app_square(x: u16) -> Square {
    Square {
        line_type: LineType::Single,
        colors: Some(Colors {
            foreground: Some(Color::Rgb { r: 0, g: 0, b: 255 }),
            background: Some(Color::Rgb { r: 200, g: 0, b: 200 }),
        }),
        filled: true,
        x,
        y: 5,
        width: 10,
        height: 15,
    }
}

/// The index of the first place at which `part` stands in `all`.
fn find(all: &[TermOp], part: &[TermOp]) -> Option<usize> {
    (0..=all.len().saturating_sub(part.len())).find(|&at| &all[at..at + part.len()] == part)
}

#[test]
fn new_app_runs_with_no_todos() {
    let mut out = Vec::new();
    let app = TodoApp::new(80, 24, &mut out);
    assert_eq!(app.screen, Screen { width: 80, height: 24 });
    assert!(app.state.todos.is_empty());
    assert_eq!(app.square, app_square(5));
    assert_eq!(app.count_square, CountSquare { square: app_square(25), count: 0 });
    assert_eq!(app.text.content, "Hello, world!");
    assert_eq!(app.text.max_length, None);
    assert_eq!(app.phase, Phase::Running);
    let mut entered = Vec::new();
    Screen::new(80, 24, &mut entered);
    assert_eq!(out, entered);
}

#[test]
fn key_a_then_editor_text_appends_todo_at_row_0() {
    let mut app = fresh();
    assert!(app.state.todos.is_empty());
    assert_eq!(app.handle_event(key(KeyCode::Char('a'))), Ok(Action::Edit));
    assert_eq!(app.dispatch(TodoEvent::AddTodo("buy milk".to_string())), Ok(()));
    assert_eq!(app.state.todos, vec!["buy milk".to_string()]);
    assert_eq!(app.phase, Phase::Running);

    let out = frame(&app);
    let at = find(&out, &[mv(0, 0), pr("buy milk")]).expect("the todo is drawn at row 0");
    assert_eq!(at, out.len() - 3);
    assert_eq!(out[out.len() - 1], TermOp::Flush);
}

#[test]
fn key_a_alone_changes_no_state() {
    let mut app = fresh();
    assert_eq!(app.dispatch(TodoEvent::AddTodo("first".to_string())), Ok(()));
    let before = frame(&app);
    assert_eq!(app.handle_event(key(KeyCode::Char('a'))), Ok(Action::Edit));
    assert_eq!(app.state.todos, vec!["first".to_string()]);
    assert_eq!(app.count_square.count, 0);
    assert_eq!(app.phase, Phase::Running);
    assert_eq!(frame(&app), before);
}

#[test]
fn escape_as_first_event_ends_the_loop() {
    let mut app = fresh();
    let first = frame(&app);
    assert_eq!(first[first.len() - 2], mv(0, 0));
    assert_eq!(app.handle_event(key(KeyCode::Esc)), Ok(Action::Quit));
    assert_eq!(app.phase, Phase::Terminated);
    assert!(app.state.todos.is_empty());
    assert_eq!(app.count_square.count, 0);
}

#[test]
fn ended_loop_stays_ended() {
    let mut app = fresh();
    assert_eq!(app.handle_event(key(KeyCode::Esc)), Ok(Action::Quit));
    for event in [
        key(KeyCode::Char('a')),
        key(KeyCode::Esc),
        Event::Mouse(MouseEventKind::Up),
        Event::Resize(10, 10),
    ] {
        assert_eq!(app.handle_event(event), Ok(Action::Quit));
        assert_eq!(app.phase, Phase::Terminated);
        assert_eq!(app.count_square.count, 0);
        assert_eq!(app.screen, Screen { width: 80, height: 24 });
    }
}

#[test]
fn resize_asks_for_the_size_and_stores_what_was_found() {
    let mut app = fresh();
    assert_eq!(app.handle_event(Event::Resize(1, 2)), Ok(Action::Resize));
    assert_eq!(app.screen, Screen { width: 80, height: 24 });
    app.handle_resize(132, 43);
    assert_eq!(app.screen, Screen { width: 132, height: 43 });
    assert_eq!(app.phase, Phase::Running);

    let mut out = Vec::new();
    assert_eq!(app.screen.draw_size(&mut out), Ok(()));
    assert_eq!(out, vec![mv(126, 0), pr("X: 132"), mv(126, 1), pr("Y: 43")]);
}

#[test]
fn mouse_release_goes_to_the_counter() {
    let mut app = fresh();
    assert_eq!(app.handle_event(Event::Mouse(MouseEventKind::Up)), Ok(Action::Continue));
    assert_eq!(app.handle_event(Event::Mouse(MouseEventKind::Down)), Ok(Action::Continue));
    assert_eq!(app.handle_event(Event::Mouse(MouseEventKind::Up)), Ok(Action::Continue));
    assert_eq!(app.count_square.count, 2);
    let out = frame(&app);
    assert!(find(&out, &[mv(26, 6), pr("2")]).is_some());
}

#[test]
fn other_keys_and_modified_keys_are_ignored() {
    let mut app = fresh();
    let held = [
        KeyModifiers { shift: true, control: false, alt: false },
        KeyModifiers { shift: false, control: true, alt: false },
        KeyModifiers { shift: false, control: false, alt: true },
    ];
    for modifiers in held {
        for code in [KeyCode::Esc, KeyCode::Char('a')] {
            let event = Event::Key(KeyEvent { code, modifiers });
            assert_eq!(app.handle_event(event), Ok(Action::Continue));
        }
    }
    for code in [KeyCode::Char('A'), KeyCode::Char('b'), KeyCode::Other] {
        assert_eq!(app.handle_event(key(code)), Ok(Action::Continue));
    }
    assert_eq!(app.phase, Phase::Running);
    assert!(app.state.todos.is_empty());
    assert_eq!(app.count_square.count, 0);
}

#[test]
fn full_counter_refuses_a_release_through_the_loop() {
    let mut app = fresh();
    app.count_square.count = u16::MAX;
    assert_eq!(
        app.handle_event(Event::Mouse(MouseEventKind::Up)),
        Err(TuiError::CounterOverflow)
    );
    assert_eq!(app.count_square.count, u16::MAX);
    assert_eq!(app.phase, Phase::Running);
    assert_eq!(app.handle_event(key(KeyCode::Char('a'))), Ok(Action::Edit));
    assert_eq!(app.handle_event(key(KeyCode::Esc)), Ok(Action::Quit));
}

#[test]
fn frame_draws_the_components_in_order() {
    let mut app = fresh();
    assert_eq!(app.dispatch(TodoEvent::AddTodo("buy milk".to_string())), Ok(()));
    assert_eq!(app.dispatch(TodoEvent::AddTodo("walk".to_string())), Ok(()));

    let mut expected = vec![TermOp::Clear];
    assert_eq!(app.square.draw(&mut expected), Ok(()));
    assert_eq!(app.text.draw(&mut expected), Ok(()));
    assert_eq!(app.count_square.draw(&mut expected), Ok(()));
    assert_eq!(app.state.draw(&mut expected), Ok(()));
    expected.push(TermOp::Flush);
    assert_eq!(frame(&app), expected);

    let out = frame(&app);
    assert_eq!(out[0], TermOp::Clear);
    assert_eq!(out[1], TermOp::SetColors(app_square(5).colors.unwrap()));
    assert_eq!(out[2], mv(5, 5));
    let tail = [mv(0, 0), mv(0, 0), pr("buy milk"), mv(0, 1), pr("walk"), TermOp::Flush];
    assert_eq!(&out[out.len() - tail.len()..], &tail[..]);
    let greeting = find(&out, &[mv(0, 0), pr("Hello, world!")]).unwrap();
    let counter = find(&out, &[mv(26, 6), pr("0")]).unwrap();
    assert!(greeting < counter);
}

#[test]
fn frame_refuses_what_a_square_refuses() {
    let mut app = fresh();
    app.count_square.square.width = 1;
    let mut out = vec![TermOp::Hide];
    assert_eq!(app.draw(&mut out), Err(TuiError::SquareTooSmall));
    assert_eq!(out, vec![TermOp::Hide]);

    let mut app = fresh();
    app.square.y = 65535;
    assert_eq!(app.draw(&mut out), Err(TuiError::SquareOutOfRange));
    assert_eq!(out, vec![TermOp::Hide]);
}
