use chat_tui::app::App;
use chat_tui::event::{KeyCode, KeyEvent, KeyModifiers};
use chat_tui::message::{Message, Origin};
use chat_tui::screen::{draw_history, draw_input, draw_label, input_row, Color, DrawOp};

fn you() -> DrawOp {
    DrawOp::PrintStyled { text: "You: ".to_string(), color: Color::Blue }
}

fn assistant() -> DrawOp {
    DrawOp::PrintStyled { text: "Assistant: ".to_string(), color: Color::Green }
}

fn print(text: &str) -> DrawOp {
    DrawOp::Print { text: text.to_string() }
}

fn at(row: u16) -> DrawOp {
    DrawOp::MoveTo { column: 0, row }
}

#[test]
fn input_row_is_the_last_row_but_one() {
    assert_eq!(input_row(Some((80, 24))), 22);
    assert_eq!(input_row(Some((0, 3))), 1);
    assert_eq!(input_row(Some((80, 65535))), 65533);
}

#[test]
fn input_row_is_zero_on_a_short_terminal() {
    assert_eq!(input_row(Some((80, 2))), 0);
    assert_eq!(input_row(Some((80, 1))), 0);
    assert_eq!(input_row(Some((80, 0))), 0);
}

#[test]
fn input_row_is_zero_without_a_size() {
    assert_eq!(input_row(None), 0);
}

#[test]
fn labels_tell_the_origins_apart() {
    assert_eq!(draw_label(Origin::User), you());
    assert_eq!(draw_label(Origin::Assistant), assistant());
}

#[test]
fn empty_history_draws_nothing() {
    assert_eq!(draw_history(&Vec::new()), Vec::new());
    assert_eq!(App::new().render_messsages(), Vec::new());
}

#[test]
fn each_message_is_drawn_on_its_own_row() {
    let history = vec![
        Message::new("hi".to_string(), Origin::User),
        Message::new("hello there".to_string(), Origin::Assistant),
        Message::new("".to_string(), Origin::User),
    ];
    assert_eq!(
        draw_history(&history),
        vec![
            at(0),
            you(),
            print("hi"),
            at(1),
            assistant(),
            print("hello there"),
            at(2),
            you(),
            print(""),
        ]
    );
}

#[test]
fn long_text_is_drawn_whole() {
    let text = "x".repeat(1000);
    let history = vec![Message::new(text.clone(), Origin::Assistant)];
    assert_eq!(draw_history(&history), vec![at(0), assistant(), print(&text)]);
}

#[test]
fn rows_start_again_behind_the_last_row_number() {
    let mut history = Vec::new();
    for _ in 0..65538 {
        history.push(Message::new("m".to_string(), Origin::User));
    }
    let ops = draw_history(&history);
    assert_eq!(ops.len(), 3 * 65538);
    assert_eq!(ops[3 * 65535], at(65535));
    assert_eq!(ops[3 * 65536], at(0));
    assert_eq!(ops[3 * 65537], at(1));
}

#[test]
fn input_line_is_cleared_then_drawn() {
    assert_eq!(
        draw_input(&"typing".to_string(), 22),
        vec![at(22), DrawOp::ClearLine, you(), print("typing")]
    );
    assert_eq!(draw_input(&String::new(), 0), vec![at(0), DrawOp::ClearLine, you(), print("")]);
}

#[test]
fn chat_draws_its_history_and_its_input() {
    let mut app = App::new();
    for c in "hi".chars() {
        app.handle_keyevent(KeyEvent::new(KeyCode::Char(c), KeyModifiers::none()));
    }
    app.handle_keyevent(KeyEvent::new(KeyCode::Enter, KeyModifiers::none()));
    app.handle_keyevent(KeyEvent::new(KeyCode::Char('y'), KeyModifiers::none()));
    assert_eq!(app.render_messsages(), vec![at(0), you(), print("hi")]);
    assert_eq!(app.render_input(7), vec![at(7), DrawOp::ClearLine, you(), print("y")]);
    assert_eq!(
        app.render_frame(7),
        vec![at(0), you(), print("hi"), at(7), DrawOp::ClearLine, you(), print("y")]
    );
}

#[test]
fn drawing_twice_gives_the_same_operations() {
    let mut app = App::new();
    for c in "again".chars() {
        app.handle_keyevent(KeyEvent::new(KeyCode::Char(c), KeyModifiers::none()));
    }
    app.handle_keyevent(KeyEvent::new(KeyCode::Enter, KeyModifiers::none()));
    app.handle_keyevent(KeyEvent::new(KeyCode::Char('z'), KeyModifiers::none()));
    let first = app.render_frame(10);
    let second = app.render_frame(10);
    assert_eq!(first, second);
    assert_eq!(app.clone().render_frame(10), first);
    assert_eq!(app.render_messsages(), app.render_messsages());
}

#[test]
fn drawing_does_not_depend_on_the_quit_flag() {
    let mut app = App::new();
    app.handle_keyevent(KeyEvent::new(KeyCode::Char('a'), KeyModifiers::none()));
    let before = app.render_frame(4);
    app.handle_keyevent(KeyEvent::new(KeyCode::Char('c'), KeyModifiers::control()));
    assert!(app.should_quit());
    assert_eq!(app.render_frame(4), before);
}
