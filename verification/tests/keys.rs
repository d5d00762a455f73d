use chat_tui::app::App;
use chat_tui::event::{KeyCode, KeyEvent, KeyModifiers};
use chat_tui::message::{Message, Origin};

fn plain(code: KeyCode) -> KeyEvent {
    KeyEvent::new(code, KeyModifiers::none())
}

fn typed(app: &mut App, text: &str) {
    for c in text.chars() {
        app.handle_keyevent(plain(KeyCode::Char(c)));
    }
}

#[test]
fn new_chat_is_empty() {
    let app = App::new();
    assert!(app.messages().is_empty());
    assert_eq!(app.user_message(), "");
    assert!(!app.should_quit());
}

#[test]
fn typed_characters_are_concatenated_in_order() {
    let mut app = App::new();
    app.handle_keyevent(plain(KeyCode::Char('h')));
    app.handle_keyevent(KeyEvent::new(KeyCode::Char('E'), KeyModifiers::shift()));
    app.handle_keyevent(plain(KeyCode::Char('l')));
    app.handle_keyevent(plain(KeyCode::Char(' ')));
    app.handle_keyevent(KeyEvent::new(KeyCode::Char('!'), KeyModifiers::shift()));
    assert_eq!(app.user_message(), "hEl !");
    assert!(app.messages().is_empty());
    assert!(!app.should_quit());
}

#[test]
fn plain_c_is_typed() {
    let mut app = App::new();
    app.handle_keyevent(plain(KeyCode::Char('c')));
    assert_eq!(app.user_message(), "c");
    assert!(!app.should_quit());
}

#[test]
fn backspace_on_empty_input_leaves_it_empty() {
    let mut app = App::new();
    app.handle_keyevent(plain(KeyCode::Backspace));
    assert_eq!(app.user_message(), "");
    assert!(app.messages().is_empty());
    assert!(!app.should_quit());
}

#[test]
fn backspace_removes_the_last_character() {
    let mut app = App::new();
    typed(&mut app, "abc");
    app.handle_keyevent(plain(KeyCode::Backspace));
    assert_eq!(app.user_message(), "ab");
}

#[test]
fn backspace_removes_a_whole_character() {
    let mut app = App::new();
    typed(&mut app, "na\u{ef}ve\u{1f600}");
    app.handle_keyevent(plain(KeyCode::Backspace));
    assert_eq!(app.user_message(), "na\u{ef}ve");
    app.handle_keyevent(plain(KeyCode::Backspace));
    app.handle_keyevent(plain(KeyCode::Backspace));
    app.handle_keyevent(plain(KeyCode::Backspace));
    assert_eq!(app.user_message(), "na");
}

#[test]
fn backspace_works_with_any_modifier() {
    let mut app = App::new();
    typed(&mut app, "ab");
    app.handle_keyevent(KeyEvent::new(KeyCode::Backspace, KeyModifiers::control()));
    assert_eq!(app.user_message(), "a");
}

#[test]
fn enter_commits_hello() {
    let mut app = App::new();
    typed(&mut app, "hello");
    assert_eq!(app.user_message(), "hello");
    app.handle_keyevent(plain(KeyCode::Enter));
    assert_eq!(app.messages(), &vec![Message::new("hello".to_string(), Origin::User)]);
    assert_eq!(app.messages().len(), 1);
    assert_eq!(app.messages()[0].content(), "hello");
    assert_eq!(app.messages()[0].origin(), Origin::User);
    assert_eq!(app.user_message(), "");
    assert!(!app.should_quit());
}

#[test]
fn enter_on_empty_input_appends_nothing() {
    let mut app = App::new();
    typed(&mut app, "one");
    app.handle_keyevent(plain(KeyCode::Enter));
    assert_eq!(app.messages().len(), 1);
    app.handle_keyevent(plain(KeyCode::Enter));
    assert_eq!(app.messages().len(), 1);
    assert_eq!(app.user_message(), "");
}

#[test]
fn enter_commits_with_any_modifier() {
    let mut app = App::new();
    typed(&mut app, "x");
    app.handle_keyevent(KeyEvent::new(KeyCode::Enter, KeyModifiers::shift()));
    assert_eq!(app.messages(), &vec![Message::new("x".to_string(), Origin::User)]);
    assert_eq!(app.user_message(), "");
}

#[test]
fn messages_keep_their_order() {
    let mut app = App::new();
    typed(&mut app, "first");
    app.handle_keyevent(plain(KeyCode::Enter));
    typed(&mut app, "second");
    app.handle_keyevent(plain(KeyCode::Enter));
    assert_eq!(
        app.messages(),
        &vec![
            Message::new("first".to_string(), Origin::User),
            Message::new("second".to_string(), Origin::User),
        ]
    );
}

#[test]
fn control_c_asks_to_quit() {
    let mut app = App::new();
    typed(&mut app, "draft");
    app.handle_keyevent(KeyEvent::new(KeyCode::Char('c'), KeyModifiers::control()));
    assert!(app.should_quit());
    assert_eq!(app.user_message(), "draft");
    assert!(app.messages().is_empty());
}

#[test]
fn quit_is_never_taken_back() {
    let mut app = App::new();
    app.handle_keyevent(KeyEvent::new(KeyCode::Char('c'), KeyModifiers::control()));
    app.handle_keyevent(plain(KeyCode::Char('a')));
    app.handle_keyevent(plain(KeyCode::Enter));
    app.handle_keyevent(plain(KeyCode::Backspace));
    assert!(app.should_quit());
}

#[test]
fn control_with_another_modifier_does_not_quit() {
    let mut app = App::new();
    let mut both = KeyModifiers::control();
    both.shift = true;
    app.handle_keyevent(KeyEvent::new(KeyCode::Char('c'), both));
    assert!(!app.should_quit());
    assert_eq!(app.user_message(), "");
}

#[test]
fn control_with_another_character_changes_nothing() {
    let mut app = App::new();
    app.handle_keyevent(KeyEvent::new(KeyCode::Char('x'), KeyModifiers::control()));
    app.handle_keyevent(KeyEvent::new(KeyCode::Char('C'), KeyModifiers::control()));
    assert!(!app.should_quit());
    assert_eq!(app.user_message(), "");
}

#[test]
fn character_with_alt_is_not_typed() {
    let mut app = App::new();
    let mut alt = KeyModifiers::none();
    alt.alt = true;
    app.handle_keyevent(KeyEvent::new(KeyCode::Char('a'), alt));
    let mut shift_alt = KeyModifiers::shift();
    shift_alt.alt = true;
    app.handle_keyevent(KeyEvent::new(KeyCode::Char('A'), shift_alt));
    assert_eq!(app.user_message(), "");
}

#[test]
fn other_keys_change_nothing() {
    let mut app = App::new();
    typed(&mut app, "ab");
    let before = app.clone();
    app.handle_keyevent(plain(KeyCode::Other));
    app.handle_keyevent(KeyEvent::new(KeyCode::Other, KeyModifiers::control()));
    assert_eq!(app, before);
}

#[test]
fn modifier_predicates_tell_the_sets_apart() {
    assert!(KeyModifiers::none().is_none());
    assert!(!KeyModifiers::none().is_shift());
    assert!(!KeyModifiers::none().is_control());
    assert!(KeyModifiers::shift().is_shift());
    assert!(!KeyModifiers::shift().is_none());
    assert!(KeyModifiers::control().is_control());
    assert!(!KeyModifiers::control().is_shift());
    let mut meta = KeyModifiers::none();
    meta.meta = true;
    assert!(!meta.is_none());
}

#[test]
fn key_events_say_what_they_type() {
    assert_eq!(plain(KeyCode::Char('q')).typed(), Some('q'));
    assert_eq!(KeyEvent::new(KeyCode::Char('Q'), KeyModifiers::shift()).typed(), Some('Q'));
    assert_eq!(KeyEvent::new(KeyCode::Char('q'), KeyModifiers::control()).typed(), None);
    assert_eq!(plain(KeyCode::Enter).typed(), None);
    assert!(KeyEvent::new(KeyCode::Char('c'), KeyModifiers::control()).is_quit());
    assert!(!plain(KeyCode::Char('c')).is_quit());
    assert!(!KeyEvent::new(KeyCode::Enter, KeyModifiers::control()).is_quit());
}
