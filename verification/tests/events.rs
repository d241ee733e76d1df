use canvas_gl::events::{
    on_key_down, on_key_up, on_mouse, on_resize, on_touch, wants_fullscreen, Event, KeyCode,
    Motion, Reply, Vec2i,
};
use canvas_gl::text::{append_chars, has_prefix, parse_i32, same_text, spells, to_chars};

fn number(text: &str) -> Option<i32> {
    parse_i32(&text.chars().collect(), 0)
}

#[test]
fn named_keys() {
    let table = [
        ("Space", KeyCode::Space),
        ("Insert", KeyCode::Insert),
        ("Delete", KeyCode::Delete),
        ("PageUp", KeyCode::PageUp),
        ("PageDown", KeyCode::PageDown),
        ("Home", KeyCode::Home),
        ("End", KeyCode::End),
        ("Escape", KeyCode::Escape),
        ("Enter", KeyCode::Enter),
        ("Tab", KeyCode::Tab),
        ("Backspace", KeyCode::Backspace),
        ("ArrowLeft", KeyCode::Left),
        ("ArrowRight", KeyCode::Right),
        ("ArrowUp", KeyCode::Up),
        ("ArrowDown", KeyCode::Down),
    ];
    for (code, key) in table.iter() {
        assert_eq!(KeyCode::from_c_str(code, "ignored"), Some(*key));
    }
    assert_eq!(KeyCode::from_c_str("space", " "), None);
    assert_eq!(KeyCode::from_c_str("Spaces", " "), None);
}

#[test]
fn letter_keys() {
    assert_eq!(KeyCode::from_c_str("KeyA", "a"), Some(KeyCode::Alpha('A')));
    assert_eq!(KeyCode::from_c_str("KeyQ", "@"), Some(KeyCode::Alpha('Q')));
    // Longer or shorter codes are no letters; the key value decides then.
    assert_eq!(KeyCode::from_c_str("Key", "a"), None);
    assert_eq!(KeyCode::from_c_str("KeyAB", "a"), None);
    assert_eq!(KeyCode::from_c_str("KeyAB", "!"), Some(KeyCode::Symbol('!')));
    // A fourth character of more than one byte makes the code too long.
    assert_eq!(KeyCode::from_c_str("Keyé", "a"), None);
}

#[test]
fn digit_keys() {
    assert_eq!(KeyCode::from_c_str("Digit0", "0"), Some(KeyCode::Digit(0)));
    assert_eq!(KeyCode::from_c_str("Digit7", "&"), Some(KeyCode::Digit(7)));
    assert_eq!(KeyCode::from_c_str("Digit42", ""), Some(KeyCode::Digit(42)));
    assert_eq!(KeyCode::from_c_str("Digit-3", ""), Some(KeyCode::Digit(-3)));
    // A digit code without a number is no key, whatever the key value says.
    assert_eq!(KeyCode::from_c_str("Digit", "!"), None);
    assert_eq!(KeyCode::from_c_str("DigitX", "Shift"), None);
    assert_eq!(KeyCode::from_c_str("Digit99999999999", "!"), None);
}

#[test]
fn modifier_and_function_keys() {
    assert_eq!(KeyCode::from_c_str("ShiftLeft", "Shift"), Some(KeyCode::Shift));
    assert_eq!(KeyCode::from_c_str("ControlRight", "Control"), Some(KeyCode::Control));
    for n in 1..=12 {
        let name = format!("F{}", n);
        assert_eq!(KeyCode::from_c_str(&name, &name), Some(KeyCode::F(n)));
    }
    assert_eq!(KeyCode::from_c_str("F13", "F13"), None);
    assert_eq!(KeyCode::from_c_str("F0", "F0"), None);
    assert_eq!(KeyCode::from_c_str("AltLeft", "Alt"), None);
}

#[test]
fn symbol_keys() {
    assert_eq!(KeyCode::from_c_str("Minus", "-"), Some(KeyCode::Symbol('-')));
    assert_eq!(KeyCode::from_c_str("Backquote", "`"), Some(KeyCode::Symbol('`')));
    assert_eq!(KeyCode::from_c_str("BracketLeft", "{"), Some(KeyCode::Symbol('{')));
    assert_eq!(KeyCode::from_c_str("Semicolon", ":"), Some(KeyCode::Symbol(':')));
    assert_eq!(KeyCode::from_c_str("IntlBackslash", "~"), Some(KeyCode::Symbol('~')));
    assert_eq!(KeyCode::from_c_str("Odd", "<="), Some(KeyCode::Symbol('<')));
    assert_eq!(KeyCode::from_c_str("Odd", "<a"), None);
    assert_eq!(KeyCode::from_c_str("Odd", ""), None);
    assert_eq!(KeyCode::from_c_str("Numpad1", "1"), None);
    assert_eq!(KeyCode::from_c_str("Odd", "\u{7f}"), None);
    assert_eq!(KeyCode::from_c_str("Odd", " "), None);
}

#[test]
fn code_wins_over_key() {
    assert_eq!(KeyCode::from_c_str("Enter", "Shift"), Some(KeyCode::Enter));
    assert_eq!(KeyCode::from_c_str("KeyF", "F5"), Some(KeyCode::Alpha('F')));
}

#[test]
fn key_down_replies() {
    assert_eq!(
        on_key_down(false, "KeyA", "a"),
        Reply { event: Some(Event::KeyDown(KeyCode::Alpha('A'))), consumed: true }
    );
    // A repeat is swallowed before the key is looked at.
    assert_eq!(on_key_down(true, "KeyA", "a"), Reply { event: None, consumed: true });
    assert_eq!(on_key_down(true, "Unknown", "Unknown"), Reply { event: None, consumed: true });
    // Keys of the browser itself are passed on.
    for name in ["F5", "F6", "F12"].iter() {
        assert_eq!(on_key_down(false, name, name), Reply { event: None, consumed: false });
    }
    assert_eq!(
        on_key_down(false, "F11", "F11"),
        Reply { event: Some(Event::KeyDown(KeyCode::F(11))), consumed: true }
    );
    assert_eq!(on_key_down(false, "Unknown", "Unknown"), Reply { event: None, consumed: false });
}

#[test]
fn key_up_replies() {
    assert_eq!(
        on_key_up("F5", "F5"),
        Reply { event: Some(Event::KeyUp(KeyCode::F(5))), consumed: true }
    );
    assert_eq!(
        on_key_up("Space", " "),
        Reply { event: Some(Event::KeyUp(KeyCode::Space)), consumed: true }
    );
    assert_eq!(on_key_up("Unknown", "Unknown"), Reply { event: None, consumed: false });
}

#[test]
fn pointer_replies() {
    let at = Vec2i::new(3, -4);
    assert_eq!(at, Vec2i { x: 3, y: -4 });
    assert_eq!(on_mouse(Motion::Down, 3, -4), Reply { event: Some(Event::Down(at)), consumed: true });
    assert_eq!(on_mouse(Motion::Up, 3, -4), Reply { event: Some(Event::Up(at)), consumed: true });
    assert_eq!(on_mouse(Motion::Move, 3, -4), Reply { event: Some(Event::Move(at)), consumed: true });
    assert_eq!(on_touch(Motion::Down, 0, 3, -4), Reply { event: Some(Event::Down(at)), consumed: true });
    assert_eq!(on_touch(Motion::Move, 0, 3, -4), Reply { event: Some(Event::Move(at)), consumed: true });
    assert_eq!(on_touch(Motion::Up, 0, 3, -4), Reply { event: Some(Event::Up(at)), consumed: true });
    assert_eq!(on_touch(Motion::Up, 1, 3, -4), Reply { event: None, consumed: false });
    assert_eq!(on_touch(Motion::Down, -1, 3, -4), Reply { event: None, consumed: false });
}

#[test]
fn resize_reply() {
    assert_eq!(
        on_resize(800, 600),
        Reply { event: Some(Event::Resize(Vec2i { x: 800, y: 600 })), consumed: true }
    );
}

#[test]
fn fullscreen_request() {
    assert!(wants_fullscreen(2, false));
    assert!(!wants_fullscreen(2, true));
    assert!(!wants_fullscreen(1, false));
    assert!(!wants_fullscreen(0, false));
}

#[test]
fn decimal_numbers() {
    assert_eq!(number("0"), Some(0));
    assert_eq!(number("12"), Some(12));
    assert_eq!(number("+12"), Some(12));
    assert_eq!(number("-12"), Some(-12));
    assert_eq!(number("-0"), Some(0));
    assert_eq!(number("0000000000000000000001"), Some(1));
    assert_eq!(number("2147483647"), Some(i32::MAX));
    assert_eq!(number("2147483648"), None);
    assert_eq!(number("-2147483648"), Some(i32::MIN));
    assert_eq!(number("-2147483649"), None);
    assert_eq!(number("99999999999999999999999999"), None);
    assert_eq!(number(""), None);
    assert_eq!(number("+"), None);
    assert_eq!(number("-"), None);
    assert_eq!(number("1 "), None);
    assert_eq!(number(" 1"), None);
    assert_eq!(number("1_0"), None);
    assert_eq!(number("--1"), None);
    assert_eq!(number("٣"), None);
}

#[test]
fn decimal_numbers_agree_with_std() {
    for text in ["7", "-7", "+7", "007", "2147483647", "2147483648", "-2147483648", "", "+", "1a", "a1"].iter() {
        assert_eq!(number(text), text.parse::<i32>().ok());
    }
}

#[test]
fn decimal_number_from_offset() {
    let chars: Vec<char> = "Digit15".chars().collect();
    assert_eq!(parse_i32(&chars, 5), Some(15));
    assert_eq!(parse_i32(&chars, 6), Some(5));
    assert_eq!(parse_i32(&chars, 7), None);
    assert_eq!(parse_i32(&chars, 4), None);
}

#[test]
fn text_helpers() {
    let chars = to_chars("héllo");
    assert_eq!(chars, vec!['h', 'é', 'l', 'l', 'o']);
    let mut text = String::from("> ");
    append_chars(&mut text, &chars);
    assert_eq!(text, "> héllo");
    append_chars(&mut text, &Vec::new());
    assert_eq!(text, "> héllo");
    assert!(spells(&chars, "héllo"));
    assert!(!spells(&chars, "hello"));
    assert!(!spells(&chars, "héll"));
    assert!(has_prefix(&chars, "hé"));
    assert!(has_prefix(&chars, ""));
    assert!(has_prefix(&chars, "héllo"));
    assert!(!has_prefix(&chars, "héllo!"));
    assert!(!has_prefix(&chars, "he"));
    assert!(same_text("position", "position"));
    assert!(!same_text("position", "positions"));
    assert!(!same_text("position", "Position"));
    assert!(same_text("", ""));
}
