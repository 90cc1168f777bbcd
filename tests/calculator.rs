use calculator::calculator::{button_kind, contains_char, ButtonKind, Calculator, Key, Message};
use calculator::expr::{blank_text, divides_by_zero, evaluate, is_numeral, zero_literal_from};

fn chars(s: &str) -> Vec<char> {
    s.chars().collect()
}

fn press_all(c: &mut Calculator, keys: &str) {
    for ch in keys.chars() {
        c.process_input(ch);
    }
}

#[test]
fn sum_of_twelve_and_three() {
    let mut c = Calculator::new();
    press_all(&mut c, "12+3=");
    assert_eq!(c.display_text(), "15");
    assert_eq!(c.last_valid_text(), "15");
}

#[test]
fn division_by_zero_gives_error_token() {
    let mut c = Calculator::new();
    press_all(&mut c, "5/0=");
    assert_eq!(c.display_text(), "Error");
    assert_eq!(c.last_valid_text(), "");
    assert!(!c.display.iter().any(|ch| "+-*/".contains(*ch)));
}

#[test]
fn division_by_zero_point_zero() {
    let mut c = Calculator::new();
    press_all(&mut c, "7/0.0=");
    assert_eq!(c.display_text(), "Error");
}

#[test]
fn division_by_nonzero_evaluates() {
    let mut c = Calculator::new();
    press_all(&mut c, "5/2=");
    assert_eq!(c.display_text(), "2.5");
}

#[test]
fn clear_resets_everything() {
    for keys in ["", "12", "12+", "12+3", "12+3=", "5/0=", "1.5*"] {
        let mut c = Calculator::new();
        press_all(&mut c, keys);
        c.process_input('C');
        assert_eq!(c.display_text(), "");
        assert_eq!(c.last_valid_text(), "");
        assert_eq!(c.buttons, Calculator::new().buttons);
    }
}

#[test]
fn second_point_is_ignored() {
    let mut c = Calculator::new();
    press_all(&mut c, "1.5");
    c.process_input('.');
    assert_eq!(c.display_text(), "1.5");
    press_all(&mut c, "..");
    assert_eq!(c.display_text(), "1.5");
}

#[test]
fn operator_twice_replaces() {
    let mut c = Calculator::new();
    press_all(&mut c, "12+*");
    assert_eq!(c.display_text(), "12*");
    press_all(&mut c, "3=");
    assert_eq!(c.display_text(), "36");
}

#[test]
fn operator_on_empty_buffer_is_ignored() {
    let mut c = Calculator::new();
    c.process_input('+');
    assert_eq!(c.display_text(), "");
}

#[test]
fn digits_record_last_valid_value() {
    let mut c = Calculator::new();
    press_all(&mut c, "7*6");
    assert_eq!(c.display_text(), "7*6");
    assert_eq!(c.last_valid_text(), "42");
    c.process_input('+');
    assert_eq!(c.last_valid_text(), "42");
}

#[test]
fn equals_on_invalid_buffer_changes_nothing() {
    let mut c = Calculator::new();
    press_all(&mut c, "4+");
    c.process_input('=');
    assert_eq!(c.display_text(), "4+");
    assert_eq!(c.last_valid_text(), "4");
}

#[test]
fn unknown_symbol_changes_nothing() {
    let mut c = Calculator::new();
    press_all(&mut c, "9x");
    assert_eq!(c.display_text(), "9");
}

#[test]
fn apply_input_takes_given_value() {
    let mut c = Calculator::new();
    c.apply_input('1', Some(chars("1")));
    c.apply_input('+', None);
    c.apply_input('2', None);
    assert_eq!(c.display_text(), "1+2");
    assert_eq!(c.last_valid_text(), "1");
    c.apply_input('=', Some(chars("3")));
    assert_eq!(c.display_text(), "3");
    assert_eq!(c.last_valid_text(), "3");
    c.apply_input('=', None);
    assert_eq!(c.display_text(), "3");
}

#[test]
fn apply_input_division_by_zero_ignores_value() {
    let mut c = Calculator::new();
    c.apply_input('8', None);
    c.apply_input('/', None);
    c.apply_input('0', None);
    c.apply_input('=', Some(chars("inf")));
    assert_eq!(c.display_text(), "Error");
}

#[test]
fn record_value_keeps_result() {
    let mut c = Calculator::new();
    c.record_value(Some(chars("2.5")));
    assert_eq!(c.last_valid_text(), "2.5");
    c.record_value(None);
    assert_eq!(c.last_valid_text(), "2.5");
    assert_eq!(c.display_text(), "");
}

#[test]
fn input_changed_sets_buffer_and_evaluates() {
    let mut c = Calculator::new();
    c.update(Message::InputChanged(String::from("2*3+1")));
    assert_eq!(c.display_text(), "2*3+1");
    assert_eq!(c.last_valid_text(), "7");
    c.update(Message::InputChanged(String::from("2*")));
    assert_eq!(c.display_text(), "2*");
    assert_eq!(c.last_valid_text(), "7");
}

#[test]
fn keys_act_as_symbols() {
    let mut c = Calculator::new();
    for k in [Key::Key9, Key::Period, Key::Key5, Key::Minus, Key::Key1, Key::Enter] {
        c.update(Message::KeyPressed(k));
    }
    assert_eq!(c.display_text(), "8.5");
    c.update(Message::KeyPressed(Key::Escape));
    assert_eq!(c.display_text(), "");
    assert_eq!(c.last_valid_text(), "");
}

#[test]
fn backspace_erases_and_evaluates() {
    let mut c = Calculator::new();
    c.update(Message::InputChanged(String::from("12+34")));
    c.update(Message::KeyPressed(Key::Backspace));
    assert_eq!(c.display_text(), "12+3");
    assert_eq!(c.last_valid_text(), "15");
    c.update(Message::KeyPressed(Key::Delete));
    c.update(Message::KeyPressed(Key::Delete));
    assert_eq!(c.display_text(), "12");
    assert_eq!(c.last_valid_text(), "12");
    c.update(Message::KeyPressed(Key::Other));
    c.update(Message::Ignore);
    assert_eq!(c.display_text(), "12");
}

#[test]
fn backspace_on_empty_buffer() {
    let mut c = Calculator::new();
    c.update(Message::KeyPressed(Key::Backspace));
    assert_eq!(c.display_text(), "");
    assert_eq!(c.last_valid_text(), "");
}

#[test]
fn button_presses_through_update() {
    let mut c = Calculator::new();
    for ch in "6*7=".chars() {
        c.update(Message::ButtonPressed(ch));
    }
    assert_eq!(c.display_text(), "42");
}

#[test]
fn key_symbols() {
    assert_eq!(Key::Key0.input_char(), Some('0'));
    assert_eq!(Key::Key7.input_char(), Some('7'));
    assert_eq!(Key::Asterisk.input_char(), Some('*'));
    assert_eq!(Key::Slash.input_char(), Some('/'));
    assert_eq!(Key::NumpadEnter.input_char(), Some('='));
    assert_eq!(Key::Escape.input_char(), Some('C'));
    assert_eq!(Key::Period.input_char(), Some('.'));
    assert_eq!(Key::Backspace.input_char(), None);
    assert_eq!(Key::Other.input_char(), None);
}

#[test]
fn button_kinds() {
    assert_eq!(button_kind('C'), ButtonKind::Clear);
    assert_eq!(button_kind('='), ButtonKind::Equals);
    assert_eq!(button_kind('-'), ButtonKind::Operator);
    assert_eq!(button_kind('/'), ButtonKind::Operator);
    assert_eq!(button_kind('0'), ButtonKind::Digit);
}

#[test]
fn new_calculator_grid() {
    let c = Calculator::new();
    assert_eq!(c.display_text(), "");
    assert_eq!(
        c.buttons,
        vec![
            vec!['7', '8', '9', '/'],
            vec!['4', '5', '6', '*'],
            vec!['1', '2', '3', '-'],
            vec!['C', '0', '=', '+'],
        ]
    );
}

#[test]
fn division_by_zero_detection() {
    assert!(divides_by_zero(&chars("5/0")));
    assert!(divides_by_zero(&chars("0/0")));
    assert!(divides_by_zero(&chars("5/00")));
    assert!(divides_by_zero(&chars("5/.0")));
    assert!(divides_by_zero(&chars("5/0+3")));
    assert!(divides_by_zero(&chars("1+2/0*4")));
    assert!(!divides_by_zero(&chars("5/0.5")));
    assert!(!divides_by_zero(&chars("5/05")));
    assert!(!divides_by_zero(&chars("5/")));
    assert!(!divides_by_zero(&chars("5/.")));
    assert!(!divides_by_zero(&chars("50")));
    assert!(!divides_by_zero(&chars("")));
}

#[test]
fn zero_literals() {
    let s = chars("3/0.00+");
    assert!(zero_literal_from(&s, 2));
    assert!(!zero_literal_from(&s, 0));
    assert!(!zero_literal_from(&s, 7));
    assert!(is_numeral('.'));
    assert!(!is_numeral('+'));
    assert!(contains_char(&s, '+'));
    assert!(!contains_char(&s, '*'));
}

#[test]
fn blank_text_is_not_evaluated() {
    let mut c = Calculator::new();
    c.update(Message::InputChanged(String::from("4")));
    c.update(Message::InputChanged(String::from(" ")));
    assert_eq!(c.display_text(), " ");
    assert_eq!(c.last_valid_text(), "4");
    c.update(Message::InputChanged(String::from(" 1")));
    assert_eq!(c.last_valid_text(), "1");
    c.update(Message::KeyPressed(Key::Backspace));
    assert_eq!(c.display_text(), " ");
    assert_eq!(c.last_valid_text(), "1");
    c.process_input('=');
    assert_eq!(c.display_text(), " ");
}

#[test]
fn blank_texts() {
    assert!(blank_text(&chars(" \t\r\n")));
    assert!(!blank_text(&chars("")));
    assert!(!blank_text(&chars(" 1 ")));
    assert_eq!(evaluate(&chars("  ")), None);
    assert_eq!(evaluate(&chars("")), None);
    assert_eq!(evaluate(&chars(" 2 * 3 ")), Some(chars("6")));
    assert_eq!(evaluate(&chars("7 %")), None);
}

#[test]
fn unparsable_zero_division_changes_nothing() {
    let mut c = Calculator::new();
    press_all(&mut c, "5/0+=");
    assert_eq!(c.display_text(), "5/0+");
    c.update(Message::InputChanged(String::from("5/0.0.0")));
    c.update(Message::KeyPressed(Key::Enter));
    assert_eq!(c.display_text(), "5/0.0.0");
}

#[test]
fn apply_input_zero_division_without_value() {
    let mut c = Calculator::new();
    c.apply_input('5', None);
    c.apply_input('/', None);
    c.apply_input('0', None);
    c.apply_input('=', None);
    assert_eq!(c.display_text(), "5/0");
}

#[test]
fn parenthesised_zero_divisor_is_not_caught() {
    let mut c = Calculator::new();
    c.update(Message::InputChanged(String::from("5/(0)")));
    c.process_input('=');
    assert_eq!(c.display_text(), "inf");
}
