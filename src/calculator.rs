use vstd::prelude::*;
use crate::expr::{
    chars_of, divides_by_zero, divides_by_zero_spec, eval_text, evaluate, is_evaluation, opt_view,
    text_of,
};

verus! {

/// The keys of the keyboard that the calculator listens to.
#[derive(Clone, Copy, Debug, PartialEq, Eq, Structural)]
pub enum Key {
    Key0,
    Key1,
    Key2,
    Key3,
    Key4,
    Key5,
    Key6,
    Key7,
    Key8,
    Key9,
    Plus,
    Minus,
    Asterisk,
    Slash,
    Delete,
    Backspace,
    Enter,
    NumpadEnter,
    Escape,
    Period,
    Other,
}

/// What the user did: typed into the text field, pressed a button of the grid,
/// pressed a key, or something the calculator ignores.
#[derive(Clone, Debug)]
pub enum Message {
    InputChanged(String),
    ButtonPressed(char),
    KeyPressed(Key),
    Ignore,
}

/// How a button of the grid is drawn.
#[derive(Clone, Copy, Debug, PartialEq, Eq, Structural)]
pub enum ButtonKind {
    Clear,
    Equals,
    Operator,
    Digit,
}

/// The abstract state: the buffer on display and the last value that evaluated.
pub struct CalcState {
    pub display: Seq<char>,
    pub last_valid: Seq<char>,
}

pub struct Calculator {
    pub display: Vec<char>,
    pub last_valid_expr: Vec<char>,
    pub buttons: Vec<Vec<char>>,
}

impl View for Calculator {
    type V = CalcState;

    open spec fn view(&self) -> CalcState {
        CalcState { display: self.display@, last_valid: self.last_valid_expr@ }
    }
}

pub open spec fn is_digit_char(c: char) -> bool {
    '0' <= c && c <= '9'
}

pub open spec fn is_operator_char(c: char) -> bool {
    c == '+' || c == '-' || c == '*' || c == '/'
}

/// The text shown after a division by zero.
pub open spec fn error_token() -> Seq<char> {
    seq!['E', 'r', 'r', 'o', 'r']
}

pub open spec fn empty_state() -> CalcState {
    CalcState { display: Seq::empty(), last_valid: Seq::empty() }
}

/// The grid of buttons, row by row.
pub open spec fn button_layout() -> Seq<Seq<char>> {
    seq![
        seq!['7', '8', '9', '/'],
        seq!['4', '5', '6', '*'],
        seq!['1', '2', '3', '-'],
        seq!['C', '0', '=', '+'],
    ]
}

/// The last valid value after an evaluation: its result where there is one.
pub open spec fn recorded(last: Seq<char>, value: Option<Seq<char>>) -> Seq<char> {
    match value {
        Some(v) => v,
        None => last,
    }
}

/// The buffer after an operator key: an operator at the end is replaced, an
/// empty buffer takes none.
pub open spec fn with_operator(d: Seq<char>, op: char) -> Seq<char> {
    if d.len() == 0 {
        d
    } else if is_operator_char(d.last()) {
        d.drop_last().push(op)
    } else {
        d.push(op)
    }
}

/// The state after the input symbol `ch`, given the evaluation `value` that the
/// symbol asks for (see `evaluation_target`). On `=` a buffer that evaluates is
/// replaced by its value, or by the error token where it divides by a literal zero.
pub open spec fn next_state(s: CalcState, ch: char, value: Option<Seq<char>>) -> CalcState {
    if is_digit_char(ch) {
        CalcState { display: s.display.push(ch), last_valid: recorded(s.last_valid, value) }
    } else if ch == '.' {
        if s.display.contains('.') {
            s
        } else {
            CalcState { display: s.display.push('.'), last_valid: s.last_valid }
        }
    } else if is_operator_char(ch) {
        CalcState { display: with_operator(s.display, ch), last_valid: s.last_valid }
    } else if ch == '=' {
        match value {
            Some(v) => if divides_by_zero_spec(s.display) {
                CalcState { display: error_token(), last_valid: Seq::empty() }
            } else {
                CalcState { display: v, last_valid: v }
            },
            None => s,
        }
    } else if ch == 'C' {
        empty_state()
    } else {
        s
    }
}

/// The text that the symbol `ch` has evaluated on the buffer `d`: the buffer
/// with the digit appended, the buffer itself on `=`, none otherwise.
pub open spec fn evaluation_target(d: Seq<char>, ch: char) -> Option<Seq<char>> {
    if is_digit_char(ch) {
        Some(d.push(ch))
    } else if ch == '=' {
        Some(d)
    } else {
        None
    }
}

/// `v` is a value that processing `ch` on the buffer `d` may obtain.
pub open spec fn is_outcome(d: Seq<char>, ch: char, v: Option<Seq<char>>) -> bool {
    match evaluation_target(d, ch) {
        Some(e) => is_evaluation(e, v),
        None => v is None,
    }
}

/// Two operators pressed in a row leave the state that the second alone leaves:
/// the second replaces the first.
pub proof fn lemma_operator_replaced(
    s: CalcState,
    op1: char,
    op2: char,
    v1: Option<Seq<char>>,
    v2: Option<Seq<char>>,
    v: Option<Seq<char>>,
)
    requires
        is_operator_char(op1),
        is_operator_char(op2),
        is_outcome(s.display, op1, v1),
        is_outcome(next_state(s, op1, v1).display, op2, v2),
        is_outcome(s.display, op2, v),
    ensures
        next_state(next_state(s, op1, v1), op2, v2) == next_state(s, op2, v),
{
    let d = s.display;
    if d.len() > 0 {
        let once = next_state(s, op1, v1).display;
        assert(once.last() == op1);
        assert(once.drop_last() =~= if is_operator_char(d.last()) {
            d.drop_last()
        } else {
            d
        });
    }
}

/// A second point is ignored: pressing `.` twice leaves the state that one press leaves.
pub proof fn lemma_point_once(
    s: CalcState,
    v1: Option<Seq<char>>,
    v2: Option<Seq<char>>,
)
    requires
        is_outcome(s.display, '.', v1),
        is_outcome(next_state(s, '.', v1).display, '.', v2),
    ensures
        next_state(next_state(s, '.', v1), '.', v2) == next_state(s, '.', v1),
{
    if !s.display.contains('.') {
        let once = next_state(s, '.', v1).display;
        assert(once[once.len() - 1] == '.');
        assert(once.contains('.'));
    }
}

/// The input symbol that a key stands for.
pub open spec fn key_input(k: Key) -> Option<char> {
    match k {
        Key::Key0 => Some('0'),
        Key::Key1 => Some('1'),
        Key::Key2 => Some('2'),
        Key::Key3 => Some('3'),
        Key::Key4 => Some('4'),
        Key::Key5 => Some('5'),
        Key::Key6 => Some('6'),
        Key::Key7 => Some('7'),
        Key::Key8 => Some('8'),
        Key::Key9 => Some('9'),
        Key::Plus => Some('+'),
        Key::Minus => Some('-'),
        Key::Asterisk => Some('*'),
        Key::Slash => Some('/'),
        Key::Enter | Key::NumpadEnter => Some('='),
        Key::Escape => Some('C'),
        Key::Period => Some('.'),
        _ => None,
    }
}

pub open spec fn is_erase_key(k: Key) -> bool {
    k == Key::Delete || k == Key::Backspace
}

/// The buffer without its last character, if it has one.
pub open spec fn erased(d: Seq<char>) -> Seq<char> {
    if d.len() > 0 {
        d.drop_last()
    } else {
        d
    }
}

/// The state after a message, given the calculator's state before it and the
/// evaluation `v` that the message asks for (see `is_message_outcome`).
pub open spec fn after_message(s: CalcState, m: Message, v: Option<Seq<char>>) -> CalcState {
    match m {
        Message::InputChanged(t) => CalcState { display: t@, last_valid: recorded(s.last_valid, v) },
        Message::ButtonPressed(ch) => next_state(s, ch, v),
        Message::KeyPressed(k) => match key_input(k) {
            Some(ch) => next_state(s, ch, v),
            None => if is_erase_key(k) {
                CalcState { display: erased(s.display), last_valid: recorded(s.last_valid, v) }
            } else {
                s
            },
        },
        Message::Ignore => s,
    }
}

/// `v` is a value that handling the message may obtain: the evaluation of the
/// typed text, of the buffer after an erased character, or what the input
/// symbol asks for.
pub open spec fn is_message_outcome(s: CalcState, m: Message, v: Option<Seq<char>>) -> bool {
    match m {
        Message::InputChanged(t) => is_evaluation(t@, v),
        Message::ButtonPressed(ch) => is_outcome(s.display, ch, v),
        Message::KeyPressed(k) => match key_input(k) {
            Some(ch) => is_outcome(s.display, ch, v),
            None => if is_erase_key(k) {
                is_evaluation(erased(s.display), v)
            } else {
                v is None
            },
        },
        Message::Ignore => v is None,
    }
}

pub open spec fn button_kind_spec(ch: char) -> ButtonKind {
    if ch == 'C' {
        ButtonKind::Clear
    } else if ch == '=' {
        ButtonKind::Equals
    } else if is_operator_char(ch) {
        ButtonKind::Operator
    } else {
        ButtonKind::Digit
    }
}

pub fn is_digit(c: char) -> (r: bool)
    ensures
        r == is_digit_char(c),
{
    '0' <= c && c <= '9'
}

pub fn is_operator(c: char) -> (r: bool)
    ensures
        r == is_operator_char(c),
{
    c == '+' || c == '-' || c == '*' || c == '/'
}

/// How the button for `ch` is drawn.
pub fn button_kind(ch: char) -> (r: ButtonKind)
    ensures
        r == button_kind_spec(ch),
{
    if ch == 'C' {
        ButtonKind::Clear
    } else if ch == '=' {
        ButtonKind::Equals
    } else if is_operator(ch) {
        ButtonKind::Operator
    } else {
        ButtonKind::Digit
    }
}

pub fn contains_char(s: &Vec<char>, c: char) -> (r: bool)
    ensures
        r == s@.contains(c),
{
    let mut i: usize = 0;
    while i < s.len()
        invariant
            0 <= i <= s@.len(),
            forall|k: int| 0 <= k < i ==> s@[k] != c,
        decreases s@.len() - i,
    {
        if s[i] == c {
            return true;
        }
        i = i + 1;
    }
    false
}

impl Key {
    /// The input symbol that this key stands for, if any.
    pub fn input_char(&self) -> (r: Option<char>)
        ensures
            r == key_input(*self),
    {
        match self {
            Key::Key0 => Some('0'),
            Key::Key1 => Some('1'),
            Key::Key2 => Some('2'),
            Key::Key3 => Some('3'),
            Key::Key4 => Some('4'),
            Key::Key5 => Some('5'),
            Key::Key6 => Some('6'),
            Key::Key7 => Some('7'),
            Key::Key8 => Some('8'),
            Key::Key9 => Some('9'),
            Key::Plus => Some('+'),
            Key::Minus => Some('-'),
            Key::Asterisk => Some('*'),
            Key::Slash => Some('/'),
            Key::Enter | Key::NumpadEnter => Some('='),
            Key::Escape => Some('C'),
            Key::Period => Some('.'),
            _ => None,
        }
    }
}

impl Calculator {
    /// An empty calculator with the standard grid of buttons.
    pub fn new() -> (r: Self)
        ensures
            r@ == empty_state(),
            r.buttons.deep_view() == button_layout(),
    {
        let buttons = vec![
            vec!['7', '8', '9', '/'],
            vec!['4', '5', '6', '*'],
            vec!['1', '2', '3', '-'],
            vec!['C', '0', '=', '+'],
        ];
        let r = Calculator { display: Vec::new(), last_valid_expr: Vec::new(), buttons };
        assert(r.buttons.deep_view() =~~= button_layout());
        assert(r@.display =~= Seq::<char>::empty());
        assert(r@.last_valid =~= Seq::<char>::empty());
        r
    }

    /// The buffer on display.
    pub fn display_text(&self) -> (r: String)
        ensures
            r@ == self@.display,
    {
        text_of(&self.display)
    }

    /// The last value that evaluated.
    pub fn last_valid_text(&self) -> (r: String)
        ensures
            r@ == self@.last_valid,
    {
        text_of(&self.last_valid_expr)
    }

    /// Keeps the result of an evaluation as the last valid value, if there is one.
    pub fn record_value(&mut self, value: Option<Vec<char>>)
        ensures
            final(self)@.display == old(self)@.display,
            final(self)@.last_valid == recorded(old(self)@.last_valid, opt_view(value)),
            final(self).buttons == old(self).buttons,
    {
        match value {
            Some(v) => {
                self.last_valid_expr = v;
            },
            None => {},
        }
    }

    /// Applies the input symbol `ch`, with `value` the evaluation that it asks
    /// for (see `is_outcome`).
    pub fn apply_input(&mut self, ch: char, value: Option<Vec<char>>)
        ensures
            final(self)@ == next_state(old(self)@, ch, opt_view(value)),
            final(self).buttons == old(self).buttons,
    {
        if is_digit(ch) {
            self.display.push(ch);
            self.record_value(value);
        } else if ch == '.' {
            if !contains_char(&self.display, '.') {
                self.display.push('.');
            }
        } else if is_operator(ch) {
            let n = self.display.len();
            if n > 0 {
                if is_operator(self.display[n - 1]) {
                    self.display.pop();
                }
                self.display.push(ch);
            }
        } else if ch == '=' {
            match value {
                Some(v) => {
                    if divides_by_zero(&self.display) {
                        self.display = vec!['E', 'r', 'r', 'o', 'r'];
                        self.last_valid_expr = Vec::new();
                        assert(self.display@ =~= error_token());
                        assert(self.last_valid_expr@ =~= Seq::<char>::empty());
                    } else {
                        self.last_valid_expr = v.clone();
                        self.display = v;
                        assert(self.last_valid_expr@ =~= self.display@);
                    }
                },
                None => {},
            }
        } else if ch == 'C' {
            self.display = Vec::new();
            self.last_valid_expr = Vec::new();
            assert(self@ == empty_state()) by {
                assert(self.display@ =~= Seq::<char>::empty());
                assert(self.last_valid_expr@ =~= Seq::<char>::empty());
            }
        }
    }

    /// Processes one input symbol of the grid or the keyboard: digits and the
    /// point extend the buffer, an operator is appended or replaces the one at
    /// the end, `=` evaluates the buffer, `C` clears.
    pub fn process_input(&mut self, ch: char)
        ensures
            exists|v: Option<Seq<char>>|
                is_outcome(old(self)@.display, ch, v) && final(self)@ == next_state(
                    old(self)@,
                    ch,
                    v,
                ),
            final(self).buttons == old(self).buttons,
            ch == 'C' ==> final(self)@ == empty_state(),
            ch == '.' && old(self)@.display.contains('.') ==> final(self)@ == old(self)@,
            is_operator_char(ch) && old(self)@.display.len() > 0 && is_operator_char(
                old(self)@.display.last(),
            ) ==> final(self)@.display == old(self)@.display.drop_last().push(ch),
            ch == '=' && divides_by_zero_spec(old(self)@.display) && eval_text(
                old(self)@.display,
            ) is Some ==> final(self)@.display == error_token() && final(self)@.last_valid.len()
                == 0,
    {
        let ghost s0 = self@;
        let value = if is_digit(ch) {
            let mut e = self.display.clone();
            assert(e@ =~= self.display@);
            e.push(ch);
            evaluate(&e)
        } else if ch == '=' {
            evaluate(&self.display)
        } else {
            None
        };
        self.apply_input(ch, value);
        assert(is_outcome(s0.display, ch, opt_view(value)) && self@ == next_state(
            s0,
            ch,
            opt_view(value),
        ));
    }

    /// Handles a message of the user interface.
    pub fn update(&mut self, message: Message)
        ensures
            exists|v: Option<Seq<char>>|
                is_message_outcome(old(self)@, message, v) && final(self)@ == after_message(
                    old(self)@,
                    message,
                    v,
                ),
            final(self).buttons == old(self).buttons,
    {
        let ghost s0 = self@;
        match message {
            Message::InputChanged(new_value) => {
                self.display = chars_of(new_value.as_str());
                let value = evaluate(&self.display);
                self.record_value(value);
                assert(is_message_outcome(s0, message, opt_view(value)) && self@ == after_message(
                    s0,
                    message,
                    opt_view(value),
                ));
            },
            Message::ButtonPressed(ch) => {
                self.process_input(ch);
                proof {
                    let v = choose|v: Option<Seq<char>>|
                        is_outcome(s0.display, ch, v) && self@ == next_state(s0, ch, v);
                    assert(is_message_outcome(s0, message, v) && self@ == after_message(
                        s0,
                        message,
                        v,
                    ));
                }
            },
            Message::KeyPressed(key) => {
                match key.input_char() {
                    Some(ch) => {
                        self.process_input(ch);
                        proof {
                            let v = choose|v: Option<Seq<char>>|
                                is_outcome(s0.display, ch, v) && self@ == next_state(s0, ch, v);
                            assert(is_message_outcome(s0, message, v) && self@ == after_message(
                                s0,
                                message,
                                v,
                            ));
                        }
                    },
                    None => {
                        if key == Key::Delete || key == Key::Backspace {
                            self.display.pop();
                            let value = evaluate(&self.display);
                            self.record_value(value);
                            assert(is_message_outcome(s0, message, opt_view(value)) && self@
                                == after_message(s0, message, opt_view(value)));
                        } else {
                            assert(is_message_outcome(s0, message, None) && self@ == after_message(
                                s0,
                                message,
                                None,
                            ));
                        }
                    },
                }
            },
            Message::Ignore => {
                assert(is_message_outcome(s0, message, None) && self@ == after_message(
                    s0,
                    message,
                    None,
                ));
            },
        }
    }
}

} // verus!
