//! Keys, modifier chords, and their canonical human-readable labels.

use vstd::prelude::*;

verus! {

/// The modifier keys held together with a key, as three independent bits.
#[derive(Debug, Clone, Copy, PartialEq, Eq, Structural)]
pub struct Modifiers {
    pub ctrl: bool,
    pub alt: bool,
    pub shift: bool,
}

impl Modifiers {
    /// The empty chord: no modifier held.
    pub fn none() -> (m: Modifiers)
        ensures
            m == (Modifiers { ctrl: false, alt: false, shift: false }),
    {
        Modifiers { ctrl: false, alt: false, shift: false }
    }
}

/// A decoded key, independent of the terminal backend that produced it.
///
/// `Null` doubles as "unset": a binding whose user key is `Null` with no
/// modifiers carries no user-chosen combination.
#[derive(Debug, Clone, Copy, PartialEq, Eq, Structural)]
pub enum KeyCode {
    Null,
    Enter,
    Esc,
    Backspace,
    Left,
    Right,
    Up,
    Down,
    Home,
    End,
    PageUp,
    PageDown,
    Tab,
    BackTab,
    Delete,
    Insert,
    F(u8),
    Char(char),
    NumLock,
    ScrollLock,
    CapsLock,
    PrintScreen,
    Pause,
    Menu,
    KeypadBegin,
}

/// Whether a key event was the press edge, an auto-repeat, or the release
/// edge. Only the release edge fires actions, so holding a key does not
/// retrigger it.
#[derive(Debug, Clone, Copy, PartialEq, Eq, Structural)]
pub enum KeyEventKind {
    Press,
    Repeat,
    Release,
}

/// The decimal digit `d` as a character.
pub open spec fn digit_char(d: nat) -> char {
    if d == 0 {
        '0'
    } else if d == 1 {
        '1'
    } else if d == 2 {
        '2'
    } else if d == 3 {
        '3'
    } else if d == 4 {
        '4'
    } else if d == 5 {
        '5'
    } else if d == 6 {
        '6'
    } else if d == 7 {
        '7'
    } else if d == 8 {
        '8'
    } else {
        '9'
    }
}

/// The decimal digits of `n`, most significant first, without leading zeros
/// (a single `'0'` for zero itself).
pub open spec fn dec_digits(n: nat) -> Seq<char>
    decreases n,
{
    if n < 10 {
        seq![digit_char(n)]
    } else {
        dec_digits(n / 10).push(digit_char(n % 10))
    }
}

/// The canonical name of a key: the key's name, `F` followed by the function
/// key's number, or the character itself.
pub open spec fn key_code_label(k: KeyCode) -> Seq<char> {
    match k {
        KeyCode::Null => "Null"@,
        KeyCode::Enter => "Enter"@,
        KeyCode::Esc => "Esc"@,
        KeyCode::Backspace => "Backspace"@,
        KeyCode::Left => "Left"@,
        KeyCode::Right => "Right"@,
        KeyCode::Up => "Up"@,
        KeyCode::Down => "Down"@,
        KeyCode::Home => "Home"@,
        KeyCode::End => "End"@,
        KeyCode::PageUp => "PageUp"@,
        KeyCode::PageDown => "PageDown"@,
        KeyCode::Tab => "Tab"@,
        KeyCode::BackTab => "BackTab"@,
        KeyCode::Delete => "Delete"@,
        KeyCode::Insert => "Insert"@,
        KeyCode::F(n) => "F"@ + dec_digits(n as nat),
        KeyCode::Char(c) => seq![c],
        KeyCode::NumLock => "NumLock"@,
        KeyCode::ScrollLock => "ScrollLock"@,
        KeyCode::CapsLock => "CapsLock"@,
        KeyCode::PrintScreen => "PrintScreen"@,
        KeyCode::Pause => "Pause"@,
        KeyCode::Menu => "Menu"@,
        KeyCode::KeypadBegin => "KeypadBegin"@,
    }
}

/// The canonical name of a modifier chord. More specific combinations take
/// precedence over their subsets: with all three bits set the label is the
/// three-way combination, never a one- or two-modifier name.
pub open spec fn modifiers_label(m: Modifiers) -> Seq<char> {
    if m.ctrl && m.alt && m.shift {
        "Ctrl+Alt+Shift"@
    } else if m.alt && m.shift {
        "Alt+Shift"@
    } else if m.ctrl && m.shift {
        "Ctrl+Shift"@
    } else if m.ctrl && m.alt {
        "Ctrl+Alt"@
    } else if m.shift {
        "Shift"@
    } else if m.alt {
        "Alt"@
    } else if m.ctrl {
        "Ctrl"@
    } else {
        ""@
    }
}

/// The full label of a key combination: key name, `+`, chord name.
pub open spec fn key_label(k: KeyCode, m: Modifiers) -> Seq<char> {
    key_code_label(k) + "+"@ + modifiers_label(m)
}

/// Relies on `String::push`: appends exactly the one character.
#[verifier::external_body]
fn push_char(s: &mut String, c: char)
    ensures
        final(s)@ == old(s)@ + seq![c],
{
    s.push(c);
}

/// Appends the decimal digits of `n` to `s`, most significant first.
fn push_decimal(s: &mut String, n: u8)
    ensures
        final(s)@ == old(s)@ + dec_digits(n as nat),
    decreases n,
{
    if n >= 10 {
        push_decimal(s, n / 10);
    }
    let d: u8 = n % 10;
    let c: char = if d == 0 {
        '0'
    } else if d == 1 {
        '1'
    } else if d == 2 {
        '2'
    } else if d == 3 {
        '3'
    } else if d == 4 {
        '4'
    } else if d == 5 {
        '5'
    } else if d == 6 {
        '6'
    } else if d == 7 {
        '7'
    } else if d == 8 {
        '8'
    } else {
        '9'
    };
    assert(c == digit_char((n % 10) as nat));
    push_char(s, c);
    proof {
        assert(final(s)@ =~= old(s)@ + dec_digits(n as nat));
    }
}

/// The chord's canonical name as a static string.
fn modifiers_label_str(m: Modifiers) -> (r: &'static str)
    ensures
        r@ == modifiers_label(m),
{
    if m.ctrl && m.alt && m.shift {
        "Ctrl+Alt+Shift"
    } else if m.alt && m.shift {
        "Alt+Shift"
    } else if m.ctrl && m.shift {
        "Ctrl+Shift"
    } else if m.ctrl && m.alt {
        "Ctrl+Alt"
    } else if m.shift {
        "Shift"
    } else if m.alt {
        "Alt"
    } else if m.ctrl {
        "Ctrl"
    } else {
        ""
    }
}

/// Renders a key combination as its canonical human-readable label,
/// `<key>+<modifiers>`, with the chord named by [`modifiers_label`]'s
/// precedence rules.
pub fn convert_key_code_and_modifiers_to_string(key_code: KeyCode, key_modifiers: Modifiers) -> (s:
    String)
    ensures
        s@ == key_label(key_code, key_modifiers),
{
    let mut s: String = match key_code {
        KeyCode::Null => String::from_str("Null"),
        KeyCode::Enter => String::from_str("Enter"),
        KeyCode::Esc => String::from_str("Esc"),
        KeyCode::Backspace => String::from_str("Backspace"),
        KeyCode::Left => String::from_str("Left"),
        KeyCode::Right => String::from_str("Right"),
        KeyCode::Up => String::from_str("Up"),
        KeyCode::Down => String::from_str("Down"),
        KeyCode::Home => String::from_str("Home"),
        KeyCode::End => String::from_str("End"),
        KeyCode::PageUp => String::from_str("PageUp"),
        KeyCode::PageDown => String::from_str("PageDown"),
        KeyCode::Tab => String::from_str("Tab"),
        KeyCode::BackTab => String::from_str("BackTab"),
        KeyCode::Delete => String::from_str("Delete"),
        KeyCode::Insert => String::from_str("Insert"),
        KeyCode::F(n) => {
            let mut t: String = String::from_str("F");
            push_decimal(&mut t, n);
            t
        },
        KeyCode::Char(c) => {
            let mut t: String = String::new();
            push_char(&mut t, c);
            proof {
                assert(t@ =~= seq![c]);
            }
            t
        },
        KeyCode::NumLock => String::from_str("NumLock"),
        KeyCode::ScrollLock => String::from_str("ScrollLock"),
        KeyCode::CapsLock => String::from_str("CapsLock"),
        KeyCode::PrintScreen => String::from_str("PrintScreen"),
        KeyCode::Pause => String::from_str("Pause"),
        KeyCode::Menu => String::from_str("Menu"),
        KeyCode::KeypadBegin => String::from_str("KeypadBegin"),
    };
    assert(s@ == key_code_label(key_code));
    s.append("+");
    let chord: &str = modifiers_label_str(key_modifiers);
    s.append(chord);
    proof {
        assert(s@ =~= key_label(key_code, key_modifiers));
    }
    s
}

} // verus!
