//! Keyboard input as the library sees it, and the bytes an interactive pane
//! forwards to its process for a key.

use vstd::prelude::*;

verus! {

/// A key, independent of any terminal backend.
#[derive(Clone, Copy, Debug, PartialEq, Eq, Structural)]
pub enum KeyCode {
    Backspace,
    Enter,
    Left,
    Right,
    Up,
    Down,
    Home,
    End,
    PageUp,
    PageDown,
    Tab,
    BackTab,
    Delete,
    Insert,
    F(u8),
    Char(char),
    Null,
    Esc,
    /// Any other key (media keys, lock keys, lone modifier keys, ...).
    Other,
}

/// The modifier keys held while a key was pressed.
#[derive(Clone, Copy, Debug, PartialEq, Eq, Structural)]
pub struct KeyModifiers {
    pub shift: bool,
    pub control: bool,
    pub alt: bool,
    pub super_key: bool,
    pub hyper: bool,
    pub meta: bool,
}

/// One key press.
#[derive(Clone, Copy, Debug, PartialEq, Eq, Structural)]
pub struct KeyInput {
    pub code: KeyCode,
    pub modifiers: KeyModifiers,
}

impl KeyModifiers {
    /// Control is held, and no other modifier.
    pub open spec fn spec_is_control_only(self) -> bool {
        self.control && !self.shift && !self.alt && !self.super_key && !self.hyper && !self.meta
    }

    #[verifier::when_used_as_spec(spec_is_control_only)]
    pub fn is_control_only(self) -> (r: bool)
        ensures
            r == self.spec_is_control_only(),
    {
        self.control && !self.shift && !self.alt && !self.super_key && !self.hyper && !self.meta
    }
}

/// The bytes that the Enter key sends to a process.
#[derive(Clone, Copy, Debug, PartialEq, Eq, Structural)]
pub enum LineEnding {
    /// `\n`, as terminals on Unix expect.
    Lf,
    /// `\r\n`, as consoles on Windows expect.
    CrLf,
}

/// The bytes of a line ending.
pub open spec fn line_ending_bytes(ending: LineEnding) -> Seq<u8> {
    match ending {
        LineEnding::Lf => seq![10u8],
        LineEnding::CrLf => seq![13u8, 10u8],
    }
}

/// Code point of a character.
pub open spec fn code_of(c: char) -> u32 {
    c as u32
}

/// `c` with an ASCII lowercase letter turned into its uppercase form;
/// every other character is left as it is.
pub open spec fn ascii_upper_code(c: char) -> u32 {
    if 0x61 <= code_of(c) <= 0x7a {
        (code_of(c) - 32) as u32
    } else {
        code_of(c)
    }
}

/// The control byte sent for Ctrl together with the (uppercased) character
/// of code point `u`, if there is one.
pub open spec fn control_byte(u: u32) -> Option<u8> {
    if u == 0x32 || u == 0x40 || u == 0x20 {
        Some(0u8)  // '2', '@', ' '
    } else if u == 0x33 || u == 0x5b {
        Some(27u8)  // '3', '['
    } else if u == 0x34 || u == 0x5c {
        Some(28u8)  // '4', '\\'
    } else if u == 0x35 || u == 0x5d {
        Some(29u8)  // '5', ']'
    } else if u == 0x36 || u == 0x5e {
        Some(30u8)  // '6', '^'
    } else if u == 0x37 || u == 0x2d || u == 0x5f {
        Some(31u8)  // '7', '-', '_'
    } else if 0x41 <= u <= 0x5f {
        Some((u - 64) as u8)  // 'A'..='_'
    } else {
        None
    }
}

/// The low byte of a character's code point: what a cast of the character to
/// `u8` gives.
pub open spec fn low_byte(c: char) -> u8 {
    (code_of(c) % 256) as u8
}

/// The bytes that a character key sends to a process.
pub open spec fn char_key_bytes(c: char, modifiers: KeyModifiers) -> Seq<u8> {
    if modifiers.spec_is_control_only() {
        match control_byte(ascii_upper_code(c)) {
            Some(b) => seq![b],
            None => seq![low_byte(c)],
        }
    } else {
        seq![low_byte(c)]
    }
}

/// The bytes that a key sends to the process of an interactive pane, Enter
/// sending `enter`, or `None` for a key that sends nothing.
pub open spec fn key_bytes(key: KeyInput, enter: LineEnding) -> Option<Seq<u8>> {
    match key.code {
        KeyCode::Char(c) => Some(char_key_bytes(c, key.modifiers)),
        KeyCode::Enter => Some(line_ending_bytes(enter)),
        KeyCode::Backspace => Some(seq![8u8]),
        KeyCode::Left => Some(seq![27u8, 91u8, 68u8]),
        KeyCode::Right => Some(seq![27u8, 91u8, 67u8]),
        KeyCode::Up => Some(seq![27u8, 91u8, 65u8]),
        KeyCode::Down => Some(seq![27u8, 91u8, 66u8]),
        KeyCode::Tab => Some(seq![9u8]),
        KeyCode::Home => Some(seq![27u8, 91u8, 72u8]),
        KeyCode::End => Some(seq![27u8, 91u8, 70u8]),
        KeyCode::PageUp => Some(seq![27u8, 91u8, 53u8, 126u8]),
        KeyCode::PageDown => Some(seq![27u8, 91u8, 54u8, 126u8]),
        KeyCode::BackTab => Some(seq![27u8, 91u8, 90u8]),
        KeyCode::Delete => Some(seq![27u8, 91u8, 51u8, 126u8]),
        KeyCode::Insert => Some(seq![27u8, 91u8, 50u8, 126u8]),
        KeyCode::Esc => Some(seq![27u8]),
        _ => None,
    }
}

/// The uppercase form of an ASCII lowercase letter; any other character's
/// code point unchanged.
fn ascii_upper(c: char) -> (u: u32)
    ensures
        u == ascii_upper_code(c),
{
    let code = c as u32;
    if 0x61 <= code && code <= 0x7a {
        code - 32
    } else {
        code
    }
}

/// The bytes a character key sends to a process.
pub fn char_bytes(c: char, modifiers: KeyModifiers) -> (bytes: Vec<u8>)
    ensures
        bytes@ == char_key_bytes(c, modifiers),
{
    let code = c as u32;
    let low: u8 = (code % 256) as u8;
    let mut send = vec![low];
    if modifiers.is_control_only() {
        let upper = ascii_upper(c);
        if upper == 0x32 || upper == 0x40 || upper == 0x20 {
            send = vec![0u8];
        } else if upper == 0x33 || upper == 0x5b {
            send = vec![27u8];
        } else if upper == 0x34 || upper == 0x5c {
            send = vec![28u8];
        } else if upper == 0x35 || upper == 0x5d {
            send = vec![29u8];
        } else if upper == 0x36 || upper == 0x5e {
            send = vec![30u8];
        } else if upper == 0x37 || upper == 0x2d || upper == 0x5f {
            send = vec![31u8];
        } else if 0x41 <= upper && upper <= 0x5f {
            let ascii_val: u8 = upper as u8;
            send = vec![ascii_val - 64];
        }
    }
    proof {
        assert(send@ =~= char_key_bytes(c, modifiers));
    }
    send
}

/// The bytes that a key sends to the process of an interactive pane, or
/// `None` for a key that sends nothing.
pub fn input_bytes(key: KeyInput, enter: LineEnding) -> (bytes: Option<Vec<u8>>)
    ensures
        match bytes {
            Some(b) => key_bytes(key, enter) == Some(b@),
            None => key_bytes(key, enter) is None,
        },
{
    let r = match key.code {
        KeyCode::Char(c) => Some(char_bytes(c, key.modifiers)),
        KeyCode::Enter => match enter {
            LineEnding::Lf => Some(vec![10u8]),
            LineEnding::CrLf => Some(vec![13u8, 10u8]),
        },
        KeyCode::Backspace => Some(vec![8u8]),
        KeyCode::Left => Some(vec![27u8, 91, 68]),
        KeyCode::Right => Some(vec![27u8, 91, 67]),
        KeyCode::Up => Some(vec![27u8, 91, 65]),
        KeyCode::Down => Some(vec![27u8, 91, 66]),
        KeyCode::Tab => Some(vec![9u8]),
        KeyCode::Home => Some(vec![27u8, 91, 72]),
        KeyCode::End => Some(vec![27u8, 91, 70]),
        KeyCode::PageUp => Some(vec![27u8, 91, 53, 126]),
        KeyCode::PageDown => Some(vec![27u8, 91, 54, 126]),
        KeyCode::BackTab => Some(vec![27u8, 91, 90]),
        KeyCode::Delete => Some(vec![27u8, 91, 51, 126]),
        KeyCode::Insert => Some(vec![27u8, 91, 50, 126]),
        KeyCode::Esc => Some(vec![27u8]),
        _ => None,
    };
    r
}

} // verus!
